//! The conversation driver: turns one prompt into a plan to execute, over
//! at most [`MAX_TURNS`] requests to the planning service.
//!
//! Like the executor, the driver is a state machine that does no input or
//! output of its own. Each [`Conversation::step`] takes a [`DriverEvent`]
//! and answers with a [`DriverEffect`] for the caller to carry out.
//!
//! A turn is one request to the planning service. The answer is a chat
//! message to reply to, or a plan that asks for files to be read first, or
//! a project to create, or a plan to execute. Only the first two lead to
//! another turn.

use vstd::prelude::*;
use vstd::string::*;
use crate::action::{Action, ActionView, PlanningResponse, PlanningResponseView};
use crate::memory::{current_timestamp, planning_context_of, ProjectMemory, ProjectMemoryView};
use crate::text::{eq_ignore_ascii_case, eq_ignoring_ascii_case, trim_text, trimmed};

verus! {

/// How many requests to the planning service one conversation may make.
pub const MAX_TURNS: usize = 10;

/// What the driver waits to be told.
#[derive(Debug, Clone, Copy, PartialEq, Eq)]
pub enum Phase {
    /// Nothing was done yet.
    Start,
    /// The text of the workspace scan.
    Scan,
    /// That the memory was saved after the scan.
    ScanSaved,
    /// That the memory was saved after the prompt was logged.
    TaskSaved,
    /// What the fetch cache held.
    Cache,
    /// The answer of the planning service.
    Plan,
    /// The user's reply to a chat message.
    Reply,
    /// That the memory was saved after the reply was logged.
    ReplySaved,
    /// The content of a file that the plan asked to read.
    File,
    /// The file in the workspace that the path of such a file means.
    Search,
    /// The content of the file that was found.
    FoundFile,
    /// Nothing: the conversation is over.
    Finished,
}

/// One round of chat: what the service said and what the user replied.
#[derive(Debug, Clone, PartialEq, Eq)]
pub struct Exchange {
    pub assistant: String,
    pub user: String,
}

/// How a conversation ended.
#[derive(Debug, Clone, PartialEq, Eq)]
pub enum Ending {
    /// The last allowed request was made and led to another turn.
    LimitReached,
    /// The planning service could not be reached or did not answer well.
    ConnectionLost,
    /// No reply could be read from the user.
    InputClosed,
    /// The user asked to leave.
    UserLeft,
    /// The service had nothing to say and nothing to do.
    Nothing,
    /// The service asks for a project to be created from this response.
    CreateProject(PlanningResponse),
    /// The service asks for this plan to be executed.
    ExecutePlan(Vec<Action>),
}

/// What the caller reports to the driver.
#[derive(Debug, Clone, PartialEq, Eq)]
pub enum DriverEvent {
    /// Answers nothing; starts the conversation.
    Start,
    /// Answers [`DriverEffect::ScanWorkspace`].
    Scanned(String),
    /// Answers [`DriverEffect::SaveMemory`], whether or not the memory was
    /// saved.
    Saved,
    /// Answers [`DriverEffect::TakeFetchCache`]: what the cache held, if
    /// it held anything. The cache is empty afterwards.
    FetchCache(Option<String>),
    /// Answers [`DriverEffect::RequestPlan`].
    PlanReceived(PlanningResponse),
    /// Answers [`DriverEffect::RequestPlan`]: no answer could be had.
    PlanFailed,
    /// Answers [`DriverEffect::AskUser`]: the line that the user typed, if
    /// one could be read.
    Reply(Option<String>),
    /// Answers [`DriverEffect::ReadFile`]: the content, if the file could
    /// be read.
    FileRead(Option<String>),
    /// Answers [`DriverEffect::FindFile`]: the path of the file that was
    /// found, if one was.
    Found(Option<String>),
}

/// What the driver asks the caller to do.
#[derive(Debug, Clone, PartialEq, Eq)]
pub enum DriverEffect {
    /// Scan the workspace and report its text.
    ScanWorkspace,
    /// Save the driver's memory.
    SaveMemory,
    /// Read the fetch cache, if there is one, and remove it.
    TakeFetchCache,
    /// Send `prompt` and `context` to the planning service.
    RequestPlan { prompt: String, context: String },
    /// Show `message` to the user and read one line of reply.
    AskUser { message: String },
    /// Read the file at `path`.
    ReadFile { path: String },
    /// Search the workspace for the file that `path` means: a regular
    /// file of the same name outside build output, version control and
    /// fetched packages.
    FindFile { path: String },
    /// Nothing more: the conversation is over.
    Finished(Ending),
    /// Nothing: the event answered no effect that was pending. The driver
    /// is as it was.
    Unexpected,
}

/// The driver of one conversation.
pub struct Conversation {
    prompt: String,
    /// The requests made to the planning service so far.
    turn: usize,
    history: Vec<Exchange>,
    context: String,
    memory: ProjectMemory,
    awaiting: Phase,
    /// The answer at work.
    response: Option<PlanningResponse>,
    /// The position in the plan of the answer at work, while files are read.
    cursor: usize,
    /// The context with the files read so far.
    buffer: String,
    /// Whether any file was read.
    refreshed: bool,
}

/// The mathematical value of an [`Exchange`].
pub struct ExchangeView {
    pub assistant: Seq<char>,
    pub user: Seq<char>,
}

impl View for Exchange {
    type V = ExchangeView;

    open spec fn view(&self) -> ExchangeView {
        ExchangeView { assistant: self.assistant@, user: self.user@ }
    }
}

impl DeepView for Exchange {
    type V = ExchangeView;

    open spec fn deep_view(&self) -> ExchangeView {
        self.view()
    }
}

/// The mathematical value of an [`Ending`].
pub enum EndingView {
    LimitReached,
    ConnectionLost,
    InputClosed,
    UserLeft,
    Nothing,
    CreateProject(PlanningResponseView),
    ExecutePlan(Seq<ActionView>),
}

impl View for Ending {
    type V = EndingView;

    open spec fn view(&self) -> EndingView {
        match self {
            Ending::LimitReached => EndingView::LimitReached,
            Ending::ConnectionLost => EndingView::ConnectionLost,
            Ending::InputClosed => EndingView::InputClosed,
            Ending::UserLeft => EndingView::UserLeft,
            Ending::Nothing => EndingView::Nothing,
            Ending::CreateProject(response) => EndingView::CreateProject(response@),
            Ending::ExecutePlan(plan) => EndingView::ExecutePlan(plan.deep_view()),
        }
    }
}

/// The mathematical value of a [`DriverEvent`].
pub enum DriverEventView {
    Start,
    Scanned(Seq<char>),
    Saved,
    FetchCache(Option<Seq<char>>),
    PlanReceived(PlanningResponseView),
    PlanFailed,
    Reply(Option<Seq<char>>),
    FileRead(Option<Seq<char>>),
    Found(Option<Seq<char>>),
}

impl View for DriverEvent {
    type V = DriverEventView;

    open spec fn view(&self) -> DriverEventView {
        match self {
            DriverEvent::Start => DriverEventView::Start,
            DriverEvent::Scanned(text) => DriverEventView::Scanned(text@),
            DriverEvent::Saved => DriverEventView::Saved,
            DriverEvent::FetchCache(content) => DriverEventView::FetchCache(content.deep_view()),
            DriverEvent::PlanReceived(response) => DriverEventView::PlanReceived(response@),
            DriverEvent::PlanFailed => DriverEventView::PlanFailed,
            DriverEvent::Reply(line) => DriverEventView::Reply(line.deep_view()),
            DriverEvent::FileRead(content) => DriverEventView::FileRead(content.deep_view()),
            DriverEvent::Found(path) => DriverEventView::Found(path.deep_view()),
        }
    }
}

/// The mathematical value of a [`DriverEffect`].
pub enum DriverEffectView {
    ScanWorkspace,
    SaveMemory,
    TakeFetchCache,
    RequestPlan { prompt: Seq<char>, context: Seq<char> },
    AskUser { message: Seq<char> },
    ReadFile { path: Seq<char> },
    FindFile { path: Seq<char> },
    Finished(EndingView),
    Unexpected,
}

impl View for DriverEffect {
    type V = DriverEffectView;

    open spec fn view(&self) -> DriverEffectView {
        match self {
            DriverEffect::ScanWorkspace => DriverEffectView::ScanWorkspace,
            DriverEffect::SaveMemory => DriverEffectView::SaveMemory,
            DriverEffect::TakeFetchCache => DriverEffectView::TakeFetchCache,
            DriverEffect::RequestPlan { prompt, context } => DriverEffectView::RequestPlan {
                prompt: prompt@,
                context: context@,
            },
            DriverEffect::AskUser { message } => DriverEffectView::AskUser { message: message@ },
            DriverEffect::ReadFile { path } => DriverEffectView::ReadFile { path: path@ },
            DriverEffect::FindFile { path } => DriverEffectView::FindFile { path: path@ },
            DriverEffect::Finished(ending) => DriverEffectView::Finished(ending@),
            DriverEffect::Unexpected => DriverEffectView::Unexpected,
        }
    }
}

/// The mathematical value of a [`Conversation`].
pub struct ConversationView {
    pub prompt: Seq<char>,
    /// The requests made to the planning service so far.
    pub turn: int,
    pub history: Seq<ExchangeView>,
    pub context: Seq<char>,
    pub memory: ProjectMemoryView,
    pub awaiting: Phase,
    pub response: Option<PlanningResponseView>,
    pub cursor: int,
    pub buffer: Seq<char>,
    pub refreshed: bool,
}

impl View for Conversation {
    type V = ConversationView;

    closed spec fn view(&self) -> ConversationView {
        ConversationView {
            prompt: self.prompt@,
            turn: self.turn as int,
            history: self.history.deep_view(),
            context: self.context@,
            memory: self.memory@,
            awaiting: self.awaiting,
            response: self.response.deep_view(),
            cursor: self.cursor as int,
            buffer: self.buffer@,
            refreshed: self.refreshed,
        }
    }
}

/// The transcript of the chat so far.
pub open spec fn rendered_history(history: Seq<ExchangeView>) -> Seq<char>
    decreases history.len(),
{
    if history.len() == 0 {
        Seq::empty()
    } else {
        rendered_history(history.drop_last()) + "\nAI: "@ + history.last().assistant
            + "\nUser: "@ + history.last().user + "\n"@
    }
}

/// The prompt of a request: the user's prompt, with the transcript of
/// the chat so far before it.
pub open spec fn full_prompt_of(prompt: Seq<char>, history: Seq<ExchangeView>) -> Seq<char> {
    rendered_history(history) + prompt
}

/// The block that fetched content is added to the context as.
pub open spec fn browsed_block(content: Seq<char>) -> Seq<char> {
    "\n\n--- BROWSED CONTENT ---\n"@ + content + "\n"@
}

/// The block that a file read on request is added to the context as.
pub open spec fn fresh_read_block(path: Seq<char>, content: Seq<char>) -> Seq<char> {
    "\n\n--- FRESH FILE READ: "@ + path + " ---\n"@ + content + "\n"@
}

/// The position of the first request to read a file at or after `from`,
/// or the length of the plan if there is none.
pub open spec fn next_read(plan: Seq<ActionView>, from: int) -> int
    decreases plan.len() - from,
{
    if from < 0 || from >= plan.len() {
        plan.len() as int
    } else if plan[from] is ReadFile {
        from
    } else {
        next_read(plan, from + 1)
    }
}

/// The reply asks to leave the conversation.
pub open spec fn asks_to_leave(answer: Seq<char>) -> bool {
    eq_ignoring_ascii_case(answer, "exit"@) || eq_ignoring_ascii_case(answer, "quit"@)
}

impl ConversationView {
    /// The conversation on `prompt` before its first step.
    pub open spec fn initial(prompt: Seq<char>, memory: ProjectMemoryView) -> ConversationView {
        ConversationView {
            prompt,
            turn: 0,
            history: Seq::empty(),
            context: Seq::empty(),
            memory,
            awaiting: Phase::Start,
            response: None,
            cursor: 0,
            buffer: Seq::empty(),
            refreshed: false,
        }
    }

    /// The conversation with no answer at work.
    pub open spec fn cleared(self) -> ConversationView {
        ConversationView {
            response: None,
            cursor: 0,
            buffer: Seq::empty(),
            refreshed: false,
            ..self
        }
    }

    /// The event answers nothing that is pending.
    pub open spec fn unexpected(self) -> (ConversationView, DriverEffectView) {
        (self, DriverEffectView::Unexpected)
    }

    /// The conversation ends.
    pub open spec fn finish(self, ending: EndingView) -> (ConversationView, DriverEffectView) {
        (
            ConversationView { awaiting: Phase::Finished, ..self.cleared() },
            DriverEffectView::Finished(ending),
        )
    }

    /// Logs the prompt as a task, at the time `now`.
    pub open spec fn log_task(self, now: Seq<char>) -> (ConversationView, DriverEffectView) {
        (
            ConversationView {
                memory: self.memory.with_task(self.prompt, now),
                awaiting: Phase::TaskSaved,
                ..self
            },
            DriverEffectView::SaveMemory,
        )
    }

    /// Begins a turn, unless all turns are used up.
    pub open spec fn begin_turn(self) -> (ConversationView, DriverEffectView) {
        if self.turn >= MAX_TURNS {
            self.finish(EndingView::LimitReached)
        } else {
            (
                ConversationView { awaiting: Phase::Cache, ..self.cleared() },
                DriverEffectView::TakeFetchCache,
            )
        }
    }

    /// Makes the request of a turn, with what the fetch cache held added
    /// to the context.
    pub open spec fn request(self, cache: Option<Seq<char>>) -> (
        ConversationView,
        DriverEffectView,
    ) {
        let context = match cache {
            Some(content) => self.context + browsed_block(content),
            None => self.context,
        };
        if self.turn >= MAX_TURNS {
            self.finish(EndingView::LimitReached)
        } else {
            (
                ConversationView { context, turn: self.turn + 1, awaiting: Phase::Plan, ..self },
                DriverEffectView::RequestPlan {
                    prompt: full_prompt_of(self.prompt, self.history),
                    context,
                },
            )
        }
    }

    /// Ends the conversation on an answer that asks for no file to be read
    /// or of which no file could be read: with a project to create, with a
    /// plan to execute, or with nothing.
    pub open spec fn conclude(self, response: PlanningResponseView) -> (
        ConversationView,
        DriverEffectView,
    ) {
        if response.has_init_command() {
            self.finish(EndingView::CreateProject(response))
        } else if response.plan.len() > 0 {
            self.finish(EndingView::ExecutePlan(response.plan))
        } else {
            self.finish(EndingView::Nothing)
        }
    }

    /// Goes on reading the files that the answer at work asks for. When
    /// all were asked for, the next turn begins if any was read; otherwise
    /// the conversation ends on the answer.
    pub open spec fn read_on(self) -> (ConversationView, DriverEffectView) {
        match self.response {
            None => self.finish(EndingView::Nothing),
            Some(response) => {
                let at = next_read(response.plan, self.cursor);
                if at < response.plan.len() {
                    (
                        ConversationView { cursor: at, awaiting: Phase::File, ..self },
                        DriverEffectView::ReadFile { path: response.plan[at]->ReadFile_path },
                    )
                } else if self.refreshed {
                    (ConversationView { context: self.buffer, ..self }).begin_turn()
                } else {
                    self.conclude(response)
                }
            },
        }
    }

    /// The planning service has answered.
    pub open spec fn on_response(self, response: PlanningResponseView) -> (
        ConversationView,
        DriverEffectView,
    ) {
        if response.is_chat() {
            (
                ConversationView {
                    awaiting: Phase::Reply,
                    response: Some(response),
                    ..self.cleared()
                },
                DriverEffectView::AskUser { message: response.message->0 },
            )
        } else {
            (ConversationView {
                response: Some(response),
                cursor: 0,
                buffer: self.context,
                refreshed: false,
                ..self
            }).read_on()
        }
    }

    /// The message that the user was asked to reply to.
    pub open spec fn pending_message(self) -> Seq<char> {
        match self.response {
            Some(response) => match response.message {
                Some(message) => message,
                None => Seq::empty(),
            },
            None => Seq::empty(),
        }
    }

    /// The user has replied, at the time `now`. A reply that asks to leave
    /// ends the conversation; an empty one begins the next turn as it is;
    /// any other is logged as a task and joins the transcript.
    pub open spec fn on_reply(self, reply: Option<Seq<char>>, now: Seq<char>) -> (
        ConversationView,
        DriverEffectView,
    ) {
        match reply {
            None => self.finish(EndingView::InputClosed),
            Some(line) => {
                if asks_to_leave(trimmed(line)) {
                    self.finish(EndingView::UserLeft)
                } else if trimmed(line).len() == 0 {
                    self.begin_turn()
                } else {
                    (
                        ConversationView {
                            memory: self.memory.with_task(trimmed(line), now),
                            history: self.history.push(
                                ExchangeView {
                                    assistant: self.pending_message(),
                                    user: trimmed(line),
                                },
                            ),
                            awaiting: Phase::ReplySaved,
                            ..self.cleared()
                        },
                        DriverEffectView::SaveMemory,
                    )
                }
            },
        }
    }

    /// The path of the file that the answer at work asks to read at the
    /// position, if it asks for one there.
    pub open spec fn asked_path(self) -> Option<Seq<char>> {
        match self.response {
            Some(response) => if 0 <= self.cursor < response.plan.len() {
                match response.plan[self.cursor] {
                    ActionView::ReadFile { path } => Some(path),
                    _ => None,
                }
            } else {
                None
            },
            None => None,
        }
    }

    /// Takes the content of the file at the position into the context, as
    /// the content of the path that was asked for, and goes on.
    pub open spec fn take_file(self, path: Seq<char>, content: Seq<char>) -> (
        ConversationView,
        DriverEffectView,
    ) {
        (ConversationView {
            buffer: self.buffer + fresh_read_block(path, content),
            refreshed: true,
            cursor: self.cursor + 1,
            ..self
        }).read_on()
    }

    /// Leaves the file at the position unread and goes on.
    pub open spec fn skip_file(self) -> (ConversationView, DriverEffectView) {
        (ConversationView { cursor: self.cursor + 1, ..self }).read_on()
    }

    /// What one step does at the time `now`: the conversation after the
    /// event, and the effect that it asks for.
    pub open spec fn step(self, event: DriverEventView, now: Seq<char>) -> (
        ConversationView,
        DriverEffectView,
    ) {
        match self.awaiting {
            Phase::Start => match event {
                DriverEventView::Start => if self.memory.project_context.len() == 0 {
                    (
                        ConversationView { awaiting: Phase::Scan, ..self },
                        DriverEffectView::ScanWorkspace,
                    )
                } else {
                    self.log_task(now)
                },
                _ => self.unexpected(),
            },
            Phase::Scan => match event {
                DriverEventView::Scanned(text) => (
                    ConversationView {
                        memory: self.memory.with_scan(text),
                        awaiting: Phase::ScanSaved,
                        ..self
                    },
                    DriverEffectView::SaveMemory,
                ),
                _ => self.unexpected(),
            },
            Phase::ScanSaved => match event {
                DriverEventView::Saved => self.log_task(now),
                _ => self.unexpected(),
            },
            Phase::TaskSaved => match event {
                DriverEventView::Saved => (ConversationView {
                    context: planning_context_of(self.memory),
                    ..self
                }).begin_turn(),
                _ => self.unexpected(),
            },
            Phase::Cache => match event {
                DriverEventView::FetchCache(cache) => self.request(cache),
                _ => self.unexpected(),
            },
            Phase::Plan => match event {
                DriverEventView::PlanReceived(response) => self.on_response(response),
                DriverEventView::PlanFailed => self.finish(EndingView::ConnectionLost),
                _ => self.unexpected(),
            },
            Phase::Reply => match event {
                DriverEventView::Reply(reply) => self.on_reply(reply, now),
                _ => self.unexpected(),
            },
            Phase::ReplySaved => match event {
                DriverEventView::Saved => self.begin_turn(),
                _ => self.unexpected(),
            },
            Phase::File => match (event, self.asked_path()) {
                (DriverEventView::FileRead(Some(content)), Some(path)) => self.take_file(
                    path,
                    content,
                ),
                (DriverEventView::FileRead(None), Some(path)) => (
                    ConversationView { awaiting: Phase::Search, ..self },
                    DriverEffectView::FindFile { path },
                ),
                _ => self.unexpected(),
            },
            Phase::Search => match (event, self.asked_path()) {
                (DriverEventView::Found(Some(found)), Some(_)) => (
                    ConversationView { awaiting: Phase::FoundFile, ..self },
                    DriverEffectView::ReadFile { path: found },
                ),
                (DriverEventView::Found(None), Some(_)) => self.skip_file(),
                _ => self.unexpected(),
            },
            Phase::FoundFile => match (event, self.asked_path()) {
                (DriverEventView::FileRead(Some(content)), Some(path)) => self.take_file(
                    path,
                    content,
                ),
                (DriverEventView::FileRead(None), Some(_)) => self.skip_file(),
                _ => self.unexpected(),
            },
            Phase::Finished => self.unexpected(),
        }
    }
}

/// The prompt of a request.
fn full_prompt(prompt: &str, history: &Vec<Exchange>) -> (full: String)
    ensures
        full@ == full_prompt_of(prompt@, history.deep_view()),
{
    let ghost all = history.deep_view();
    let mut full = String::new();
    let mut i: usize = 0;
    assert(all.take(0) =~= Seq::empty());
    while i < history.len()
        invariant
            i <= history.len(),
            all == history.deep_view(),
            full@ == rendered_history(all.take(i as int)),
        decreases history.len() - i,
    {
        let exchange = &history[i];
        proof {
            assert(all.take(i + 1).drop_last() =~= all.take(i as int));
            assert(all.take(i + 1).last() == exchange@);
        }
        full.append("\nAI: ");
        full.append(exchange.assistant.as_str());
        full.append("\nUser: ");
        full.append(exchange.user.as_str());
        full.append("\n");
        i += 1;
    }
    assert(all.take(history.len() as int) =~= all);
    full.append(prompt);
    full
}

impl Conversation {
    /// The conversation on `prompt`, with the memory of the workspace as
    /// it was loaded.
    pub fn new(prompt: String, memory: ProjectMemory) -> (conversation: Conversation)
        ensures
            conversation@ == ConversationView::initial(prompt@, memory@),
    {
        let history: Vec<Exchange> = Vec::new();
        assert(history.deep_view() =~= Seq::<ExchangeView>::empty());
        Conversation {
            prompt,
            turn: 0,
            history,
            context: String::new(),
            memory,
            awaiting: Phase::Start,
            response: None,
            cursor: 0,
            buffer: String::new(),
            refreshed: false,
        }
    }

    /// What the driver waits to be told.
    pub fn awaiting(&self) -> (awaiting: Phase)
        ensures
            awaiting == self@.awaiting,
    {
        self.awaiting
    }

    /// The requests made to the planning service so far.
    pub fn turn(&self) -> (turn: usize)
        ensures
            turn == self@.turn,
    {
        self.turn
    }

    /// The memory, with the tasks logged so far.
    pub fn memory(&self) -> (memory: &ProjectMemory)
        ensures
            memory@ == self@.memory,
    {
        &self.memory
    }

    /// Ends the driver's life and hands its memory on.
    pub fn into_memory(self) -> (memory: ProjectMemory)
        ensures
            memory@ == self@.memory,
    {
        self.memory
    }

    /// Forgets the answer at work.
    fn clear(&mut self)
        ensures
            final(self)@ == old(self)@.cleared(),
    {
        self.response = None;
        self.cursor = 0;
        self.buffer = String::new();
        self.refreshed = false;
    }

    /// Ends the conversation.
    fn finish(&mut self, ending: Ending) -> (effect: DriverEffect)
        ensures
            (final(self)@, effect@) == old(self)@.finish(ending@),
    {
        self.clear();
        self.awaiting = Phase::Finished;
        DriverEffect::Finished(ending)
    }

    /// Logs the prompt as a task.
    fn log_task(&mut self, now: String) -> (effect: DriverEffect)
        ensures
            (final(self)@, effect@) == old(self)@.log_task(now@),
    {
        let prompt = self.prompt.clone();
        self.memory.record_task(prompt.as_str(), now);
        self.awaiting = Phase::TaskSaved;
        DriverEffect::SaveMemory
    }

    /// Begins a turn, unless all turns are used up.
    fn begin_turn(&mut self) -> (effect: DriverEffect)
        ensures
            (final(self)@, effect@) == old(self)@.begin_turn(),
    {
        if self.turn >= MAX_TURNS {
            self.finish(Ending::LimitReached)
        } else {
            self.clear();
            self.awaiting = Phase::Cache;
            DriverEffect::TakeFetchCache
        }
    }

    /// Makes the request of a turn.
    fn request(&mut self, cache: Option<String>) -> (effect: DriverEffect)
        ensures
            (final(self)@, effect@) == old(self)@.request(cache.deep_view()),
    {
        if self.turn >= MAX_TURNS {
            return self.finish(Ending::LimitReached);
        }
        match cache {
            Some(content) => {
                let ghost before = self.context@;
                self.context.append("\n\n--- BROWSED CONTENT ---\n");
                self.context.append(content.as_str());
                self.context.append("\n");
                assert(self.context@ =~= before + browsed_block(content@));
            },
            None => {},
        }
        self.turn = self.turn + 1;
        self.awaiting = Phase::Plan;
        DriverEffect::RequestPlan {
            prompt: full_prompt(self.prompt.as_str(), &self.history),
            context: self.context.clone(),
        }
    }

    /// Ends the conversation on an answer.
    fn conclude(&mut self, response: PlanningResponse) -> (effect: DriverEffect)
        ensures
            (final(self)@, effect@) == old(self)@.conclude(response@),
    {
        if response.has_init_command() {
            self.finish(Ending::CreateProject(response))
        } else if response.plan.len() > 0 {
            self.finish(Ending::ExecutePlan(response.plan))
        } else {
            self.finish(Ending::Nothing)
        }
    }

    /// Goes on reading the files that the answer at work asks for.
    fn read_on(&mut self) -> (effect: DriverEffect)
        ensures
            (final(self)@, effect@) == old(self)@.read_on(),
    {
        let response = match self.response.take() {
            Some(response) => response,
            None => {
                return self.finish(Ending::Nothing);
            },
        };
        let ghost plan = response@.plan;
        let mut at = self.cursor;
        while at < response.plan.len()
            invariant
                plan == response@.plan,
                old(self)@.response == Some(response@),
                self@ == (ConversationView { response: None, ..old(self)@ }),
                next_read(plan, at as int) == next_read(plan, self.cursor as int),
            decreases response.plan.len() - at,
        {
            assert(plan[at as int] == response.plan[at as int]@);
            match &response.plan[at] {
                Action::ReadFile { path } => {
                    let effect = DriverEffect::ReadFile { path: path.clone() };
                    self.cursor = at;
                    self.awaiting = Phase::File;
                    self.response = Some(response);
                    return effect;
                },
                _ => {},
            }
            at += 1;
        }
        if self.refreshed {
            let mut fresh = String::new();
            std::mem::swap(&mut fresh, &mut self.buffer);
            self.context = fresh;
            self.begin_turn()
        } else {
            self.conclude(response)
        }
    }

    /// The planning service has answered.
    fn on_response(&mut self, response: PlanningResponse) -> (effect: DriverEffect)
        ensures
            (final(self)@, effect@) == old(self)@.on_response(response@),
    {
        if response.is_chat() {
            let message = match &response.message {
                Some(message) => message.clone(),
                None => String::new(),
            };
            self.clear();
            self.response = Some(response);
            self.awaiting = Phase::Reply;
            DriverEffect::AskUser { message }
        } else {
            self.response = Some(response);
            self.cursor = 0;
            self.buffer = self.context.clone();
            self.refreshed = false;
            self.read_on()
        }
    }

    /// The user has replied.
    fn on_reply(&mut self, reply: Option<String>, now: String) -> (effect: DriverEffect)
        ensures
            (final(self)@, effect@) == old(self)@.on_reply(reply.deep_view(), now@),
    {
        let line = match reply {
            Some(line) => line,
            None => {
                return self.finish(Ending::InputClosed);
            },
        };
        let answer = trim_text(line.as_str());
        if eq_ignore_ascii_case(answer.as_str(), "exit") || eq_ignore_ascii_case(
            answer.as_str(),
            "quit",
        ) {
            return self.finish(Ending::UserLeft);
        }
        if answer.as_str().is_empty() {
            return self.begin_turn();
        }
        let assistant = match self.response.take() {
            Some(response) => match response.message {
                Some(message) => message,
                None => String::new(),
            },
            None => String::new(),
        };
        self.memory.record_task(answer.as_str(), now);
        let ghost before = self.history.deep_view();
        self.history.push(Exchange { assistant, user: answer });
        assert(self.history.deep_view() =~= before.push(
            ExchangeView { assistant: assistant@, user: answer@ },
        ));
        self.clear();
        self.awaiting = Phase::ReplySaved;
        DriverEffect::SaveMemory
    }

    /// A copy of the path of the file that the answer at work asks to
    /// read at the position.
    fn asked_path(&self) -> (path: Option<String>)
        ensures
            path.deep_view() == self@.asked_path(),
    {
        match &self.response {
            Some(response) => {
                if self.cursor < response.plan.len() {
                    assert(response@.plan[self.cursor as int] == response.plan[self.cursor as int]@);
                    match &response.plan[self.cursor] {
                        Action::ReadFile { path } => Some(path.clone()),
                        _ => None,
                    }
                } else {
                    None
                }
            },
            None => None,
        }
    }

    /// Takes the content of the file at the position into the context.
    fn take_file(&mut self, path: String, content: String) -> (effect: DriverEffect)
        requires
            old(self)@.asked_path() is Some,
        ensures
            (final(self)@, effect@) == old(self)@.take_file(path@, content@),
    {
        let ghost before = self.buffer@;
        self.buffer.append("\n\n--- FRESH FILE READ: ");
        self.buffer.append(path.as_str());
        self.buffer.append(" ---\n");
        self.buffer.append(content.as_str());
        self.buffer.append("\n");
        assert(self.buffer@ =~= before + fresh_read_block(path@, content@));
        self.refreshed = true;
        proof {
            assert(self.response is Some);
            assert(self@.response == Some(self.response->0@));
            assert(self.response->0@.plan.len() == self.response->0.plan.len());
            assert(self.cursor < self.response->0.plan.len());
        }
        self.cursor = self.cursor + 1;
        self.read_on()
    }

    /// Leaves the file at the position unread and goes on.
    fn skip_file(&mut self) -> (effect: DriverEffect)
        requires
            old(self)@.asked_path() is Some,
        ensures
            (final(self)@, effect@) == old(self)@.skip_file(),
    {
        proof {
            assert(self.response is Some);
            assert(self@.response == Some(self.response->0@));
            assert(self.response->0@.plan.len() == self.response->0.plan.len());
            assert(self.cursor < self.response->0.plan.len());
        }
        self.cursor = self.cursor + 1;
        self.read_on()
    }

    /// Takes one event at the time `now` and answers with the next effect.
    ///
    /// An event that answers no pending effect changes nothing and is
    /// answered with [`DriverEffect::Unexpected`]. A request to the
    /// planning service is only made while fewer than [`MAX_TURNS`] were
    /// made, and each one counts.
    pub fn step_at(&mut self, event: DriverEvent, now: String) -> (effect: DriverEffect)
        ensures
            (final(self)@, effect@) == old(self)@.step(event@, now@),
            effect@ is RequestPlan ==> old(self)@.turn < MAX_TURNS && final(self)@.turn == old(
                self,
            )@.turn + 1,
            !(effect@ is RequestPlan) ==> final(self)@.turn == old(self)@.turn,
    {
        proof {
            lemma_step_counts_requests(self@, event@, now@);
        }
        match self.awaiting {
            Phase::Start => match event {
                DriverEvent::Start => {
                    if self.memory.needs_scan() {
                        self.awaiting = Phase::Scan;
                        DriverEffect::ScanWorkspace
                    } else {
                        self.log_task(now)
                    }
                },
                _ => DriverEffect::Unexpected,
            },
            Phase::Scan => match event {
                DriverEvent::Scanned(text) => {
                    self.memory.remember_scan(text);
                    self.awaiting = Phase::ScanSaved;
                    DriverEffect::SaveMemory
                },
                _ => DriverEffect::Unexpected,
            },
            Phase::ScanSaved => match event {
                DriverEvent::Saved => self.log_task(now),
                _ => DriverEffect::Unexpected,
            },
            Phase::TaskSaved => match event {
                DriverEvent::Saved => {
                    self.context = self.memory.planning_context();
                    self.begin_turn()
                },
                _ => DriverEffect::Unexpected,
            },
            Phase::Cache => match event {
                DriverEvent::FetchCache(cache) => self.request(cache),
                _ => DriverEffect::Unexpected,
            },
            Phase::Plan => match event {
                DriverEvent::PlanReceived(response) => self.on_response(response),
                DriverEvent::PlanFailed => self.finish(Ending::ConnectionLost),
                _ => DriverEffect::Unexpected,
            },
            Phase::Reply => match event {
                DriverEvent::Reply(reply) => self.on_reply(reply, now),
                _ => DriverEffect::Unexpected,
            },
            Phase::ReplySaved => match event {
                DriverEvent::Saved => self.begin_turn(),
                _ => DriverEffect::Unexpected,
            },
            Phase::File => match (event, self.asked_path()) {
                (DriverEvent::FileRead(Some(content)), Some(path)) => self.take_file(
                    path,
                    content,
                ),
                (DriverEvent::FileRead(None), Some(path)) => {
                    self.awaiting = Phase::Search;
                    DriverEffect::FindFile { path }
                },
                _ => DriverEffect::Unexpected,
            },
            Phase::Search => match (event, self.asked_path()) {
                (DriverEvent::Found(Some(found)), Some(_)) => {
                    self.awaiting = Phase::FoundFile;
                    DriverEffect::ReadFile { path: found }
                },
                (DriverEvent::Found(None), Some(_)) => self.skip_file(),
                _ => DriverEffect::Unexpected,
            },
            Phase::FoundFile => match (event, self.asked_path()) {
                (DriverEvent::FileRead(Some(content)), Some(path)) => self.take_file(
                    path,
                    content,
                ),
                (DriverEvent::FileRead(None), Some(_)) => self.skip_file(),
                _ => DriverEffect::Unexpected,
            },
            Phase::Finished => DriverEffect::Unexpected,
        }
    }

    /// Takes one event and answers with the next effect, as
    /// [`Conversation::step_at`] does at the time that the clock gives.
    pub fn step(&mut self, event: DriverEvent) -> (effect: DriverEffect)
        ensures
            exists|now: Seq<char>| (final(self)@, effect@) == old(self)@.step(event@, now),
            effect@ is RequestPlan ==> old(self)@.turn < MAX_TURNS && final(self)@.turn == old(
                self,
            )@.turn + 1,
            !(effect@ is RequestPlan) ==> final(self)@.turn == old(self)@.turn,
    {
        let now = current_timestamp();
        let ghost before = self@;
        let ghost at = now@;
        let effect = self.step_at(event, now);
        assert((self@, effect@) == before.step(event@, at));
        effect
    }
}

/// An event with the time at which it is taken.
pub struct TimedEvent {
    pub event: DriverEventView,
    pub now: Seq<char>,
}

/// The conversation after a sequence of events.
pub open spec fn run(start: ConversationView, inputs: Seq<TimedEvent>) -> ConversationView
    decreases inputs.len(),
{
    if inputs.len() == 0 {
        start
    } else {
        run(start, inputs.drop_last()).step(inputs.last().event, inputs.last().now).0
    }
}

/// The effect that the last of a sequence of events is answered with.
pub open spec fn last_effect(start: ConversationView, inputs: Seq<TimedEvent>) -> DriverEffectView
    recommends
        inputs.len() > 0,
{
    run(start, inputs.drop_last()).step(inputs.last().event, inputs.last().now).1
}

/// How many requests to the planning service a sequence of events leads to.
pub open spec fn requests_made(start: ConversationView, inputs: Seq<TimedEvent>) -> int
    decreases inputs.len(),
{
    if inputs.len() == 0 {
        0
    } else if last_effect(start, inputs) is RequestPlan {
        requests_made(start, inputs.drop_last()) + 1
    } else {
        requests_made(start, inputs.drop_last())
    }
}

/// How many scans of the workspace a sequence of events leads to.
pub open spec fn scans_made(start: ConversationView, inputs: Seq<TimedEvent>) -> int
    decreases inputs.len(),
{
    if inputs.len() == 0 {
        0
    } else if last_effect(start, inputs) is ScanWorkspace {
        scans_made(start, inputs.drop_last()) + 1
    } else {
        scans_made(start, inputs.drop_last())
    }
}

/// A step makes a request to the planning service only while fewer than
/// [`MAX_TURNS`] were made, and counts it; no other step changes the count.
pub proof fn lemma_step_counts_requests(
    before: ConversationView,
    event: DriverEventView,
    now: Seq<char>,
)
    ensures
        before.step(event, now).1 is RequestPlan ==> before.turn < MAX_TURNS && before.step(
            event,
            now,
        ).0.turn == before.turn + 1,
        !(before.step(event, now).1 is RequestPlan) ==> before.step(event, now).0.turn
            == before.turn,
{
}

/// Along any sequence of events, the conversation's count of requests is
/// the number of requests that it has asked for.
pub proof fn lemma_turn_counts_requests(start: ConversationView, inputs: Seq<TimedEvent>)
    ensures
        run(start, inputs).turn == start.turn + requests_made(start, inputs),
        start.turn <= MAX_TURNS ==> run(start, inputs).turn <= MAX_TURNS,
    decreases inputs.len(),
{
    if inputs.len() > 0 {
        lemma_turn_counts_requests(start, inputs.drop_last());
        lemma_step_counts_requests(
            run(start, inputs.drop_last()),
            inputs.last().event,
            inputs.last().now,
        );
    }
}

/// Whatever the planning service answers and whatever the user replies, a
/// conversation never makes more than [`MAX_TURNS`] requests to the
/// planning service.
pub proof fn lemma_requests_are_bounded(
    prompt: Seq<char>,
    memory: ProjectMemoryView,
    inputs: Seq<TimedEvent>,
)
    ensures
        0 <= requests_made(ConversationView::initial(prompt, memory), inputs) <= MAX_TURNS,
{
    lemma_turn_counts_requests(ConversationView::initial(prompt, memory), inputs);
    lemma_requests_are_counted_up(ConversationView::initial(prompt, memory), inputs);
}

/// The number of requests never goes below zero.
pub proof fn lemma_requests_are_counted_up(start: ConversationView, inputs: Seq<TimedEvent>)
    ensures
        0 <= requests_made(start, inputs),
    decreases inputs.len(),
{
    if inputs.len() > 0 {
        lemma_requests_are_counted_up(start, inputs.drop_last());
    }
}

/// Once [`MAX_TURNS`] requests were made, the turn that would make one
/// more ends the conversation instead, with the limit as its ending: no
/// step asks for the fetch cache or for a plan any more, and where a turn
/// would begin the conversation finishes.
pub proof fn lemma_limit_ends_the_conversation(
    before: ConversationView,
    event: DriverEventView,
    now: Seq<char>,
)
    requires
        before.turn >= MAX_TURNS,
    ensures
        !(before.step(event, now).1 is RequestPlan),
        !(before.step(event, now).1 is TakeFetchCache),
        before.begin_turn().1 == DriverEffectView::Finished(EndingView::LimitReached),
        before.awaiting == Phase::ReplySaved && event is Saved ==> before.step(event, now).1
            == DriverEffectView::Finished(EndingView::LimitReached),
{
}

/// The workspace is scanned only on the first step of a conversation, and
/// only if the memory holds no cached context.
pub proof fn lemma_scan_needs_empty_cache(
    before: ConversationView,
    event: DriverEventView,
    now: Seq<char>,
)
    ensures
        before.step(event, now).1 is ScanWorkspace ==> before.awaiting == Phase::Start
            && event is Start && before.memory.project_context.len() == 0,
        before.awaiting != Phase::Start ==> before.step(event, now).0.awaiting != Phase::Start,
        before.memory.project_context.len() > 0 ==> before.step(
            event,
            now,
        ).0.memory.project_context == before.memory.project_context,
{
}

/// A conversation that starts with an empty cache scans the workspace at
/// its first step, and keeps what the scan gave as the cached context.
pub proof fn lemma_empty_cache_is_filled(
    prompt: Seq<char>,
    memory: ProjectMemoryView,
    now: Seq<char>,
    scanned: Seq<char>,
)
    requires
        memory.project_context.len() == 0,
    ensures
        ConversationView::initial(prompt, memory).step(DriverEventView::Start, now).1
            == DriverEffectView::ScanWorkspace,
        ConversationView::initial(prompt, memory).step(DriverEventView::Start, now).0.step(
            DriverEventView::Scanned(scanned),
            now,
        ).1 == DriverEffectView::SaveMemory,
        ConversationView::initial(prompt, memory).step(DriverEventView::Start, now).0.step(
            DriverEventView::Scanned(scanned),
            now,
        ).0.memory.project_context == scanned,
{
}

/// A conversation that starts with a filled cache never scans the
/// workspace, and its cached context stays what it was.
pub proof fn lemma_filled_cache_is_not_rescanned(
    prompt: Seq<char>,
    memory: ProjectMemoryView,
    inputs: Seq<TimedEvent>,
)
    requires
        memory.project_context.len() > 0,
    ensures
        scans_made(ConversationView::initial(prompt, memory), inputs) == 0,
        run(ConversationView::initial(prompt, memory), inputs).memory.project_context
            == memory.project_context,
    decreases inputs.len(),
{
    if inputs.len() > 0 {
        lemma_filled_cache_is_not_rescanned(prompt, memory, inputs.drop_last());
        lemma_scan_needs_empty_cache(
            run(ConversationView::initial(prompt, memory), inputs.drop_last()),
            inputs.last().event,
            inputs.last().now,
        );
    }
}

/// No conversation scans the workspace more than once.
pub proof fn lemma_scans_at_most_once(
    prompt: Seq<char>,
    memory: ProjectMemoryView,
    inputs: Seq<TimedEvent>,
)
    ensures
        0 <= scans_made(ConversationView::initial(prompt, memory), inputs) <= 1,
        scans_made(ConversationView::initial(prompt, memory), inputs) == 1 ==> run(
            ConversationView::initial(prompt, memory),
            inputs,
        ).awaiting != Phase::Start,
    decreases inputs.len(),
{
    if inputs.len() > 0 {
        lemma_scans_at_most_once(prompt, memory, inputs.drop_last());
        lemma_scan_needs_empty_cache(
            run(ConversationView::initial(prompt, memory), inputs.drop_last()),
            inputs.last().event,
            inputs.last().now,
        );
    }
}

/// A step only ever adds to the cached context of the memory: what was
/// cached before is the beginning of what is cached after.
pub proof fn lemma_step_only_adds_context(
    before: ConversationView,
    event: DriverEventView,
    now: Seq<char>,
)
    ensures
        before.memory.project_context.is_prefix_of(
            before.step(event, now).0.memory.project_context,
        ),
{
    lemma_scan_needs_empty_cache(before, event, now);
    let after = before.step(event, now).0.memory.project_context;
    if before.memory.project_context.len() == 0 {
        assert(before.memory.project_context =~= after.subrange(0, 0));
    } else {
        assert(after.subrange(0, after.len() as int) =~= after);
    }
}

/// Whenever a step changes the memory, it asks for the memory to be
/// saved.
pub proof fn lemma_changed_memory_is_saved(
    before: ConversationView,
    event: DriverEventView,
    now: Seq<char>,
)
    ensures
        before.step(event, now).0.memory != before.memory ==> before.step(event, now).1
            == DriverEffectView::SaveMemory,
{
}

} // verus!
