//! The plan executor: applies one plan to the workspace, action by action.
//!
//! The executor touches neither disk nor network nor terminal. It is a
//! state machine: each [`Executor::step`] takes what the last effect came to
//! (an [`Event`]) and answers with the next thing to do (an [`Effect`]).
//! The caller carries the effects out and reports back, until the executor
//! answers [`Effect::Finished`].
//!
//! A command that fails starts a round of healing: the planning service is
//! asked for a remedy, and the remedy is executed as a plan of its own
//! before the failed plan goes on. The plans at work form a stack. A remedy
//! may itself need healing, but only [`MAX_HEALING_DEPTH`] remedies are ever
//! stacked on the first plan; below that depth a failed command is passed
//! over.
//!
//! What a sequence of steps does is stated by [`ExecutorView::step`], on
//! the mathematical values of the types here.

use vstd::prelude::*;
use vstd::string::*;
use crate::action::{Action, ActionView};
use crate::action::field_or;
use crate::command::{
    failure_text, failure_text_of, is_heavy_command, is_heavy_name, remedy_prompt,
    remedy_prompt_of, CommandResult, CommandResultView, HeavyChoice,
};
use crate::diff::{review_change, review_of, ConfirmAction, DiffReview, DiffReviewView};
use crate::memory::{ProjectMemory, ProjectMemoryView};

verus! {

/// How many remedies may be stacked on the plan that the executor was
/// started with.
pub const MAX_HEALING_DEPTH: usize = 3;

/// The file, relative to the workspace, that holds fetched content until
/// the next planning request takes it up.
pub const FETCH_CACHE_FILE: &'static str = "neurust_browsing_cache.txt";

/// What the executor waits to be told.
#[derive(Debug, Clone, Copy, PartialEq, Eq)]
pub enum Awaiting {
    /// Nothing was done yet.
    Start,
    /// Whether there is a file at the path of a write.
    Exists,
    /// The file in the workspace that the path of a write means.
    Search,
    /// What the file that a write goes to holds.
    Existing,
    /// The user's answer to a proposed change.
    Decision,
    /// How a write ended.
    Written,
    /// That the memory was saved.
    Saved,
    /// Whether the user waits for a heavy command.
    Choice,
    /// How a command ended.
    Command,
    /// The remedy for a failed command.
    Remedy,
    /// What a fetch came to.
    Fetched,
    /// That fetched content was stored.
    Cached,
    /// Nothing: the plan is done with.
    Finished,
}

/// How the execution of a plan ended.
#[derive(Debug, Clone, Copy, PartialEq, Eq)]
pub enum Outcome {
    /// Every action was carried out or passed over.
    Completed,
    /// The workspace refused access; the rest of the plan was dropped.
    Aborted,
}

/// What the caller reports to the executor.
#[derive(Debug, Clone, PartialEq, Eq)]
pub enum Event {
    /// Answers nothing; starts the execution.
    Start,
    /// Answers [`Effect::CheckExists`].
    Exists(bool),
    /// Answers [`Effect::FindFile`]: the path of the file that was found,
    /// if one was.
    Found(Option<String>),
    /// Answers [`Effect::ReadExisting`]: the content, if it could be read.
    Content(Option<String>),
    /// Answers [`Effect::AskConfirmation`].
    Decision(ConfirmAction),
    /// Answers [`Effect::AskConfirmation`]: no answer could be read. The
    /// change is not made.
    NoDecision,
    /// Answers [`Effect::WriteFile`]: the file was written.
    Written,
    /// Answers [`Effect::WriteFile`]: the file could not be written.
    WriteFailed,
    /// Answers [`Effect::WriteFile`]: the directory for the file could not
    /// be made.
    AccessDenied,
    /// Answers [`Effect::SaveMemory`], whether or not the memory was saved.
    Saved,
    /// Answers [`Effect::AskHeavy`].
    Choice(HeavyChoice),
    /// Answers [`Effect::RunCommand`].
    CommandEnded(CommandResult),
    /// Answers [`Effect::RequestRemedy`]: the plan that the service sent,
    /// if it sent one.
    Remedy(Option<Vec<Action>>),
    /// Answers [`Effect::FetchUrl`]: the content, if the fetch succeeded.
    Fetched(Option<String>),
    /// Answers [`Effect::StoreFetched`], whether or not the content was
    /// stored.
    Stored,
}

/// What the executor asks the caller to do.
#[derive(Debug, Clone, PartialEq, Eq)]
pub enum Effect {
    /// Tell whether there is a file at `path`.
    CheckExists { path: String },
    /// Search the workspace for the file that `path` means: a regular
    /// file of the same name outside build output, version control and
    /// fetched packages.
    FindFile { path: String },
    /// Read the file at `path`.
    ReadExisting { path: String },
    /// Show the change and ask the user.
    AskConfirmation { path: String, reason: String, review: DiffReview },
    /// Make the directories that `path` needs and write `content` to it.
    WriteFile { path: String, content: String },
    /// Save the executor's memory.
    SaveMemory,
    /// Ask the user whether to wait for the heavy command or to run it
    /// by hand later.
    AskHeavy { program: String, args: Vec<String> },
    /// Run the command; `patient` says that the user chose to wait for it.
    RunCommand { program: String, args: Vec<String>, patient: bool },
    /// Ask the planning service for a plan, with `prompt` and no context.
    RequestRemedy { prompt: String },
    /// Fetch the content behind `url`.
    FetchUrl { url: String },
    /// Write `content`, which is `characters` characters long, to `file`.
    StoreFetched { file: String, content: String, characters: usize },
    /// Nothing more: the execution has ended.
    Finished(Outcome),
    /// Nothing: the event answered no effect that was pending. The
    /// executor is as it was.
    Unexpected,
}

/// One plan at work.
pub struct Frame {
    /// The actions of the plan.
    actions: Vec<Action>,
    /// The position of the action at work.
    next: usize,
    /// Whether the user accepted all further changes of this plan.
    always_allow: bool,
}

/// The executor of one plan, with the remedies stacked on it.
pub struct Executor {
    frames: Vec<Frame>,
    awaiting: Awaiting,
    target: String,
    memory: ProjectMemory,
}

/// The mathematical value of an [`Event`].
pub enum EventView {
    Start,
    Exists(bool),
    Found(Option<Seq<char>>),
    Content(Option<Seq<char>>),
    Decision(ConfirmAction),
    NoDecision,
    Written,
    WriteFailed,
    AccessDenied,
    Saved,
    Choice(HeavyChoice),
    CommandEnded(CommandResultView),
    Remedy(Option<Seq<ActionView>>),
    Fetched(Option<Seq<char>>),
    Stored,
}

/// The mathematical value of an [`Effect`].
pub enum EffectView {
    CheckExists { path: Seq<char> },
    FindFile { path: Seq<char> },
    ReadExisting { path: Seq<char> },
    AskConfirmation { path: Seq<char>, reason: Seq<char>, review: DiffReviewView },
    WriteFile { path: Seq<char>, content: Seq<char> },
    SaveMemory,
    AskHeavy { program: Seq<char>, args: Seq<Seq<char>> },
    RunCommand { program: Seq<char>, args: Seq<Seq<char>>, patient: bool },
    RequestRemedy { prompt: Seq<char> },
    FetchUrl { url: Seq<char> },
    StoreFetched { file: Seq<char>, content: Seq<char>, characters: usize },
    Finished(Outcome),
    Unexpected,
}

/// The mathematical value of a [`Frame`].
pub struct FrameView {
    pub actions: Seq<ActionView>,
    pub next: int,
    pub always_allow: bool,
}

/// The mathematical value of an [`Executor`].
pub struct ExecutorView {
    /// The plans at work: the first plan, then the remedies, innermost last.
    pub frames: Seq<FrameView>,
    pub awaiting: Awaiting,
    /// The file that the write at work goes to.
    pub target: Seq<char>,
    pub memory: ProjectMemoryView,
}

impl View for Event {
    type V = EventView;

    open spec fn view(&self) -> EventView {
        match self {
            Event::Start => EventView::Start,
            Event::Exists(exists) => EventView::Exists(*exists),
            Event::Found(path) => EventView::Found(path.deep_view()),
            Event::Content(content) => EventView::Content(content.deep_view()),
            Event::Decision(decision) => EventView::Decision(*decision),
            Event::NoDecision => EventView::NoDecision,
            Event::Written => EventView::Written,
            Event::WriteFailed => EventView::WriteFailed,
            Event::AccessDenied => EventView::AccessDenied,
            Event::Saved => EventView::Saved,
            Event::Choice(choice) => EventView::Choice(*choice),
            Event::CommandEnded(result) => EventView::CommandEnded(result@),
            Event::Remedy(plan) => EventView::Remedy(plan.deep_view()),
            Event::Fetched(content) => EventView::Fetched(content.deep_view()),
            Event::Stored => EventView::Stored,
        }
    }
}

impl View for Effect {
    type V = EffectView;

    open spec fn view(&self) -> EffectView {
        match self {
            Effect::CheckExists { path } => EffectView::CheckExists { path: path@ },
            Effect::FindFile { path } => EffectView::FindFile { path: path@ },
            Effect::ReadExisting { path } => EffectView::ReadExisting { path: path@ },
            Effect::AskConfirmation { path, reason, review } => EffectView::AskConfirmation {
                path: path@,
                reason: reason@,
                review: review@,
            },
            Effect::WriteFile { path, content } => EffectView::WriteFile {
                path: path@,
                content: content@,
            },
            Effect::SaveMemory => EffectView::SaveMemory,
            Effect::AskHeavy { program, args } => EffectView::AskHeavy {
                program: program@,
                args: args.deep_view(),
            },
            Effect::RunCommand { program, args, patient } => EffectView::RunCommand {
                program: program@,
                args: args.deep_view(),
                patient: *patient,
            },
            Effect::RequestRemedy { prompt } => EffectView::RequestRemedy { prompt: prompt@ },
            Effect::FetchUrl { url } => EffectView::FetchUrl { url: url@ },
            Effect::StoreFetched { file, content, characters } => EffectView::StoreFetched {
                file: file@,
                content: content@,
                characters: *characters,
            },
            Effect::Finished(outcome) => EffectView::Finished(*outcome),
            Effect::Unexpected => EffectView::Unexpected,
        }
    }
}

impl View for Frame {
    type V = FrameView;

    closed spec fn view(&self) -> FrameView {
        FrameView {
            actions: self.actions.deep_view(),
            next: self.next as int,
            always_allow: self.always_allow,
        }
    }
}

impl DeepView for Frame {
    type V = FrameView;

    closed spec fn deep_view(&self) -> FrameView {
        self.view()
    }
}

impl View for Executor {
    type V = ExecutorView;

    closed spec fn view(&self) -> ExecutorView {
        ExecutorView {
            frames: self.frames.deep_view(),
            awaiting: self.awaiting,
            target: self.target@,
            memory: self.memory@,
        }
    }
}

/// How many actions of a plan are still to be looked at.
pub open spec fn pending_in(frame: FrameView) -> int {
    if 0 <= frame.next < frame.actions.len() {
        frame.actions.len() - frame.next
    } else {
        0
    }
}

/// The plan with its position moved one action on.
pub open spec fn moved_on(frame: FrameView) -> FrameView {
    FrameView { next: frame.next + 1, ..frame }
}

/// The stack with the position of its innermost plan moved one action on.
pub open spec fn advanced(frames: Seq<FrameView>) -> Seq<FrameView> {
    if frames.len() == 0 {
        frames
    } else {
        frames.drop_last().push(moved_on(frames.last()))
    }
}

/// The stack once the plans that are used up are dropped and the actions
/// that do nothing are passed over: it is empty, or the innermost plan
/// stands at an action that does something.
pub open spec fn settle(frames: Seq<FrameView>) -> Seq<FrameView>
    decreases
            frames.len(),
            (if frames.len() > 0 {
                pending_in(frames.last())
            } else {
                0
            }),
{
    if frames.len() == 0 {
        frames
    } else if pending_in(frames.last()) == 0 {
        settle(frames.drop_last())
    } else if frames.last().actions[frames.last().next].is_inert() {
        settle(advanced(frames))
    } else {
        frames
    }
}

impl ExecutorView {
    /// The executor of `plan` before its first step.
    pub open spec fn initial(plan: Seq<ActionView>, memory: ProjectMemoryView) -> ExecutorView {
        ExecutorView {
            frames: seq![FrameView { actions: plan, next: 0, always_allow: false }],
            awaiting: Awaiting::Start,
            target: Seq::empty(),
            memory,
        }
    }

    /// The action at work, if any.
    pub open spec fn current(self) -> Option<ActionView> {
        if self.frames.len() > 0 && pending_in(self.frames.last()) > 0 {
            Some(self.frames.last().actions[self.frames.last().next])
        } else {
            None
        }
    }

    /// The write at work, if a write is at work.
    pub open spec fn current_write(self) -> Option<PendingWrite> {
        match self.current() {
            Some(ActionView::CreateOrUpdateFile { path, content, reason }) => Some(
                PendingWrite { path, content, reason },
            ),
            _ => None,
        }
    }

    /// The program and the arguments of the command at work, if a command
    /// is at work.
    pub open spec fn current_command(self) -> Option<(Seq<char>, Seq<Seq<char>>)> {
        match self.current() {
            Some(ActionView::RunCommand { program, args }) => Some((program, args)),
            _ => None,
        }
    }

    /// Whether a fetch is at work.
    pub open spec fn current_fetches(self) -> bool {
        self.current() matches Some(ActionView::FetchUrl { .. })
    }

    /// The content that the event shows the target of the write at work
    /// to hold: that of a file that was read, or nothing where the file
    /// could not be read or does not exist.
    pub open spec fn existing_shown(self, event: EventView) -> Option<Seq<char>> {
        if self.current_write() is None {
            None
        } else {
            match (self.awaiting, event) {
                (Awaiting::Existing, EventView::Content(content)) => Some(field_or(content, ""@)),
                (Awaiting::Search, EventView::Found(None)) => Some(""@),
                _ => None,
            }
        }
    }

    /// The event shows that the file to write holds what is to be written
    /// already.
    pub open spec fn proposes_no_change(self, event: EventView) -> bool {
        &&& self.existing_shown(event) matches Some(existing)
        &&& self.current_write() matches Some(write)
        &&& write.content == existing
    }

    /// The event shows that the file to write holds something else than
    /// what is to be written, or nothing, and the changes of the plan are
    /// not accepted as a whole.
    pub open spec fn proposes_change(self, event: EventView) -> bool {
        &&& !self.allows_all()
        &&& self.existing_shown(event) matches Some(existing)
        &&& self.current_write() matches Some(write)
        &&& write.content != existing
    }

    /// Whether the user accepted all further changes of the innermost plan.
    pub open spec fn allows_all(self) -> bool {
        self.frames.len() > 0 && self.frames.last().always_allow
    }

    /// The event answers nothing that is pending.
    pub open spec fn unexpected(self) -> (ExecutorView, EffectView) {
        (self, EffectView::Unexpected)
    }

    /// Goes on from where the stack stands: ends if nothing is left, else
    /// starts on the next action that does something. A write starts
    /// with a look for its file, a heavy command with a question to the
    /// user.
    pub open spec fn resume(self) -> (ExecutorView, EffectView) {
        let frames = settle(self.frames);
        if frames.len() == 0 {
            (
                ExecutorView { frames, awaiting: Awaiting::Finished, ..self },
                EffectView::Finished(Outcome::Completed),
            )
        } else {
            match frames.last().actions[frames.last().next] {
                ActionView::CreateOrUpdateFile { path, .. } => (
                    ExecutorView { frames, awaiting: Awaiting::Exists, ..self },
                    EffectView::CheckExists { path },
                ),
                ActionView::RunCommand { program, args } => if is_heavy_name(program) {
                    (
                        ExecutorView { frames, awaiting: Awaiting::Choice, ..self },
                        EffectView::AskHeavy { program, args },
                    )
                } else {
                    (
                        ExecutorView { frames, awaiting: Awaiting::Command, ..self },
                        EffectView::RunCommand { program, args, patient: false },
                    )
                },
                ActionView::FetchUrl { url } => (
                    ExecutorView { frames, awaiting: Awaiting::Fetched, ..self },
                    EffectView::FetchUrl { url },
                ),
                _ => (
                    ExecutorView { frames, awaiting: Awaiting::Finished, ..self },
                    EffectView::Unexpected,
                ),
            }
        }
    }

    /// Leaves the action at work behind and goes on.
    pub open spec fn proceed(self) -> (ExecutorView, EffectView) {
        (ExecutorView { frames: advanced(self.frames), ..self }).resume()
    }

    /// Drops what is left and ends.
    pub open spec fn abort(self) -> (ExecutorView, EffectView) {
        (
            ExecutorView { awaiting: Awaiting::Finished, ..self },
            EffectView::Finished(Outcome::Aborted),
        )
    }

    /// Asks for `content` to be written to the target.
    pub open spec fn write(self, content: Seq<char>) -> (ExecutorView, EffectView) {
        (
            ExecutorView { awaiting: Awaiting::Written, ..self },
            EffectView::WriteFile { path: self.target, content },
        )
    }

    /// The innermost plan with all its further changes accepted.
    pub open spec fn accepting_all(self) -> ExecutorView {
        if self.frames.len() == 0 {
            self
        } else {
            ExecutorView {
                frames: self.frames.drop_last().push(
                    FrameView { always_allow: true, ..self.frames.last() },
                ),
                ..self
            }
        }
    }

    /// Compares what the target holds with what is to be written. Where
    /// nothing changes, or all changes are accepted, the write follows at
    /// once; otherwise the user is asked.
    pub open spec fn gate(self, existing: Seq<char>, write: PendingWrite) -> (
        ExecutorView,
        EffectView,
    ) {
        if !self.allows_all() && review_of(self.target, existing, write.content).changed {
            (
                ExecutorView { awaiting: Awaiting::Decision, ..self },
                EffectView::AskConfirmation {
                    path: self.target,
                    reason: write.reason,
                    review: review_of(self.target, existing, write.content),
                },
            )
        } else {
            self.write(write.content)
        }
    }

    /// The file to write to is known to be `path`, and whether it exists.
    /// The content of an existing file is asked for; a file that does not
    /// exist counts as empty.
    pub open spec fn on_target(self, path: Seq<char>, exists: bool, write: PendingWrite) -> (
        ExecutorView,
        EffectView,
    ) {
        let aimed = ExecutorView { target: path, ..self };
        if exists {
            (
                ExecutorView { awaiting: Awaiting::Existing, ..aimed },
                EffectView::ReadExisting { path },
            )
        } else {
            aimed.gate(""@, write)
        }
    }

    /// The user has answered.
    pub open spec fn on_decision(self, decision: ConfirmAction, content: Seq<char>) -> (
        ExecutorView,
        EffectView,
    ) {
        match decision {
            ConfirmAction::Yes => self.write(content),
            ConfirmAction::All => self.accepting_all().write(content),
            ConfirmAction::No => self.proceed(),
        }
    }

    /// The command has ended. A command that did not succeed is healed,
    /// unless too many remedies are stacked already.
    pub open spec fn on_command_end(
        self,
        result: CommandResultView,
        program: Seq<char>,
        args: Seq<Seq<char>>,
    ) -> (ExecutorView, EffectView) {
        if result is Succeeded || self.frames.len() > MAX_HEALING_DEPTH {
            self.proceed()
        } else {
            (
                ExecutorView { awaiting: Awaiting::Remedy, ..self },
                EffectView::RequestRemedy {
                    prompt: remedy_prompt_of(
                        program,
                        args,
                        failure_text_of(is_heavy_name(program), result),
                    ),
                },
            )
        }
    }

    /// The remedy has come. A plan that is missing or empty is no remedy:
    /// the failed command is left behind.
    pub open spec fn on_remedy(self, plan: Option<Seq<ActionView>>) -> (
        ExecutorView,
        EffectView,
    ) {
        match plan {
            Some(actions) => if actions.len() > 0 {
                (ExecutorView {
                    frames: advanced(self.frames).push(
                        FrameView { actions, next: 0, always_allow: false },
                    ),
                    ..self
                }).resume()
            } else {
                self.proceed()
            },
            None => self.proceed(),
        }
    }

    /// What one step does: the executor after the event, and the effect
    /// that it asks for.
    pub open spec fn step(self, event: EventView) -> (ExecutorView, EffectView) {
        match self.awaiting {
            Awaiting::Start => match event {
                EventView::Start => self.resume(),
                _ => self.unexpected(),
            },
            Awaiting::Exists => match (event, self.current_write()) {
                (EventView::Exists(true), Some(write)) => self.on_target(write.path, true, write),
                (EventView::Exists(false), Some(write)) => (
                    ExecutorView { awaiting: Awaiting::Search, ..self },
                    EffectView::FindFile { path: write.path },
                ),
                _ => self.unexpected(),
            },
            Awaiting::Search => match (event, self.current_write()) {
                (EventView::Found(Some(found)), Some(write)) => self.on_target(found, true, write),
                (EventView::Found(None), Some(write)) => self.on_target(write.path, false, write),
                _ => self.unexpected(),
            },
            Awaiting::Existing => match (event, self.current_write()) {
                (EventView::Content(content), Some(write)) => self.gate(
                    field_or(content, ""@),
                    write,
                ),
                _ => self.unexpected(),
            },
            Awaiting::Decision => match (event, self.current_write()) {
                (EventView::Decision(decision), Some(write)) => self.on_decision(
                    decision,
                    write.content,
                ),
                (EventView::NoDecision, Some(_)) => self.proceed(),
                _ => self.unexpected(),
            },
            Awaiting::Written => match (event, self.current_write()) {
                (EventView::Written, Some(write)) => (
                    ExecutorView {
                        awaiting: Awaiting::Saved,
                        memory: self.memory.with_file(self.target, write.content),
                        ..self
                    },
                    EffectView::SaveMemory,
                ),
                (EventView::WriteFailed, Some(_)) => self.proceed(),
                (EventView::AccessDenied, Some(_)) => self.abort(),
                _ => self.unexpected(),
            },
            Awaiting::Saved => match (event, self.current_write()) {
                (EventView::Saved, Some(_)) => self.proceed(),
                _ => self.unexpected(),
            },
            Awaiting::Choice => match (event, self.current_command()) {
                (EventView::Choice(HeavyChoice::Wait), Some(command)) => (
                    ExecutorView { awaiting: Awaiting::Command, ..self },
                    EffectView::RunCommand { program: command.0, args: command.1, patient: true },
                ),
                (EventView::Choice(HeavyChoice::Skip), Some(_)) => self.proceed(),
                _ => self.unexpected(),
            },
            Awaiting::Command => match (event, self.current_command()) {
                (EventView::CommandEnded(result), Some(command)) => self.on_command_end(
                    result,
                    command.0,
                    command.1,
                ),
                _ => self.unexpected(),
            },
            Awaiting::Remedy => match (event, self.current_command()) {
                (EventView::Remedy(plan), Some(_)) => self.on_remedy(plan),
                _ => self.unexpected(),
            },
            Awaiting::Fetched => match (event, self.current_fetches()) {
                (EventView::Fetched(Some(content)), true) => (
                    ExecutorView { awaiting: Awaiting::Cached, ..self },
                    EffectView::StoreFetched {
                        file: FETCH_CACHE_FILE@,
                        content,
                        characters: content.len() as usize,
                    },
                ),
                (EventView::Fetched(None), true) => self.proceed(),
                _ => self.unexpected(),
            },
            Awaiting::Cached => match (event, self.current_fetches()) {
                (EventView::Stored, true) => self.proceed(),
                _ => self.unexpected(),
            },
            Awaiting::Finished => self.unexpected(),
        }
    }
}

/// A write that is at work: where it was planned to go, what it is to
/// write, and why.
pub struct PendingWrite {
    pub path: Seq<char>,
    pub content: Seq<char>,
    pub reason: Seq<char>,
}

/// The exec form of a [`PendingWrite`].
struct PlannedWrite {
    path: String,
    content: String,
    reason: String,
}

impl View for PlannedWrite {
    type V = PendingWrite;

    closed spec fn view(&self) -> PendingWrite {
        PendingWrite { path: self.path@, content: self.content@, reason: self.reason@ }
    }
}

impl DeepView for PlannedWrite {
    type V = PendingWrite;

    closed spec fn deep_view(&self) -> PendingWrite {
        self.view()
    }
}

/// A copy of a list of strings.
fn copy_of(items: &Vec<String>) -> (copy: Vec<String>)
    ensures
        copy.deep_view() == items.deep_view(),
{
    let mut copy: Vec<String> = Vec::new();
    let mut i: usize = 0;
    while i < items.len()
        invariant
            i <= items.len(),
            copy.len() == i,
            forall|k: int| 0 <= k < i ==> copy.deep_view()[k] == items.deep_view()[k],
        decreases items.len() - i,
    {
        let ghost before = copy.deep_view();
        copy.push(items[i].clone());
        assert forall|k: int| 0 <= k < i + 1 implies copy.deep_view()[k] == items.deep_view()[k] by {
            if k < i {
                assert(copy.deep_view()[k] == before[k]);
            }
        }
        i += 1;
    }
    assert(copy.deep_view() =~= items.deep_view());
    copy
}

impl Executor {
    /// The executor of `plan`, which remembers in `memory` what it writes.
    pub fn new(plan: Vec<Action>, memory: ProjectMemory) -> (executor: Executor)
        ensures
            executor@ == ExecutorView::initial(plan.deep_view(), memory@),
            within_depth(executor@),
    {
        let mut frames: Vec<Frame> = Vec::new();
        frames.push(Frame { actions: plan, next: 0, always_allow: false });
        assert(frames.deep_view() =~= seq![
            FrameView { actions: plan.deep_view(), next: 0, always_allow: false },
        ]);
        Executor { frames, awaiting: Awaiting::Start, target: String::new(), memory }
    }

    /// What the executor waits to be told.
    pub fn awaiting(&self) -> (awaiting: Awaiting)
        ensures
            awaiting == self@.awaiting,
    {
        self.awaiting
    }

    /// How many plans are at work: the first plan and the remedies on it.
    pub fn depth(&self) -> (depth: usize)
        ensures
            depth == self@.frames.len(),
    {
        self.frames.len()
    }

    /// The memory, with the files written so far.
    pub fn memory(&self) -> (memory: &ProjectMemory)
        ensures
            memory@ == self@.memory,
    {
        &self.memory
    }

    /// Ends the executor's life and hands its memory on.
    pub fn into_memory(self) -> (memory: ProjectMemory)
        ensures
            memory@ == self@.memory,
    {
        self.memory
    }

    /// The action at work, if any.
    fn current(&self) -> (action: Option<&Action>)
        ensures
            action.deep_view() == self@.current(),
    {
        let depth = self.frames.len();
        if depth == 0 {
            return None;
        }
        let frame = &self.frames[depth - 1];
        assert(frame@ == self.frames.deep_view().last());
        if frame.next < frame.actions.len() {
            let action = &frame.actions[frame.next];
            assert(action@ == frame@.actions[frame@.next]);
            Some(action)
        } else {
            None
        }
    }

    /// A copy of the write at work.
    fn current_write(&self) -> (write: Option<PlannedWrite>)
        ensures
            write.deep_view() == self@.current_write(),
    {
        match self.current() {
            Some(Action::CreateOrUpdateFile { path, content, reason }) => Some(
                PlannedWrite {
                    path: path.clone(),
                    content: content.clone(),
                    reason: reason.clone(),
                },
            ),
            _ => None,
        }
    }

    /// Copies of the program and the arguments of the command at work.
    fn current_command(&self) -> (command: Option<(String, Vec<String>)>)
        ensures
            command.deep_view() == self@.current_command(),
    {
        match self.current() {
            Some(Action::RunCommand { program, args }) => Some((program.clone(), copy_of(args))),
            _ => None,
        }
    }

    /// Whether a fetch is at work.
    fn current_fetches(&self) -> (fetches: bool)
        ensures
            fetches == self@.current_fetches(),
    {
        match self.current() {
            Some(Action::FetchUrl { .. }) => true,
            _ => false,
        }
    }

    /// Whether the user accepted all further changes of the innermost plan.
    fn allows_all(&self) -> (all: bool)
        ensures
            all == self@.allows_all(),
    {
        let depth = self.frames.len();
        if depth == 0 {
            return false;
        }
        let frame = &self.frames[depth - 1];
        assert(frame@ == self.frames.deep_view().last());
        frame.always_allow
    }

    /// Moves the position of the innermost plan one action on.
    fn advance(&mut self)
        requires
            old(self)@.current() is Some,
        ensures
            final(self)@ == (ExecutorView { frames: advanced(old(self)@.frames), ..old(self)@ }),
    {
        let depth = self.frames.len();
        let ghost before = self.frames.deep_view();
        let mut frame = self.frames.pop().unwrap();
        assert(frame@ == before.last());
        assert(self.frames.deep_view() =~= before.drop_last());
        assert(pending_in(frame@) > 0);
        assert(frame.next < frame.actions.len());
        frame.next = frame.next + 1;
        self.frames.push(frame);
        assert(self.frames.deep_view() =~= advanced(before));
    }

    /// Goes on from where the stack stands.
    fn resume(&mut self) -> (effect: Effect)
        ensures
            (final(self)@, effect@) == old(self)@.resume(),
    {
        loop
            invariant
                settle(self.frames.deep_view()) == settle(old(self).frames.deep_view()),
                self.target == old(self).target,
                self.memory == old(self).memory,
            decreases
                    self.frames.len(),
                    (if self.frames.len() > 0 {
                        pending_in(self.frames.deep_view().last())
                    } else {
                        0
                    }),
        {
            let depth = self.frames.len();
            if depth == 0 {
                self.awaiting = Awaiting::Finished;
                return Effect::Finished(Outcome::Completed);
            }
            let ghost before = self.frames.deep_view();
            let frame = &self.frames[depth - 1];
            assert(frame@ == before.last());
            if frame.next >= frame.actions.len() {
                self.frames.pop();
                assert(self.frames.deep_view() =~= before.drop_last());
                continue;
            }
            let action = &frame.actions[frame.next];
            assert(action@ == before.last().actions[before.last().next]);
            match action {
                Action::CreateOrUpdateFile { path, .. } => {
                    let effect = Effect::CheckExists { path: path.clone() };
                    self.awaiting = Awaiting::Exists;
                    return effect;
                },
                Action::RunCommand { program, args } => {
                    if is_heavy_command(program.as_str()) {
                        let effect = Effect::AskHeavy {
                            program: program.clone(),
                            args: copy_of(args),
                        };
                        self.awaiting = Awaiting::Choice;
                        return effect;
                    } else {
                        let effect = Effect::RunCommand {
                            program: program.clone(),
                            args: copy_of(args),
                            patient: false,
                        };
                        self.awaiting = Awaiting::Command;
                        return effect;
                    }
                },
                Action::FetchUrl { url } => {
                    let effect = Effect::FetchUrl { url: url.clone() };
                    self.awaiting = Awaiting::Fetched;
                    return effect;
                },
                _ => {
                    let mut frame = self.frames.pop().unwrap();
                    assert(self.frames.deep_view() =~= before.drop_last());
                    frame.next = frame.next + 1;
                    self.frames.push(frame);
                    assert(self.frames.deep_view() =~= advanced(before));
                },
            }
        }
    }

    /// Leaves the action at work behind and goes on.
    fn proceed(&mut self) -> (effect: Effect)
        requires
            old(self)@.current() is Some,
        ensures
            (final(self)@, effect@) == old(self)@.proceed(),
    {
        self.advance();
        self.resume()
    }

    /// Asks for `content` to be written to the target.
    fn write(&mut self, content: String) -> (effect: Effect)
        ensures
            (final(self)@, effect@) == old(self)@.write(content@),
    {
        self.awaiting = Awaiting::Written;
        Effect::WriteFile { path: self.target.clone(), content }
    }

    /// Marks all further changes of the innermost plan as accepted.
    fn accept_all(&mut self)
        ensures
            final(self)@ == old(self)@.accepting_all(),
    {
        let ghost before = self.frames.deep_view();
        match self.frames.pop() {
            Some(frame) => {
                assert(frame@ == before.last());
                assert(self.frames.deep_view() =~= before.drop_last());
                let mut frame = frame;
                frame.always_allow = true;
                self.frames.push(frame);
                assert(self.frames.deep_view() =~= before.drop_last().push(
                    FrameView { always_allow: true, ..before.last() },
                ));
            },
            None => {
                assert(self.frames.deep_view() =~= before);
            },
        }
    }

    /// Compares what the target holds with what is to be written.
    fn gate(&mut self, existing: &str, write: PlannedWrite) -> (effect: Effect)
        ensures
            (final(self)@, effect@) == old(self)@.gate(existing@, write@),
            existing@ == write@.content ==> effect@ is WriteFile,
            existing@ != write@.content && !old(self)@.allows_all() ==> effect@ is AskConfirmation,
    {
        if self.allows_all() {
            return self.write(write.content);
        }
        let review = review_change(self.target.as_str(), existing, write.content.as_str());
        if review.changed {
            self.awaiting = Awaiting::Decision;
            Effect::AskConfirmation { path: self.target.clone(), reason: write.reason, review }
        } else {
            self.write(write.content)
        }
    }

    /// The file to write to is known, and whether it exists.
    fn on_target(&mut self, path: String, exists: bool, write: PlannedWrite) -> (effect: Effect)
        ensures
            (final(self)@, effect@) == old(self)@.on_target(path@, exists, write@),
            !exists && write@.content == ""@ ==> effect@ is WriteFile,
            !exists && write@.content != ""@ && !old(self)@.allows_all() ==> effect@
                is AskConfirmation,
    {
        self.target = path;
        if exists {
            self.awaiting = Awaiting::Existing;
            Effect::ReadExisting { path: self.target.clone() }
        } else {
            self.gate("", write)
        }
    }

    /// The command has ended.
    fn on_command_end(&mut self, result: CommandResult, program: String, args: Vec<String>) -> (effect:
        Effect)
        requires
            old(self)@.current() is Some,
        ensures
            (final(self)@, effect@) == old(self)@.on_command_end(
                result@,
                program@,
                args.deep_view(),
            ),
    {
        let succeeded = match &result {
            CommandResult::Succeeded => true,
            _ => false,
        };
        if succeeded || self.frames.len() > MAX_HEALING_DEPTH {
            self.proceed()
        } else {
            let error = failure_text(is_heavy_command(program.as_str()), result);
            self.awaiting = Awaiting::Remedy;
            Effect::RequestRemedy { prompt: remedy_prompt(program.as_str(), &args, error.as_str()) }
        }
    }

    /// Takes one event and answers with the next effect.
    ///
    /// An event that answers no pending effect changes nothing and is
    /// answered with [`Effect::Unexpected`].
    ///
    /// A write whose content is what the file holds already is never put
    /// to the user, and a write that changes what the file holds always
    /// is, unless the changes of its plan are accepted as a whole. The
    /// executor stays within its bound on stacked remedies.
    pub fn step(&mut self, event: Event) -> (effect: Effect)
        ensures
            (final(self)@, effect@) == old(self)@.step(event@),
            old(self)@.proposes_no_change(event@) ==> effect@ is WriteFile,
            old(self)@.proposes_change(event@) ==> effect@ is AskConfirmation,
            within_depth(old(self)@) ==> within_depth(final(self)@),
    {
        proof {
            if within_depth(self@) {
                lemma_step_keeps_depth(self@, event@);
            }
        }
        match self.awaiting {
            Awaiting::Start => match event {
                Event::Start => self.resume(),
                _ => Effect::Unexpected,
            },
            Awaiting::Exists => match (event, self.current_write()) {
                (Event::Exists(true), Some(write)) => {
                    let path = write.path.clone();
                    self.on_target(path, true, write)
                },
                (Event::Exists(false), Some(write)) => {
                    self.awaiting = Awaiting::Search;
                    Effect::FindFile { path: write.path }
                },
                _ => Effect::Unexpected,
            },
            Awaiting::Search => match (event, self.current_write()) {
                (Event::Found(Some(found)), Some(write)) => self.on_target(found, true, write),
                (Event::Found(None), Some(write)) => {
                    let path = write.path.clone();
                    self.on_target(path, false, write)
                },
                _ => Effect::Unexpected,
            },
            Awaiting::Existing => match (event, self.current_write()) {
                (Event::Content(content), Some(write)) => match content {
                    Some(existing) => self.gate(existing.as_str(), write),
                    None => self.gate("", write),
                },
                _ => Effect::Unexpected,
            },
            Awaiting::Decision => match (event, self.current_write()) {
                (Event::Decision(decision), Some(write)) => match decision {
                    ConfirmAction::Yes => self.write(write.content),
                    ConfirmAction::All => {
                        self.accept_all();
                        self.write(write.content)
                    },
                    ConfirmAction::No => self.proceed(),
                },
                (Event::NoDecision, Some(_)) => self.proceed(),
                _ => Effect::Unexpected,
            },
            Awaiting::Written => match (event, self.current_write()) {
                (Event::Written, Some(write)) => {
                    let path = self.target.clone();
                    self.memory.append_file_context(path.as_str(), write.content.as_str());
                    self.awaiting = Awaiting::Saved;
                    Effect::SaveMemory
                },
                (Event::WriteFailed, Some(_)) => self.proceed(),
                (Event::AccessDenied, Some(_)) => {
                    self.awaiting = Awaiting::Finished;
                    Effect::Finished(Outcome::Aborted)
                },
                _ => Effect::Unexpected,
            },
            Awaiting::Saved => match (event, self.current_write()) {
                (Event::Saved, Some(_)) => self.proceed(),
                _ => Effect::Unexpected,
            },
            Awaiting::Choice => match (event, self.current_command()) {
                (Event::Choice(HeavyChoice::Wait), Some((program, args))) => {
                    self.awaiting = Awaiting::Command;
                    Effect::RunCommand { program, args, patient: true }
                },
                (Event::Choice(HeavyChoice::Skip), Some(_)) => self.proceed(),
                _ => Effect::Unexpected,
            },
            Awaiting::Command => match (event, self.current_command()) {
                (Event::CommandEnded(result), Some((program, args))) => self.on_command_end(
                    result,
                    program,
                    args,
                ),
                _ => Effect::Unexpected,
            },
            Awaiting::Remedy => match (event, self.current_command()) {
                (Event::Remedy(plan), Some(_)) => match plan {
                    Some(actions) => {
                        if actions.len() > 0 {
                            self.advance();
                            let ghost before = self.frames.deep_view();
                            self.frames.push(Frame { actions, next: 0, always_allow: false });
                            assert(self.frames.deep_view() =~= before.push(
                                FrameView {
                                    actions: actions.deep_view(),
                                    next: 0,
                                    always_allow: false,
                                },
                            ));
                            self.resume()
                        } else {
                            self.proceed()
                        }
                    },
                    None => self.proceed(),
                },
                _ => Effect::Unexpected,
            },
            Awaiting::Fetched => match (event, self.current_fetches()) {
                (Event::Fetched(Some(content)), true) => {
                    self.awaiting = Awaiting::Cached;
                    let characters = content.as_str().unicode_len();
                    Effect::StoreFetched {
                        file: String::from_str(FETCH_CACHE_FILE),
                        content,
                        characters,
                    }
                },
                (Event::Fetched(None), true) => self.proceed(),
                _ => Effect::Unexpected,
            },
            Awaiting::Cached => match (event, self.current_fetches()) {
                (Event::Stored, true) => self.proceed(),
                _ => Effect::Unexpected,
            },
            Awaiting::Finished => Effect::Unexpected,
        }
    }
}

/// The executor after a sequence of events.
pub open spec fn run(start: ExecutorView, events: Seq<EventView>) -> ExecutorView
    decreases events.len(),
{
    if events.len() == 0 {
        start
    } else {
        run(start, events.drop_last()).step(events.last()).0
    }
}

/// The executor keeps to its bound on stacked remedies, and asks for a
/// remedy only where one more fits.
pub open spec fn within_depth(executor: ExecutorView) -> bool {
    &&& executor.frames.len() <= MAX_HEALING_DEPTH + 1
    &&& executor.awaiting == Awaiting::Remedy ==> executor.frames.len() <= MAX_HEALING_DEPTH
}

/// The tag is one that names a kind of action.
pub open spec fn is_known_tag(tag: Option<Seq<char>>) -> bool {
    match tag {
        Some(tag) => tag == "create_file"@ || tag == "run_cmd"@ || tag == "read_url"@ || tag
            == "read_file"@,
        None => false,
    }
}

/// Settling a stack drops plans from its top and moves the position of
/// the plan that is then innermost; the plans below are as they were, and
/// no plan changes its actions or what the user accepted.
pub proof fn lemma_settle_shape(frames: Seq<FrameView>)
    ensures
        settle(frames).len() <= frames.len(),
        forall|i: int|
            0 <= i < settle(frames).len() ==> (#[trigger] settle(frames)[i]).actions
                == frames[i].actions && settle(frames)[i].always_allow == frames[i].always_allow,
        forall|i: int| 0 <= i < settle(frames).len() - 1 ==> #[trigger] settle(frames)[i] == frames[i],
        settle(frames).len() > 0 ==> pending_in(settle(frames).last()) > 0 && !settle(
            frames,
        ).last().actions[settle(frames).last().next].is_inert(),
    decreases
            frames.len(),
            (if frames.len() > 0 {
                pending_in(frames.last())
            } else {
                0
            }),
{
    if frames.len() == 0 {
    } else if pending_in(frames.last()) == 0 {
        lemma_settle_shape(frames.drop_last());
    } else if frames.last().actions[frames.last().next].is_inert() {
        lemma_settle_shape(advanced(frames));
    } else {
    }
}

/// A plan whose remaining actions all do nothing settles to nothing.
pub proof fn lemma_inert_rest_settles(frame: FrameView)
    requires
        forall|i: int| frame.next <= i < frame.actions.len() ==> frame.actions[i].is_inert(),
    ensures
        settle(seq![frame]).len() == 0,
    decreases pending_in(frame),
{
    let frames = seq![frame];
    assert(frames.last() == frame);
    if pending_in(frame) == 0 {
        assert(frames.drop_last().len() == 0);
        assert(settle(frames.drop_last()).len() == 0);
        assert(settle(frames) == settle(frames.drop_last()));
    } else {
        assert(frame.actions[frame.next].is_inert());
        assert(advanced(frames) =~= seq![moved_on(frame)]);
        lemma_inert_rest_settles(moved_on(frame));
        assert(settle(frames) == settle(advanced(frames)));
    }
}

/// A plan made only of actions that do nothing is done with at its first
/// step: nothing is asked of the workspace, the memory is as it was, and
/// the execution is reported as completed.
pub proof fn lemma_inert_plan_completes(plan: Seq<ActionView>, memory: ProjectMemoryView)
    requires
        forall|i: int| 0 <= i < plan.len() ==> plan[i].is_inert(),
    ensures
        ExecutorView::initial(plan, memory).step(EventView::Start).1 == EffectView::Finished(
            Outcome::Completed,
        ),
        ExecutorView::initial(plan, memory).step(EventView::Start).0.memory == memory,
        ExecutorView::initial(plan, memory).step(EventView::Start).0.frames.len() == 0,
{
    lemma_inert_rest_settles(FrameView { actions: plan, next: 0, always_allow: false });
}

/// An action with a tag that names no kind of action is decoded to an
/// action that does nothing, and a plan of such actions leaves the
/// workspace and the memory as they were and is reported as completed.
pub proof fn lemma_unrecognized_actions_do_nothing(
    wire: Seq<crate::action::WireActionView>,
    memory: ProjectMemoryView,
)
    requires
        forall|i: int| 0 <= i < wire.len() ==> !is_known_tag(wire[i].action),
    ensures
        forall|i: int|
            0 <= i < wire.len() ==> crate::action::decoded(#[trigger] wire[i])
                == ActionView::Ignored,
        ExecutorView::initial(crate::action::decoded_plan(wire), memory).step(
            EventView::Start,
        ).1 == EffectView::Finished(Outcome::Completed),
        ExecutorView::initial(crate::action::decoded_plan(wire), memory).step(
            EventView::Start,
        ).0.memory == memory,
{
    let plan = crate::action::decoded_plan(wire);
    assert forall|i: int| 0 <= i < plan.len() implies plan[i].is_inert() by {
        assert(!is_known_tag(wire[i].action));
    }
    lemma_inert_plan_completes(plan, memory);
}

/// A step never takes back what the user accepted: a plan that is still
/// at work after the step has the actions it had, and if all its changes
/// were accepted before, they still are.
pub proof fn lemma_step_keeps_acceptance(before: ExecutorView, event: EventView, i: int)
    requires
        0 <= i < before.frames.len(),
        i < before.step(event).0.frames.len(),
    ensures
        before.step(event).0.frames[i].actions == before.frames[i].actions,
        before.frames[i].always_allow ==> before.step(event).0.frames[i].always_allow,
{
    lemma_settle_shape(before.frames);
    lemma_settle_shape(advanced(before.frames));
    match event {
        EventView::Remedy(Some(actions)) => {
            lemma_settle_shape(
                advanced(before.frames).push(FrameView { actions, next: 0, always_allow: false }),
            );
        },
        _ => {},
    }
}

/// A step keeps the executor within its bound on stacked remedies.
pub proof fn lemma_step_keeps_depth(before: ExecutorView, event: EventView)
    requires
        within_depth(before),
    ensures
        within_depth(before.step(event).0),
{
    lemma_settle_shape(before.frames);
    lemma_settle_shape(advanced(before.frames));
    match event {
        EventView::Remedy(Some(actions)) => {
            lemma_settle_shape(
                advanced(before.frames).push(FrameView { actions, next: 0, always_allow: false }),
            );
        },
        _ => {},
    }
}

/// Whatever the planning service sends and whatever fails, never more
/// than [`MAX_HEALING_DEPTH`] remedies are stacked on the first plan.
pub proof fn lemma_healing_depth_is_bounded(
    plan: Seq<ActionView>,
    memory: ProjectMemoryView,
    events: Seq<EventView>,
)
    ensures
        within_depth(run(ExecutorView::initial(plan, memory), events)),
    decreases events.len(),
{
    if events.len() > 0 {
        lemma_healing_depth_is_bounded(plan, memory, events.drop_last());
        lemma_step_keeps_depth(
            run(ExecutorView::initial(plan, memory), events.drop_last()),
            events.last(),
        );
    }
}

/// When the user answers `All` to a proposed change, the change is
/// written and all further changes of the plan count as accepted.
pub proof fn lemma_all_is_remembered(before: ExecutorView)
    requires
        before.awaiting == Awaiting::Decision,
        before.current_write() is Some,
    ensures
        before.step(EventView::Decision(ConfirmAction::All)).0.allows_all(),
        before.step(EventView::Decision(ConfirmAction::All)).1 is WriteFile,
        before.step(EventView::Decision(ConfirmAction::All)).0.frames.len()
            == before.frames.len(),
{
}

/// Where all changes of the innermost plan count as accepted, no step
/// puts a change to the user: once it is known what the file of a write
/// holds, or that there is no such file, the write is asked for at once.
pub proof fn lemma_accepted_plan_is_not_confirmed(before: ExecutorView, event: EventView)
    requires
        before.allows_all(),
    ensures
        !(before.step(event).1 is AskConfirmation),
        before.existing_shown(event) is Some ==> before.step(event).1 is WriteFile,
        before.awaiting == Awaiting::Existing ==> (before.current_write() matches Some(write) ==> (
        event is Content ==> before.step(event).1 == (EffectView::WriteFile {
            path: before.target,
            content: write.content,
        }))),
{
}

/// Once the user has accepted all changes of a plan, the plan stays
/// accepted for as long as it is at work: after any sequence of events
/// during which the plan was never left, all its changes still count as
/// accepted, and while it is the innermost plan no step asks the user to
/// confirm a change.
///
/// A remedy that is stacked on the plan is a plan of its own, and is
/// confirmed on its own.
pub proof fn lemma_accept_all_is_sticky(
    start: ExecutorView,
    events: Seq<EventView>,
    next: EventView,
)
    requires
        start.allows_all(),
        forall|k: int|
            0 <= k <= events.len() ==> (#[trigger] run(start, events.take(k))).frames.len()
                >= start.frames.len(),
    ensures
        run(start, events).frames.len() >= start.frames.len(),
        run(start, events).frames[start.frames.len() - 1].always_allow,
        run(start, events).frames.len() == start.frames.len() ==> !(run(start, events).step(
            next,
        ).1 is AskConfirmation),
    decreases events.len(),
{
    let depth = start.frames.len();
    assert(events.take(events.len() as int) =~= events);
    if events.len() > 0 {
        let earlier = events.drop_last();
        assert(events.take(events.len() - 1) =~= earlier);
        assert forall|k: int| 0 <= k <= earlier.len() implies (#[trigger] run(
            start,
            earlier.take(k),
        )).frames.len() >= depth by {
            assert(earlier.take(k) =~= events.take(k));
        }
        lemma_accept_all_is_sticky(start, earlier, events.last());
        lemma_step_keeps_acceptance(run(start, earlier), events.last(), depth - 1);
    } else {
        assert(events.take(0) =~= events);
    }
    if run(start, events).frames.len() == depth {
        lemma_accepted_plan_is_not_confirmed(run(start, events), next);
    }
}

/// A step only ever adds to the cached context of the memory, and leaves
/// the rest of the memory alone.
pub proof fn lemma_step_only_adds_context(before: ExecutorView, event: EventView)
    ensures
        before.memory.project_context.is_prefix_of(
            before.step(event).0.memory.project_context,
        ),
        before.step(event).0.memory == (ProjectMemoryView {
            project_context: before.step(event).0.memory.project_context,
            ..before.memory
        }),
{
}

/// Once the user has answered `All` to a change of a plan, every later
/// write of that plan is written without a question: after that answer
/// and any events during which the plan was never left, no step taken
/// while the plan is the innermost one asks the user to confirm a change.
pub proof fn lemma_all_skips_later_confirmations(
    before: ExecutorView,
    events: Seq<EventView>,
    next: EventView,
)
    requires
        before.awaiting == Awaiting::Decision,
        before.current_write() is Some,
        forall|k: int|
            0 <= k <= events.len() ==> (#[trigger] run(
                before.step(EventView::Decision(ConfirmAction::All)).0,
                events.take(k),
            )).frames.len() >= before.frames.len(),
    ensures
        before.step(EventView::Decision(ConfirmAction::All)).1 is WriteFile,
        run(before.step(EventView::Decision(ConfirmAction::All)).0, events).frames.len()
            == before.frames.len() ==> !(run(
            before.step(EventView::Decision(ConfirmAction::All)).0,
            events,
        ).step(next).1 is AskConfirmation),
{
    lemma_all_is_remembered(before);
    lemma_accept_all_is_sticky(
        before.step(EventView::Decision(ConfirmAction::All)).0,
        events,
        next,
    );
}

/// Whenever a step changes the memory, it asks for the memory to be
/// saved.
pub proof fn lemma_changed_memory_is_saved(before: ExecutorView, event: EventView)
    ensures
        before.step(event).0.memory != before.memory ==> before.step(event).1
            == EffectView::SaveMemory,
{
}

/// No failure of an action ends the execution but one: the execution is
/// given up only when the workspace refuses the directory for a file.
/// And it is reported as completed only when no plan is left.
pub proof fn lemma_only_denied_access_aborts(before: ExecutorView, event: EventView)
    ensures
        before.step(event).1 == EffectView::Finished(Outcome::Aborted) ==> before.awaiting
            == Awaiting::Written && event is AccessDenied,
        before.step(event).1 == EffectView::Finished(Outcome::Completed) ==> before.step(
            event,
        ).0.frames.len() == 0,
{
    lemma_settle_shape(before.frames);
    lemma_settle_shape(advanced(before.frames));
    match event {
        EventView::Remedy(Some(actions)) => {
            lemma_settle_shape(
                advanced(before.frames).push(FrameView { actions, next: 0, always_allow: false }),
            );
        },
        _ => {},
    }
}

/// How many actions of the plan at depth `depth` are still to be looked
/// at; none where no plan is at work at that depth.
pub open spec fn left_at(frames: Seq<FrameView>, depth: int) -> int {
    if 0 <= depth < frames.len() {
        pending_in(frames[depth])
    } else {
        0
    }
}

/// How many more events the action at work can take before it is left
/// behind or the execution ends.
pub open spec fn steps_left(awaiting: Awaiting) -> int {
    match awaiting {
        Awaiting::Start => 7,
        Awaiting::Exists => 6,
        Awaiting::Search => 5,
        Awaiting::Existing => 4,
        Awaiting::Decision => 3,
        Awaiting::Written => 2,
        Awaiting::Saved => 1,
        Awaiting::Choice => 3,
        Awaiting::Command => 2,
        Awaiting::Remedy => 1,
        Awaiting::Fetched => 2,
        Awaiting::Cached => 1,
        Awaiting::Finished => 0,
    }
}

/// Settling a stack adds to the actions left of no plan.
pub proof fn lemma_settle_leaves_less(frames: Seq<FrameView>)
    ensures
        forall|depth: int|
            0 <= #[trigger] left_at(settle(frames), depth) <= left_at(frames, depth),
    decreases
            frames.len(),
            (if frames.len() > 0 {
                pending_in(frames.last())
            } else {
                0
            }),
{
    if frames.len() == 0 {
    } else if pending_in(frames.last()) == 0 {
        lemma_settle_leaves_less(frames.drop_last());
        assert forall|depth: int| 0 <= #[trigger] left_at(settle(frames), depth) <= left_at(
            frames,
            depth,
        ) by {
            assert(left_at(settle(frames.drop_last()), depth) <= left_at(
                frames.drop_last(),
                depth,
            ));
        }
    } else if frames.last().actions[frames.last().next].is_inert() {
        lemma_settle_leaves_less(advanced(frames));
        assert forall|depth: int| 0 <= #[trigger] left_at(settle(frames), depth) <= left_at(
            frames,
            depth,
        ) by {
            assert(left_at(settle(advanced(frames)), depth) <= left_at(advanced(frames), depth));
        }
    } else {
    }
}

/// Every step that the executor takes brings the execution nearer to
/// its end, whatever the planning service sends and whatever fails.
///
/// The measure is the number of actions left in the first plan, then in
/// the remedy on it, and so on down the stack, and last the number of
/// events that the action at work can still take. Each event that is
/// not refused as unexpected makes this measure smaller, in the order of
/// the dictionary. A remedy, however long, is stacked on a plan that has
/// just left an action behind, and no more than [`MAX_HEALING_DEPTH`]
/// remedies are stacked. So no execution goes on without end.
pub proof fn lemma_step_makes_progress(before: ExecutorView, event: EventView)
    requires
        within_depth(before),
    ensures
        within_depth(before.step(event).0),
        !(before.step(event).1 is Unexpected) ==> decreases_to!(
            left_at(before.frames, 0),
            left_at(before.frames, 1),
            left_at(before.frames, 2),
            left_at(before.frames, 3),
            steps_left(before.awaiting) =>
            left_at(before.step(event).0.frames, 0),
            left_at(before.step(event).0.frames, 1),
            left_at(before.step(event).0.frames, 2),
            left_at(before.step(event).0.frames, 3),
            steps_left(before.step(event).0.awaiting)
        ),
{
    lemma_step_keeps_depth(before, event);
    let after = before.step(event).0;
    let moved = advanced(before.frames);
    lemma_settle_leaves_less(before.frames);
    lemma_settle_leaves_less(moved);
    assert(left_at(settle(before.frames), 0) <= left_at(before.frames, 0));
    assert(left_at(settle(before.frames), 1) <= left_at(before.frames, 1));
    assert(left_at(settle(before.frames), 2) <= left_at(before.frames, 2));
    assert(left_at(settle(before.frames), 3) <= left_at(before.frames, 3));
    assert(left_at(settle(moved), 0) <= left_at(moved, 0));
    assert(left_at(settle(moved), 1) <= left_at(moved, 1));
    assert(left_at(settle(moved), 2) <= left_at(moved, 2));
    assert(left_at(settle(moved), 3) <= left_at(moved, 3));
    match event {
        EventView::Remedy(Some(actions)) => {
            let stacked = moved.push(FrameView { actions, next: 0, always_allow: false });
            lemma_settle_leaves_less(stacked);
            assert(left_at(settle(stacked), 0) <= left_at(stacked, 0));
            assert(left_at(settle(stacked), 1) <= left_at(stacked, 1));
            assert(left_at(settle(stacked), 2) <= left_at(stacked, 2));
            assert(left_at(settle(stacked), 3) <= left_at(stacked, 3));
        },
        _ => {},
    }
}

} // verus!
