//! Actions and plans: what the planning service asks the agent to do.
//!
//! The service answers in a loose shape, in which any field may be missing.
//! That shape is [`WireAction`]. Before anything is executed it is decoded
//! into the closed [`Action`]; what cannot be decoded becomes
//! [`Action::Ignored`], which does nothing when executed.

use vstd::prelude::*;
use vstd::string::*;
use crate::text::{text_eq, trim_text, trimmed};

verus! {

/// One unit of work of a plan.
#[derive(Debug, Clone, PartialEq, Eq)]
pub enum Action {
    /// Write `content` to the file `path`, after confirmation.
    CreateOrUpdateFile { path: String, content: String, reason: String },
    /// Run `program` with `args`.
    RunCommand { program: String, args: Vec<String> },
    /// Fetch the content behind `url`.
    FetchUrl { url: String },
    /// Read the file `path` into the context of the conversation. The
    /// executor passes over it.
    ReadFile { path: String },
    /// An action of an unknown kind, or one that lacks what its kind needs.
    Ignored,
}

/// The mathematical value of an [`Action`].
pub enum ActionView {
    CreateOrUpdateFile { path: Seq<char>, content: Seq<char>, reason: Seq<char> },
    RunCommand { program: Seq<char>, args: Seq<Seq<char>> },
    FetchUrl { url: Seq<char> },
    ReadFile { path: Seq<char> },
    Ignored,
}

impl View for Action {
    type V = ActionView;

    open spec fn view(&self) -> ActionView {
        match self {
            Action::CreateOrUpdateFile { path, content, reason } => ActionView::CreateOrUpdateFile {
                path: path@,
                content: content@,
                reason: reason@,
            },
            Action::RunCommand { program, args } => ActionView::RunCommand {
                program: program@,
                args: args.deep_view(),
            },
            Action::FetchUrl { url } => ActionView::FetchUrl { url: url@ },
            Action::ReadFile { path } => ActionView::ReadFile { path: path@ },
            Action::Ignored => ActionView::Ignored,
        }
    }
}

impl DeepView for Action {
    type V = ActionView;

    open spec fn deep_view(&self) -> ActionView {
        self.view()
    }
}

impl ActionView {
    /// Whether executing the action does nothing at all.
    pub open spec fn is_inert(self) -> bool {
        self is Ignored || self is ReadFile
    }
}

/// An action as the planning service sends it: a tag and the fields that the
/// tag may need, each of which may be missing. An element of `args` that is
/// no text is `None`.
#[derive(Debug, Clone, PartialEq, Eq)]
pub struct WireAction {
    pub action: Option<String>,
    pub path: Option<String>,
    pub content: Option<String>,
    pub reason: Option<String>,
    pub program: Option<String>,
    pub args: Option<Vec<Option<String>>>,
    pub url: Option<String>,
}

/// The mathematical value of a [`WireAction`].
pub struct WireActionView {
    pub action: Option<Seq<char>>,
    pub path: Option<Seq<char>>,
    pub content: Option<Seq<char>>,
    pub reason: Option<Seq<char>>,
    pub program: Option<Seq<char>>,
    pub args: Option<Seq<Option<Seq<char>>>>,
    pub url: Option<Seq<char>>,
}

impl View for WireAction {
    type V = WireActionView;

    open spec fn view(&self) -> WireActionView {
        WireActionView {
            action: self.action.deep_view(),
            path: self.path.deep_view(),
            content: self.content.deep_view(),
            reason: self.reason.deep_view(),
            program: self.program.deep_view(),
            args: self.args.deep_view(),
            url: self.url.deep_view(),
        }
    }
}

impl DeepView for WireAction {
    type V = WireActionView;

    open spec fn deep_view(&self) -> WireActionView {
        self.view()
    }
}

/// The arguments that are text, in their order.
pub open spec fn text_args(args: Seq<Option<Seq<char>>>) -> Seq<Seq<char>>
    decreases args.len(),
{
    if args.len() == 0 {
        Seq::empty()
    } else {
        match args.last() {
            Some(arg) => text_args(args.drop_last()).push(arg),
            None => text_args(args.drop_last()),
        }
    }
}

/// The text of an optional field, or `fallback` where the field is missing.
pub open spec fn field_or(field: Option<Seq<char>>, fallback: Seq<char>) -> Seq<char> {
    match field {
        Some(text) => text,
        None => fallback,
    }
}

/// The action that a wire action stands for.
///
/// The tag decides the kind. A kind whose key field is missing (the path of
/// a file, the program of a command, the address to fetch) gives
/// [`ActionView::Ignored`], and so does an unknown or missing tag.
pub open spec fn decoded(wire: WireActionView) -> ActionView {
    match wire.action {
        None => ActionView::Ignored,
        Some(tag) => {
            if tag == "create_file"@ {
                match wire.path {
                    Some(path) => ActionView::CreateOrUpdateFile {
                        path,
                        content: field_or(wire.content, ""@),
                        reason: field_or(wire.reason, "No reason provided."@),
                    },
                    None => ActionView::Ignored,
                }
            } else if tag == "run_cmd"@ {
                match wire.program {
                    Some(program) => ActionView::RunCommand {
                        program,
                        args: match wire.args {
                            Some(args) => text_args(args),
                            None => Seq::empty(),
                        },
                    },
                    None => ActionView::Ignored,
                }
            } else if tag == "read_url"@ {
                match wire.url {
                    Some(url) => ActionView::FetchUrl { url },
                    None => ActionView::Ignored,
                }
            } else if tag == "read_file"@ {
                match wire.path {
                    Some(path) => ActionView::ReadFile { path },
                    None => ActionView::Ignored,
                }
            } else {
                ActionView::Ignored
            }
        },
    }
}

/// The plan that a list of wire actions stands for: each one decoded, in
/// the same order.
pub open spec fn decoded_plan(wire: Seq<WireActionView>) -> Seq<ActionView> {
    Seq::new(wire.len(), |i: int| decoded(wire[i]))
}

/// The field's text, or `fallback` where the field is missing.
fn text_or(field: Option<String>, fallback: &str) -> (out: String)
    ensures
        out@ == field_or(field.deep_view(), fallback@),
{
    match field {
        Some(text) => text,
        None => String::from_str(fallback),
    }
}

/// Keeps the arguments that are text.
fn keep_text_args(args: Vec<Option<String>>) -> (out: Vec<String>)
    ensures
        out.deep_view() == text_args(args.deep_view()),
{
    let ghost all = args.deep_view();
    let mut args = args;
    let mut out: Vec<String> = Vec::new();
    let n = args.len();
    let mut i: usize = 0;
    assert(all.take(0) =~= Seq::empty());
    assert(out.deep_view() =~= Seq::<Seq<char>>::empty());
    while i < n
        invariant
            i <= n,
            n == args.len(),
            all.len() == n,
            forall|k: int| i <= k < n ==> args.deep_view()[k] == all[k],
            out.deep_view() == text_args(all.take(i as int)),
        decreases n - i,
    {
        let ghost before = out.deep_view();
        let ghost rest = args.deep_view();
        let mut slot: Option<String> = None;
        std::mem::swap(&mut slot, &mut args[i]);
        proof {
            assert(slot.deep_view() == all[i as int]) by {
                assert(rest[i as int] == all[i as int]);
            }
            assert(all.take(i + 1).drop_last() =~= all.take(i as int));
            assert(all.take(i + 1).last() == all[i as int]);
            assert forall|k: int| i + 1 <= k < n implies args.deep_view()[k] == all[k] by {
                assert(rest[k] == all[k]);
            }
        }
        match slot {
            Some(arg) => {
                out.push(arg);
                assert(out.deep_view() =~= before.push(arg@));
            },
            None => {},
        }
        i += 1;
    }
    assert(all.take(n as int) =~= all);
    out
}

impl Action {
    /// Decodes one action of the planning service.
    pub fn decode(wire: WireAction) -> (action: Action)
        ensures
            action@ == decoded(wire@),
    {
        let WireAction { action, path, content, reason, program, args, url } = wire;
        let tag = match action {
            Some(tag) => tag,
            None => {
                return Action::Ignored;
            },
        };
        if text_eq(tag.as_str(), "create_file") {
            match path {
                Some(path) => Action::CreateOrUpdateFile {
                    path,
                    content: text_or(content, ""),
                    reason: text_or(reason, "No reason provided."),
                },
                None => Action::Ignored,
            }
        } else if text_eq(tag.as_str(), "run_cmd") {
            match program {
                Some(program) => {
                    let args = match args {
                        Some(args) => keep_text_args(args),
                        None => {
                            let none: Vec<String> = Vec::new();
                            assert(none.deep_view() =~= Seq::<Seq<char>>::empty());
                            none
                        },
                    };
                    Action::RunCommand { program, args }
                },
                None => Action::Ignored,
            }
        } else if text_eq(tag.as_str(), "read_url") {
            match url {
                Some(url) => Action::FetchUrl { url },
                None => Action::Ignored,
            }
        } else if text_eq(tag.as_str(), "read_file") {
            match path {
                Some(path) => Action::ReadFile { path },
                None => Action::Ignored,
            }
        } else {
            Action::Ignored
        }
    }

    /// Whether executing the action does nothing at all.
    pub fn is_inert(&self) -> (inert: bool)
        ensures
            inert == self@.is_inert(),
    {
        match self {
            Action::Ignored => true,
            Action::ReadFile { .. } => true,
            _ => false,
        }
    }
}

/// Decodes a plan of the planning service, action by action.
pub fn decode_plan(wire: Vec<WireAction>) -> (plan: Vec<Action>)
    ensures
        plan.deep_view() == decoded_plan(wire.deep_view()),
{
    let ghost all = wire.deep_view();
    let mut wire = wire;
    let mut plan: Vec<Action> = Vec::new();
    let n = wire.len();
    let mut i: usize = 0;
    while i < n
        invariant
            i <= n,
            n == wire.len(),
            all.len() == n,
            forall|k: int| i <= k < n ==> wire.deep_view()[k] == all[k],
            plan.len() == i,
            forall|k: int| 0 <= k < i ==> plan.deep_view()[k] == decoded(all[k]),
        decreases n - i,
    {
        let ghost before = plan.deep_view();
        let ghost rest = wire.deep_view();
        let mut slot = WireAction {
            action: None,
            path: None,
            content: None,
            reason: None,
            program: None,
            args: None,
            url: None,
        };
        std::mem::swap(&mut slot, &mut wire[i]);
        proof {
            assert(slot@ == all[i as int]) by {
                assert(rest[i as int] == all[i as int]);
            }
            assert forall|k: int| i + 1 <= k < n implies wire.deep_view()[k] == all[k] by {
                assert(rest[k] == all[k]);
            }
        }
        let action = Action::decode(slot);
        plan.push(action);
        proof {
            assert forall|k: int| 0 <= k < i + 1 implies plan.deep_view()[k] == decoded(
                all[k],
            ) by {
                if k < i {
                    assert(plan.deep_view()[k] == before[k]);
                }
            }
        }
        i += 1;
    }
    assert(plan.deep_view() =~= decoded_plan(all));
    plan
}

/// One answer of the planning service.
#[derive(Debug, Clone, PartialEq, Eq)]
pub struct PlanningResponse {
    /// What the service says to the user, if anything.
    pub message: Option<String>,
    /// The actions to carry out, in order.
    pub plan: Vec<Action>,
    /// The command that creates a new project, if one is to be created.
    pub init_command: Option<String>,
    pub suggested_name: Option<String>,
    pub project_type: Option<String>,
}

/// The mathematical value of a [`PlanningResponse`].
pub struct PlanningResponseView {
    pub message: Option<Seq<char>>,
    pub plan: Seq<ActionView>,
    pub init_command: Option<Seq<char>>,
    pub suggested_name: Option<Seq<char>>,
    pub project_type: Option<Seq<char>>,
}

impl View for PlanningResponse {
    type V = PlanningResponseView;

    open spec fn view(&self) -> PlanningResponseView {
        PlanningResponseView {
            message: self.message.deep_view(),
            plan: self.plan.deep_view(),
            init_command: self.init_command.deep_view(),
            suggested_name: self.suggested_name.deep_view(),
            project_type: self.project_type.deep_view(),
        }
    }
}

impl DeepView for PlanningResponse {
    type V = PlanningResponseView;

    open spec fn deep_view(&self) -> PlanningResponseView {
        self.view()
    }
}

impl PlanningResponseView {
    /// The response carries a message that is more than white space.
    pub open spec fn has_message(self) -> bool {
        match self.message {
            Some(message) => trimmed(message).len() > 0,
            None => false,
        }
    }

    /// The response names a command that creates a project.
    pub open spec fn has_init_command(self) -> bool {
        match self.init_command {
            Some(command) => command.len() > 0,
            None => false,
        }
    }

    /// A pure chat turn: a message, no plan and no project to create.
    pub open spec fn is_chat(self) -> bool {
        self.has_message() && self.plan.len() == 0 && !self.has_init_command()
    }
}

impl PlanningResponse {
    /// Whether the response carries a message that is more than white space.
    pub fn has_message(&self) -> (yes: bool)
        ensures
            yes == self@.has_message(),
    {
        match &self.message {
            Some(message) => !trim_text(message.as_str()).as_str().is_empty(),
            None => false,
        }
    }

    /// Whether the response names a command that creates a project.
    pub fn has_init_command(&self) -> (yes: bool)
        ensures
            yes == self@.has_init_command(),
    {
        match &self.init_command {
            Some(command) => !command.as_str().is_empty(),
            None => false,
        }
    }

    /// Whether the response is a pure chat turn: a message to answer, with
    /// nothing to execute and no project to create.
    pub fn is_chat(&self) -> (yes: bool)
        ensures
            yes == self@.is_chat(),
    {
        self.has_message() && self.plan.len() == 0 && !self.has_init_command()
    }
}

} // verus!
