//! Rules on running commands: which programs are heavy, what to keep of a
//! command's output, and how to ask for a remedy when a command fails.

use vstd::prelude::*;
use vstd::string::*;
use crate::text::{text_eq, trim_text, trimmed};

verus! {

/// A program and its arguments.
#[derive(Debug, Clone, PartialEq, Eq)]
pub struct CommandLine {
    pub program: String,
    pub args: Vec<String>,
}

/// The mathematical value of a [`CommandLine`].
pub struct CommandLineView {
    pub program: Seq<char>,
    pub args: Seq<Seq<char>>,
}

impl View for CommandLine {
    type V = CommandLineView;

    open spec fn view(&self) -> CommandLineView {
        CommandLineView { program: self.program@, args: self.args.deep_view() }
    }
}

impl DeepView for CommandLine {
    type V = CommandLineView;

    open spec fn deep_view(&self) -> CommandLineView {
        self.view()
    }
}

/// The programs that may run for long: package managers, version control
/// and container tools. Before one of them is run, the user chooses
/// between waiting for it and running it by hand later.
pub open spec fn is_heavy_name(program: Seq<char>) -> bool {
    ||| program == "npx"@
    ||| program == "npm"@
    ||| program == "cargo"@
    ||| program == "pnpm"@
    ||| program == "yarn"@
    ||| program == "docker"@
    ||| program == "git"@
}

/// Whether `program` is one of the heavy programs.
pub fn is_heavy_command(program: &str) -> (heavy: bool)
    ensures
        heavy == is_heavy_name(program@),
{
    text_eq(program, "npx") || text_eq(program, "npm") || text_eq(program, "cargo") || text_eq(
        program,
        "pnpm",
    ) || text_eq(program, "yarn") || text_eq(program, "docker") || text_eq(program, "git")
}

/// How `std` writes a string with `{:?}`: in double quotes, with its
/// special characters escaped.
pub uninterp spec fn debug_text_of(text: Seq<char>) -> Seq<char>;

/// Formats a string with `{:?}` (`std`'s `Debug` for `str`). The result
/// is named, not described: see [`debug_text_of`].
#[verifier::external_body]
pub(crate) fn debug_text(text: &str) -> (out: String)
    ensures
        out@ == debug_text_of(text@),
{
    format!("{:?}", text)
}

/// The strings as `{:?}` writes them, with a comma and a space between
/// one and the next.
pub open spec fn debug_items(items: Seq<Seq<char>>) -> Seq<char>
    decreases items.len(),
{
    if items.len() == 0 {
        Seq::empty()
    } else if items.len() == 1 {
        debug_text_of(items.last())
    } else {
        debug_items(items.drop_last()) + ", "@ + debug_text_of(items.last())
    }
}

/// A list of strings as `{:?}` writes it: its strings in square brackets.
pub open spec fn debug_rendering(items: Seq<Seq<char>>) -> Seq<char> {
    "["@ + debug_items(items) + "]"@
}

/// A list of strings as `{:?}` writes it.
pub fn debug_list(items: &Vec<String>) -> (out: String)
    ensures
        out@ == debug_rendering(items.deep_view()),
{
    let ghost all = items.deep_view();
    let mut out = String::from_str("[");
    let mut i: usize = 0;
    assert(all.take(0) =~= Seq::empty());
    assert("["@ + Seq::<char>::empty() =~= "["@);
    while i < items.len()
        invariant
            i <= items.len(),
            all == items.deep_view(),
            out@ == "["@ + debug_items(all.take(i as int)),
        decreases items.len() - i,
    {
        let ghost before = debug_items(all.take(i as int));
        proof {
            assert(all.take(i + 1).drop_last() =~= all.take(i as int));
            assert(all.take(i + 1).last() == items[i as int]@);
        }
        if i > 0 {
            out.append(", ");
        }
        out.append(debug_text(items[i].as_str()).as_str());
        proof {
            if i > 0 {
                assert(out@ =~= "["@ + (before + ", "@ + debug_text_of(items[i as int]@)));
            } else {
                assert(before =~= Seq::<char>::empty());
                assert(out@ =~= "["@ + debug_text_of(items[i as int]@));
            }
        }
        i += 1;
    }
    assert(all.take(items.len() as int) =~= all);
    out.append("]");
    out
}

/// The request for a remedy after `program` failed with `error`.
pub open spec fn remedy_prompt_of(
    program: Seq<char>,
    args: Seq<Seq<char>>,
    error: Seq<char>,
) -> Seq<char> {
    "The command '"@ + program + " "@ + debug_rendering(args)
        + "' failed with this error:\n\n"@ + error
        + "\n\nAnalyze the error. Provide a JSON plan to fix it immediately."@
}

/// The request to send to the planning service after `program`, run with
/// `args`, failed with `error`.
pub fn remedy_prompt(program: &str, args: &Vec<String>, error: &str) -> (prompt: String)
    ensures
        prompt@ == remedy_prompt_of(program@, args.deep_view(), error@),
{
    let listed = debug_list(args);
    let mut prompt = String::from_str("The command '");
    prompt.append(program);
    prompt.append(" ");
    prompt.append(listed.as_str());
    prompt.append("' failed with this error:\n\n");
    prompt.append(error);
    prompt.append("\n\nAnalyze the error. Provide a JSON plan to fix it immediately.");
    prompt
}

/// What to keep of a command that was run for its output: what it wrote to
/// its standard output, or, where that is blank and the error stream is
/// not empty, what it wrote there.
pub open spec fn captured_output_of(stdout: Seq<char>, stderr: Seq<char>) -> Seq<char> {
    if trimmed(stdout).len() == 0 && stderr.len() > 0 {
        stderr
    } else {
        stdout
    }
}

/// What to keep of the two streams of a command that was run for its
/// output.
pub fn captured_output(stdout: String, stderr: String) -> (kept: String)
    ensures
        kept@ == captured_output_of(stdout@, stderr@),
{
    if trim_text(stdout.as_str()).as_str().is_empty() && !stderr.as_str().is_empty() {
        stderr
    } else {
        stdout
    }
}

/// What the user chooses before a heavy command is run.
#[derive(Debug, Clone, Copy, PartialEq, Eq)]
pub enum HeavyChoice {
    /// Run the command and wait for it.
    Wait,
    /// Do not run it; the user runs it by hand later.
    Skip,
}

/// How a command ended.
#[derive(Debug, Clone, PartialEq, Eq)]
pub enum CommandResult {
    /// The command ran and reported success.
    Succeeded,
    /// The command ran and reported failure; `stderr` is what it wrote
    /// to its error stream.
    Failed { stderr: String },
    /// The command could not be started.
    NotStarted,
}

/// The mathematical value of a [`CommandResult`].
pub enum CommandResultView {
    Succeeded,
    Failed { stderr: Seq<char> },
    NotStarted,
}

impl View for CommandResult {
    type V = CommandResultView;

    open spec fn view(&self) -> CommandResultView {
        match self {
            CommandResult::Succeeded => CommandResultView::Succeeded,
            CommandResult::Failed { stderr } => CommandResultView::Failed { stderr: stderr@ },
            CommandResult::NotStarted => CommandResultView::NotStarted,
        }
    }
}

/// What is reported of a command that did not succeed: of a light
/// command what it wrote to its error stream, of a heavy one, whose
/// output was shown already, a fixed sentence. A command that succeeded
/// has nothing to report.
pub open spec fn failure_text_of(heavy: bool, result: CommandResultView) -> Seq<char> {
    match result {
        CommandResultView::Succeeded => Seq::empty(),
        CommandResultView::Failed { stderr } => if heavy {
            "External command failed"@
        } else {
            stderr
        },
        CommandResultView::NotStarted => if heavy {
            "Failed to spawn process"@
        } else {
            "Failed to execute command"@
        },
    }
}

/// What is reported of a command that did not succeed.
pub fn failure_text(heavy: bool, result: CommandResult) -> (text: String)
    ensures
        text@ == failure_text_of(heavy, result@),
{
    match result {
        CommandResult::Succeeded => String::new(),
        CommandResult::Failed { stderr } => {
            if heavy {
                String::from_str("External command failed")
            } else {
                stderr
            }
        },
        CommandResult::NotStarted => {
            if heavy {
                String::from_str("Failed to spawn process")
            } else {
                String::from_str("Failed to execute command")
            }
        },
    }
}

} // verus!
