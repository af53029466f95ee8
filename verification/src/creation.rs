//! Rules on creating a project from an answer of the planning service:
//! how the project is called, how it is initialised, and which of the
//! planned actions are applied inside it.

use vstd::prelude::*;
use vstd::string::*;
use crate::action::{Action, ActionView, PlanningResponse, PlanningResponseView};
use crate::command::{CommandLine, CommandLineView};
use crate::text::{
    chars_of, contains_chars, contains_seq, is_space, is_white_space, push_char, text_eq,
};

verus! {

/// The name of a project for which the service suggested none.
pub const DEFAULT_PROJECT_NAME: &'static str = "neurust_project";

/// The type of a project for which the service named none.
pub const DEFAULT_PROJECT_TYPE: &'static str = "rust";

/// The words of a text: its stretches of characters that are no white
/// space, in order. A character that is no white space goes on with the
/// word before it where it follows such a character, and starts a word
/// where it does not.
pub open spec fn words_of(text: Seq<char>) -> Seq<Seq<char>>
    decreases text.len(),
{
    if text.len() == 0 {
        Seq::empty()
    } else if is_white_space(text.last()) {
        words_of(text.drop_last())
    } else if ends_in_word(text.drop_last()) {
        words_of(text.drop_last()).drop_last().push(
            words_of(text.drop_last()).last().push(text.last()),
        )
    } else {
        words_of(text.drop_last()).push(seq![text.last()])
    }
}

/// The text ends with a character that is no white space.
pub open spec fn ends_in_word(text: Seq<char>) -> bool {
    text.len() > 0 && !is_white_space(text.last())
}

/// The words of a text.
pub fn split_words(text: &str) -> (words: Vec<String>)
    ensures
        words.deep_view() == words_of(text@),
{
    let chars = chars_of(text);
    let mut words: Vec<String> = Vec::new();
    let mut word = String::new();
    let mut in_word = false;
    let mut i: usize = 0;
    assert(chars@.take(0) =~= Seq::empty());
    assert(words.deep_view() =~= Seq::<Seq<char>>::empty());
    while i < chars.len()
        invariant
            i <= chars.len(),
            chars@ == text@,
            in_word == ends_in_word(chars@.take(i as int)),
            in_word ==> words_of(chars@.take(i as int)) == words.deep_view().push(word@),
            !in_word ==> words_of(chars@.take(i as int)) == words.deep_view() && word@.len() == 0,
        decreases chars.len() - i,
    {
        let c = chars[i];
        let ghost before = words.deep_view();
        proof {
            assert(chars@.take(i + 1).drop_last() =~= chars@.take(i as int));
            assert(chars@.take(i + 1).last() == c);
        }
        if is_space(c) {
            if in_word {
                words.push(word);
                assert(words.deep_view() =~= before.push(word@));
                word = String::new();
                in_word = false;
            }
        } else {
            if in_word {
                assert(before.push(word@).drop_last() =~= before);
            }
            push_char(&mut word, c);
            assert(!in_word ==> word@ =~= seq![c]);
            in_word = true;
        }
        i += 1;
    }
    assert(chars@.take(chars.len() as int) =~= chars@);
    if in_word {
        let ghost before = words.deep_view();
        words.push(word);
        assert(words.deep_view() =~= before.push(word@));
    }
    words
}

/// One step of setting a new project up.
#[derive(Debug, Clone, PartialEq, Eq)]
pub enum CreationTask {
    /// Write `content` to `path`, which is `relative` inside the project.
    WriteFile { path: String, relative: String, content: String },
    /// Run the command inside the project.
    RunCommand { program: String, args: Vec<String> },
}

/// The mathematical value of a [`CreationTask`].
pub enum CreationTaskView {
    WriteFile { path: Seq<char>, relative: Seq<char>, content: Seq<char> },
    RunCommand { program: Seq<char>, args: Seq<Seq<char>> },
}

impl View for CreationTask {
    type V = CreationTaskView;

    open spec fn view(&self) -> CreationTaskView {
        match self {
            CreationTask::WriteFile { path, relative, content } => CreationTaskView::WriteFile {
                path: path@,
                relative: relative@,
                content: content@,
            },
            CreationTask::RunCommand { program, args } => CreationTaskView::RunCommand {
                program: program@,
                args: args.deep_view(),
            },
        }
    }
}

impl DeepView for CreationTask {
    type V = CreationTaskView;

    open spec fn deep_view(&self) -> CreationTaskView {
        self.view()
    }
}

/// The name of the project: the suggested one, or the default.
pub open spec fn project_name_of(response: PlanningResponseView) -> Seq<char> {
    match response.suggested_name {
        Some(name) => name,
        None => DEFAULT_PROJECT_NAME@,
    }
}

/// The type of the project: the named one, or the default.
pub open spec fn project_type_of(response: PlanningResponseView) -> Seq<char> {
    match response.project_type {
        Some(kind) => kind,
        None => DEFAULT_PROJECT_TYPE@,
    }
}

/// The command that initialises the project: the first word of the
/// response's command is the program, the other words are its arguments.
/// A command without a word is no command.
pub open spec fn init_command_of(response: PlanningResponseView) -> Option<CommandLineView> {
    match response.init_command {
        Some(command) => if words_of(command).len() > 0 {
            Some(
                CommandLineView {
                    program: words_of(command).first(),
                    args: words_of(command).drop_first(),
                },
            )
        } else {
            None
        },
        None => None,
    }
}

/// Whether a planned file is left out of a project of the given type: a
/// frontend gets no `Cargo.toml` and no `main.rs`, an anchor project no
/// `src/main.rs`.
pub open spec fn is_left_out(project_type: Seq<char>, relative: Seq<char>) -> bool {
    ||| (project_type == "frontend"@ && (contains_seq(relative, "Cargo.toml"@) || contains_seq(
        relative,
        "main.rs"@,
    )))
    ||| (project_type == "anchor"@ && contains_seq(relative, "src/main.rs"@))
}

/// The program that is run for a planned one: `npm` stands in for `yarn`.
pub open spec fn safe_program_of(program: Seq<char>) -> Seq<char> {
    if program == "yarn"@ {
        "npm"@
    } else {
        program
    }
}

/// The tasks that one planned action comes to inside the project: one
/// task, or none.
pub open spec fn tasks_of_action(
    project_path: Seq<char>,
    project_type: Seq<char>,
    action: ActionView,
) -> Seq<CreationTaskView> {
    match action {
        ActionView::CreateOrUpdateFile { path, content, .. } => if is_left_out(
            project_type,
            path,
        ) {
            Seq::empty()
        } else {
            seq![
                CreationTaskView::WriteFile {
                    path: project_path + "/"@ + path,
                    relative: path,
                    content,
                },
            ]
        },
        ActionView::RunCommand { program, args } => seq![
            CreationTaskView::RunCommand { program: safe_program_of(program), args },
        ],
        _ => Seq::empty(),
    }
}

/// The tasks that a plan comes to inside the project, in the order of
/// the plan.
pub open spec fn tasks_of_plan(
    project_path: Seq<char>,
    project_type: Seq<char>,
    plan: Seq<ActionView>,
) -> Seq<CreationTaskView>
    decreases plan.len(),
{
    if plan.len() == 0 {
        Seq::empty()
    } else {
        tasks_of_plan(project_path, project_type, plan.drop_last()) + tasks_of_action(
            project_path,
            project_type,
            plan.last(),
        )
    }
}

/// The name of the project to create.
pub fn project_name(response: &PlanningResponse) -> (name: String)
    ensures
        name@ == project_name_of(response@),
{
    match &response.suggested_name {
        Some(name) => name.clone(),
        None => String::from_str(DEFAULT_PROJECT_NAME),
    }
}

/// The type of the project to create.
pub fn project_type(response: &PlanningResponse) -> (kind: String)
    ensures
        kind@ == project_type_of(response@),
{
    match &response.project_type {
        Some(kind) => kind.clone(),
        None => String::from_str(DEFAULT_PROJECT_TYPE),
    }
}

/// Makes a command line of the words of a command, if it has any.
pub fn command_of_words(words: Vec<String>) -> (line: Option<CommandLine>)
    ensures
        line.deep_view() == if words.deep_view().len() > 0 {
            Some(
                CommandLineView {
                    program: words.deep_view().first(),
                    args: words.deep_view().drop_first(),
                },
            )
        } else {
            None
        },
{
    let ghost all = words.deep_view();
    let mut words = words;
    if words.len() == 0 {
        return None;
    }
    let program = words.remove(0);
    assert(program@ == all.first());
    assert(words.deep_view() =~= all.drop_first());
    Some(CommandLine { program, args: words })
}

/// The command that initialises the project, if the response names one.
pub fn init_command(response: &PlanningResponse) -> (line: Option<CommandLine>)
    ensures
        line.deep_view() == init_command_of(response@),
{
    match &response.init_command {
        Some(command) => command_of_words(split_words(command.as_str())),
        None => None,
    }
}

/// Whether a planned file is left out of a project of the given type.
pub fn leaves_out(project_type: &str, relative: &str) -> (out: bool)
    ensures
        out == is_left_out(project_type@, relative@),
{
    let path = chars_of(relative);
    if text_eq(project_type, "frontend") {
        if contains_chars(&path, &chars_of("Cargo.toml")) || contains_chars(
            &path,
            &chars_of("main.rs"),
        ) {
            return true;
        }
    }
    text_eq(project_type, "anchor") && contains_chars(&path, &chars_of("src/main.rs"))
}

/// The program that is run for a planned one.
pub fn safe_program(program: &str) -> (safe: String)
    ensures
        safe@ == safe_program_of(program@),
{
    if text_eq(program, "yarn") {
        String::from_str("npm")
    } else {
        String::from_str(program)
    }
}

/// A copy of a list of strings.
fn copy_of(items: &Vec<String>) -> (copy: Vec<String>)
    ensures
        copy.deep_view() == items.deep_view(),
{
    let mut copy: Vec<String> = Vec::new();
    let mut i: usize = 0;
    while i < items.len()
        invariant
            i <= items.len(),
            copy.len() == i,
            forall|k: int| 0 <= k < i ==> copy.deep_view()[k] == items.deep_view()[k],
        decreases items.len() - i,
    {
        let ghost before = copy.deep_view();
        copy.push(items[i].clone());
        assert forall|k: int| 0 <= k < i + 1 implies copy.deep_view()[k] == items.deep_view()[k] by {
            if k < i {
                assert(copy.deep_view()[k] == before[k]);
            }
        }
        i += 1;
    }
    assert(copy.deep_view() =~= items.deep_view());
    copy
}

/// The tasks that a plan comes to inside the project at `project_path`:
/// its files, but for those left out of a project of this type, and its
/// commands, in the order of the plan.
pub fn creation_tasks(project_path: &str, project_type: &str, plan: &Vec<Action>) -> (tasks: Vec<
    CreationTask,
>)
    ensures
        tasks.deep_view() == tasks_of_plan(project_path@, project_type@, plan.deep_view()),
{
    let ghost all = plan.deep_view();
    let mut tasks: Vec<CreationTask> = Vec::new();
    let mut i: usize = 0;
    assert(all.take(0) =~= Seq::empty());
    assert(tasks.deep_view() =~= Seq::<CreationTaskView>::empty());
    while i < plan.len()
        invariant
            i <= plan.len(),
            all == plan.deep_view(),
            tasks.deep_view() == tasks_of_plan(project_path@, project_type@, all.take(i as int)),
        decreases plan.len() - i,
    {
        let ghost before = tasks.deep_view();
        proof {
            assert(all.take(i + 1).drop_last() =~= all.take(i as int));
            assert(all.take(i + 1).last() == plan[i as int]@);
        }
        match &plan[i] {
            Action::CreateOrUpdateFile { path, content, .. } => {
                if !leaves_out(project_type, path.as_str()) {
                    let mut full = String::from_str(project_path);
                    full.append("/");
                    full.append(path.as_str());
                    let task = CreationTask::WriteFile {
                        path: full,
                        relative: path.clone(),
                        content: content.clone(),
                    };
                    tasks.push(task);
                    assert(tasks.deep_view() =~= before + seq![task@]);
                } else {
                    assert(before + Seq::<CreationTaskView>::empty() =~= before);
                }
            },
            Action::RunCommand { program, args } => {
                let task = CreationTask::RunCommand {
                    program: safe_program(program.as_str()),
                    args: copy_of(args),
                };
                tasks.push(task);
                assert(tasks.deep_view() =~= before + seq![task@]);
            },
            _ => {
                assert(before + Seq::<CreationTaskView>::empty() =~= before);
            },
        }
        i += 1;
    }
    assert(all.take(plan.len() as int) =~= all);
    tasks
}

} // verus!
