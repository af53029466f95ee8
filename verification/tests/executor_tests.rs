use neurust::action::Action;
use neurust::command::{CommandResult, HeavyChoice};
use neurust::diff::{ChangeTag, ConfirmAction, DiffLine};
use neurust::executor::{Awaiting, Effect, Event, Executor, Outcome, MAX_HEALING_DEPTH};
use neurust::memory::ProjectMemory;

fn write(path: &str, content: &str) -> Action {
    Action::CreateOrUpdateFile {
        path: String::from(path),
        content: String::from(content),
        reason: String::from("No reason provided."),
    }
}

fn run(program: &str, args: &[&str]) -> Action {
    Action::RunCommand {
        program: String::from(program),
        args: args.iter().map(|a| String::from(*a)).collect(),
    }
}

fn run_effect(program: &str, args: &[&str], patient: bool) -> Effect {
    Effect::RunCommand {
        program: String::from(program),
        args: args.iter().map(|a| String::from(*a)).collect(),
        patient,
    }
}

fn check(path: &str) -> Effect {
    Effect::CheckExists { path: String::from(path) }
}

fn found(path: &str) -> Event {
    Event::Found(Some(String::from(path)))
}

fn content(text: &str) -> Event {
    Event::Content(Some(String::from(text)))
}

fn failed(error: &str) -> Event {
    Event::CommandEnded(CommandResult::Failed { stderr: String::from(error) })
}

fn succeeded() -> Event {
    Event::CommandEnded(CommandResult::Succeeded)
}

fn write_effect(path: &str, content: &str) -> Effect {
    Effect::WriteFile { path: String::from(path), content: String::from(content) }
}

fn done() -> Effect {
    Effect::Finished(Outcome::Completed)
}

/// Takes the executor of a plan that starts with a write to a file that
/// is nowhere to be found up to the question to the user.
fn asked_about_new_file(plan: Vec<Action>) -> Executor {
    let mut executor = Executor::new(plan, ProjectMemory::new());
    assert!(matches!(executor.step(Event::Start), Effect::CheckExists { .. }));
    assert!(matches!(executor.step(Event::Exists(false)), Effect::FindFile { .. }));
    assert!(matches!(executor.step(Event::Found(None)), Effect::AskConfirmation { .. }));
    executor
}

#[test]
fn empty_plan_completes_at_once() {
    let mut executor = Executor::new(vec![], ProjectMemory::new());
    assert_eq!(executor.awaiting(), Awaiting::Start);
    assert_eq!(executor.depth(), 1);
    assert_eq!(executor.step(Event::Start), done());
    assert_eq!(executor.awaiting(), Awaiting::Finished);
    assert_eq!(executor.depth(), 0);
}

#[test]
fn unrecognized_actions_do_nothing() {
    let mut memory = ProjectMemory::new();
    memory.project_context = String::from("cached");
    memory.summary = String::from("log");
    let plan = vec![Action::Ignored];
    let mut executor = Executor::new(plan, memory);
    assert_eq!(executor.step(Event::Start), done());
    let memory = executor.into_memory();
    assert_eq!(memory.project_context, "cached");
    assert_eq!(memory.summary, "log");
}

#[test]
fn inert_actions_are_passed_over() {
    let plan = vec![
        Action::Ignored,
        Action::ReadFile { path: String::from("x") },
        run("ls", &[]),
        Action::Ignored,
    ];
    let mut executor = Executor::new(plan, ProjectMemory::new());
    assert_eq!(executor.step(Event::Start), run_effect("ls", &[], false));
    assert_eq!(executor.step(succeeded()), done());
}

#[test]
fn new_file_is_put_to_the_user() {
    let mut executor = Executor::new(vec![write("a.txt", "hello")], ProjectMemory::new());
    assert_eq!(executor.step(Event::Start), check("a.txt"));
    assert_eq!(executor.awaiting(), Awaiting::Exists);
    assert_eq!(
        executor.step(Event::Exists(false)),
        Effect::FindFile { path: String::from("a.txt") }
    );
    assert_eq!(executor.awaiting(), Awaiting::Search);
    match executor.step(Event::Found(None)) {
        Effect::AskConfirmation { path, reason, review } => {
            assert_eq!(path, "a.txt");
            assert_eq!(reason, "No reason provided.");
            assert_eq!(review.title, "✨ NEW FILE: a.txt");
            assert!(review.changed);
            assert_eq!(
                review.lines,
                vec![DiffLine { tag: ChangeTag::Insert, text: String::from("hello") }]
            );
        }
        other => panic!("unexpected effect {:?}", other),
    }
    assert_eq!(executor.awaiting(), Awaiting::Decision);
}

#[test]
fn rejected_file_is_not_written() {
    let mut executor = asked_about_new_file(vec![write("a.txt", "hello")]);
    assert_eq!(executor.step(Event::Decision(ConfirmAction::No)), done());
    assert_eq!(executor.into_memory().project_context, "");
}

#[test]
fn accepted_file_is_written_and_remembered() {
    let mut executor = asked_about_new_file(vec![write("a.txt", "hello")]);
    assert_eq!(executor.step(Event::Decision(ConfirmAction::Yes)), write_effect("a.txt", "hello"));
    assert_eq!(executor.awaiting(), Awaiting::Written);
    assert_eq!(executor.memory().project_context, "");
    assert_eq!(executor.step(Event::Written), Effect::SaveMemory);
    assert_eq!(
        executor.memory().project_context,
        "\n>>>> FILE START: a.txt <<<<\nhello\n>>>> FILE END: a.txt <<<<\n"
    );
    assert_eq!(executor.step(Event::Saved), done());
}

#[test]
fn existing_file_is_read_and_compared() {
    let mut executor = Executor::new(vec![write("a.txt", "new\n")], ProjectMemory::new());
    executor.step(Event::Start);
    assert_eq!(
        executor.step(Event::Exists(true)),
        Effect::ReadExisting { path: String::from("a.txt") }
    );
    assert_eq!(executor.awaiting(), Awaiting::Existing);
    match executor.step(content("old\n")) {
        Effect::AskConfirmation { path, review, .. } => {
            assert_eq!(path, "a.txt");
            assert_eq!(review.title, "📝 EDITING: a.txt");
            assert_eq!(
                review.lines,
                vec![
                    DiffLine { tag: ChangeTag::Delete, text: String::from("old\n") },
                    DiffLine { tag: ChangeTag::Insert, text: String::from("new\n") },
                ]
            );
        }
        other => panic!("unexpected effect {:?}", other),
    }
}

#[test]
fn unreadable_file_counts_as_empty() {
    let mut executor = Executor::new(vec![write("a.txt", "new")], ProjectMemory::new());
    executor.step(Event::Start);
    executor.step(Event::Exists(true));
    match executor.step(Event::Content(None)) {
        Effect::AskConfirmation { review, .. } => {
            assert_eq!(review.title, "✨ NEW FILE: a.txt");
        }
        other => panic!("unexpected effect {:?}", other),
    }
}

#[test]
fn write_goes_to_the_file_that_was_found() {
    let mut executor = Executor::new(vec![write("lib.rs", "new")], ProjectMemory::new());
    executor.step(Event::Start);
    executor.step(Event::Exists(false));
    assert_eq!(
        executor.step(found("./programs/app/src/lib.rs")),
        Effect::ReadExisting { path: String::from("./programs/app/src/lib.rs") }
    );
    match executor.step(content("old")) {
        Effect::AskConfirmation { path, review, .. } => {
            assert_eq!(path, "./programs/app/src/lib.rs");
            assert_eq!(review.title, "📝 EDITING: ./programs/app/src/lib.rs");
        }
        other => panic!("unexpected effect {:?}", other),
    }
    assert_eq!(
        executor.step(Event::Decision(ConfirmAction::Yes)),
        write_effect("./programs/app/src/lib.rs", "new")
    );
    executor.step(Event::Written);
    assert_eq!(
        executor.memory().project_context,
        "\n>>>> FILE START: ./programs/app/src/lib.rs <<<<\nnew\n>>>> FILE END: ./programs/app/src/lib.rs <<<<\n"
    );
}

#[test]
fn unchanged_file_is_written_without_asking() {
    let mut executor = Executor::new(vec![write("a.txt", "same\n")], ProjectMemory::new());
    executor.step(Event::Start);
    executor.step(Event::Exists(true));
    assert_eq!(executor.step(content("same\n")), write_effect("a.txt", "same\n"));
}

#[test]
fn empty_new_file_is_written_without_asking() {
    let mut executor = Executor::new(vec![write("a.txt", "")], ProjectMemory::new());
    executor.step(Event::Start);
    executor.step(Event::Exists(false));
    assert_eq!(executor.step(Event::Found(None)), write_effect("a.txt", ""));
}

#[test]
fn accept_all_skips_later_confirmations() {
    let plan = vec![write("a", "1"), write("b", "2"), write("c", "3")];
    let mut executor = asked_about_new_file(plan);
    assert_eq!(executor.step(Event::Decision(ConfirmAction::All)), write_effect("a", "1"));
    assert_eq!(executor.step(Event::Written), Effect::SaveMemory);
    assert_eq!(executor.step(Event::Saved), check("b"));
    assert_eq!(
        executor.step(Event::Exists(true)),
        Effect::ReadExisting { path: String::from("b") }
    );
    assert_eq!(executor.step(content("old b")), write_effect("b", "2"));
    executor.step(Event::Written);
    assert_eq!(executor.step(Event::Saved), check("c"));
    assert_eq!(executor.step(Event::Exists(false)), Effect::FindFile { path: String::from("c") });
    assert_eq!(
        executor.step(found("./x/c")),
        Effect::ReadExisting { path: String::from("./x/c") }
    );
    assert_eq!(executor.step(Event::Content(None)), write_effect("./x/c", "3"));
    executor.step(Event::Written);
    assert_eq!(executor.step(Event::Saved), done());
    assert_eq!(
        executor.into_memory().project_context,
        "\n>>>> FILE START: a <<<<\n1\n>>>> FILE END: a <<<<\n\n>>>> FILE START: b <<<<\n2\n>>>> FILE END: b <<<<\n\n>>>> FILE START: ./x/c <<<<\n3\n>>>> FILE END: ./x/c <<<<\n"
    );
}

#[test]
fn yes_does_not_skip_later_confirmations() {
    let plan = vec![write("a", "1"), write("b", "2")];
    let mut executor = asked_about_new_file(plan);
    executor.step(Event::Decision(ConfirmAction::Yes));
    executor.step(Event::Written);
    assert_eq!(executor.step(Event::Saved), check("b"));
    executor.step(Event::Exists(false));
    assert!(matches!(executor.step(Event::Found(None)), Effect::AskConfirmation { .. }));
}

#[test]
fn failed_write_is_skipped() {
    let plan = vec![write("a", "1"), run("ls", &[])];
    let mut executor = asked_about_new_file(plan);
    executor.step(Event::Decision(ConfirmAction::Yes));
    assert_eq!(executor.step(Event::WriteFailed), run_effect("ls", &[], false));
    assert_eq!(executor.memory().project_context, "");
}

#[test]
fn denied_access_aborts_the_plan() {
    let plan = vec![write("a", "1"), run("ls", &[])];
    let mut executor = asked_about_new_file(plan);
    executor.step(Event::Decision(ConfirmAction::Yes));
    assert_eq!(executor.step(Event::AccessDenied), Effect::Finished(Outcome::Aborted));
    assert_eq!(executor.awaiting(), Awaiting::Finished);
    assert_eq!(executor.step(Event::Saved), Effect::Unexpected);
}

#[test]
fn light_commands_run_at_once() {
    let plan = vec![run("echo", &["a", "b"]), run("ls", &[])];
    let mut executor = Executor::new(plan, ProjectMemory::new());
    assert_eq!(executor.step(Event::Start), run_effect("echo", &["a", "b"], false));
    assert_eq!(executor.awaiting(), Awaiting::Command);
    assert_eq!(executor.step(succeeded()), run_effect("ls", &[], false));
    assert_eq!(executor.step(succeeded()), done());
}

#[test]
fn heavy_command_waits_for_the_user() {
    let plan = vec![run("cargo", &["build"]), run("ls", &[])];
    let mut executor = Executor::new(plan, ProjectMemory::new());
    assert_eq!(
        executor.step(Event::Start),
        Effect::AskHeavy { program: String::from("cargo"), args: vec![String::from("build")] }
    );
    assert_eq!(executor.awaiting(), Awaiting::Choice);
    assert_eq!(
        executor.step(Event::Choice(HeavyChoice::Wait)),
        run_effect("cargo", &["build"], true)
    );
    assert_eq!(executor.step(succeeded()), run_effect("ls", &[], false));
}

#[test]
fn skipped_heavy_command_is_not_run() {
    let plan = vec![run("npm", &["install"]), run("ls", &[])];
    let mut executor = Executor::new(plan, ProjectMemory::new());
    executor.step(Event::Start);
    assert_eq!(executor.step(Event::Choice(HeavyChoice::Skip)), run_effect("ls", &[], false));
}

#[test]
fn failed_command_asks_for_one_remedy() {
    let mut executor = Executor::new(vec![run("false", &[])], ProjectMemory::new());
    assert_eq!(executor.step(Event::Start), run_effect("false", &[], false));
    assert_eq!(
        executor.step(failed("exit status 1")),
        Effect::RequestRemedy {
            prompt: String::from(
                "The command 'false []' failed with this error:\n\nexit status 1\n\nAnalyze the error. Provide a JSON plan to fix it immediately."
            ),
        }
    );
    assert_eq!(executor.awaiting(), Awaiting::Remedy);
    assert_eq!(executor.step(Event::Remedy(Some(vec![]))), done());
}

#[test]
fn failed_heavy_command_reports_a_fixed_sentence() {
    let mut executor = Executor::new(vec![run("git", &["push"])], ProjectMemory::new());
    executor.step(Event::Start);
    executor.step(Event::Choice(HeavyChoice::Wait));
    assert_eq!(
        executor.step(failed("remote: denied")),
        Effect::RequestRemedy {
            prompt: String::from(
                "The command 'git [\"push\"]' failed with this error:\n\nExternal command failed\n\nAnalyze the error. Provide a JSON plan to fix it immediately."
            ),
        }
    );
}

#[test]
fn command_that_does_not_start_is_healed_too() {
    let mut executor = Executor::new(vec![run("nothere", &[])], ProjectMemory::new());
    executor.step(Event::Start);
    assert_eq!(
        executor.step(Event::CommandEnded(CommandResult::NotStarted)),
        Effect::RequestRemedy {
            prompt: String::from(
                "The command 'nothere []' failed with this error:\n\nFailed to execute command\n\nAnalyze the error. Provide a JSON plan to fix it immediately."
            ),
        }
    );
}

#[test]
fn missing_remedy_lets_the_plan_go_on() {
    let plan = vec![run("false", &[]), run("ls", &[])];
    let mut executor = Executor::new(plan, ProjectMemory::new());
    executor.step(Event::Start);
    executor.step(failed("no"));
    assert_eq!(executor.step(Event::Remedy(None)), run_effect("ls", &[], false));
    assert_eq!(executor.step(succeeded()), done());
}

#[test]
fn remedy_runs_before_the_plan_goes_on() {
    let plan = vec![run("make", &[]), write("after", "x")];
    let mut executor = Executor::new(plan, ProjectMemory::new());
    executor.step(Event::Start);
    executor.step(failed("missing tool"));
    assert_eq!(
        executor.step(Event::Remedy(Some(vec![run("install", &["tool"])]))),
        run_effect("install", &["tool"], false)
    );
    assert_eq!(executor.depth(), 2);
    assert_eq!(executor.step(succeeded()), check("after"));
    assert_eq!(executor.depth(), 1);
}

#[test]
fn remedy_of_inert_actions_does_nothing() {
    let plan = vec![run("make", &[]), run("ls", &[])];
    let mut executor = Executor::new(plan, ProjectMemory::new());
    executor.step(Event::Start);
    executor.step(failed("x"));
    assert_eq!(
        executor.step(Event::Remedy(Some(vec![Action::Ignored]))),
        run_effect("ls", &[], false)
    );
    assert_eq!(executor.depth(), 1);
}

#[test]
fn remedy_has_its_own_acceptance() {
    let plan = vec![write("a", "1"), run("make", &[]), write("c", "3")];
    let mut executor = asked_about_new_file(plan);
    executor.step(Event::Decision(ConfirmAction::All));
    executor.step(Event::Written);
    assert_eq!(executor.step(Event::Saved), run_effect("make", &[], false));
    executor.step(failed("x"));
    assert_eq!(executor.step(Event::Remedy(Some(vec![write("fix", "f")]))), check("fix"));
    executor.step(Event::Exists(false));
    assert!(matches!(executor.step(Event::Found(None)), Effect::AskConfirmation { .. }));
    assert_eq!(executor.step(Event::Decision(ConfirmAction::Yes)), write_effect("fix", "f"));
    executor.step(Event::Written);
    assert_eq!(executor.step(Event::Saved), check("c"));
    executor.step(Event::Exists(false));
    assert_eq!(executor.step(Event::Found(None)), write_effect("c", "3"));
}

#[test]
fn healing_stops_at_its_depth() {
    let mut executor = Executor::new(vec![run("c0", &[])], ProjectMemory::new());
    executor.step(Event::Start);
    for depth in 1..=MAX_HEALING_DEPTH {
        assert!(matches!(executor.step(failed("e")), Effect::RequestRemedy { .. }));
        let name = format!("c{}", depth);
        assert_eq!(
            executor.step(Event::Remedy(Some(vec![run(&name, &[])]))),
            run_effect(&name, &[], false)
        );
        assert_eq!(executor.depth(), depth + 1);
    }
    assert_eq!(executor.depth(), MAX_HEALING_DEPTH + 1);
    assert_eq!(MAX_HEALING_DEPTH, 3);
    assert_eq!(executor.step(failed("e")), done());
}

#[test]
fn fetch_is_stored_in_the_cache_file() {
    let plan = vec![Action::FetchUrl { url: String::from("https://example.org/doc") }];
    let mut executor = Executor::new(plan, ProjectMemory::new());
    assert_eq!(
        executor.step(Event::Start),
        Effect::FetchUrl { url: String::from("https://example.org/doc") }
    );
    assert_eq!(
        executor.step(Event::Fetched(Some(String::from("pagé text")))),
        Effect::StoreFetched {
            file: String::from("neurust_browsing_cache.txt"),
            content: String::from("pagé text"),
            characters: 9,
        }
    );
    assert_eq!(executor.step(Event::Stored), done());
}

#[test]
fn failed_fetch_is_skipped() {
    let plan = vec![Action::FetchUrl { url: String::from("u") }, run("ls", &[])];
    let mut executor = Executor::new(plan, ProjectMemory::new());
    executor.step(Event::Start);
    assert_eq!(executor.step(Event::Fetched(None)), run_effect("ls", &[], false));
}

#[test]
fn unexpected_events_change_nothing() {
    let mut executor = Executor::new(vec![write("a", "1")], ProjectMemory::new());
    assert_eq!(executor.step(Event::Saved), Effect::Unexpected);
    assert_eq!(executor.awaiting(), Awaiting::Start);
    executor.step(Event::Start);
    assert_eq!(executor.step(Event::Decision(ConfirmAction::Yes)), Effect::Unexpected);
    assert_eq!(executor.step(succeeded()), Effect::Unexpected);
    assert_eq!(executor.step(Event::Found(None)), Effect::Unexpected);
    assert_eq!(executor.awaiting(), Awaiting::Exists);
    assert!(matches!(executor.step(Event::Exists(false)), Effect::FindFile { .. }));
}

#[test]
fn unread_answer_leaves_the_file_alone() {
    let plan = vec![write("a", "1"), run("ls", &[])];
    let mut executor = asked_about_new_file(plan);
    assert_eq!(executor.step(Event::NoDecision), run_effect("ls", &[], false));
    assert_eq!(executor.memory().project_context, "");
}

#[test]
fn changed_content_is_always_put_to_the_user() {
    for (old, new) in [("a\n", "a"), ("a", "a\n"), ("a\r\n", "a\n"), (" ", ""), ("x\ny\n", "y\nx\n")] {
        let mut executor = Executor::new(vec![write("f", new)], ProjectMemory::new());
        executor.step(Event::Start);
        executor.step(Event::Exists(true));
        assert!(matches!(executor.step(content(old)), Effect::AskConfirmation { .. }));
    }
}

#[test]
fn plan_whose_remedies_all_fail_still_ends() {
    let mut executor =
        Executor::new(vec![run("ls", &["a"]), run("ls", &["b"])], ProjectMemory::new());
    let mut event = Event::Start;
    let mut commands = 0;
    let mut remedies = 0;
    let mut steps = 0;
    let outcome = loop {
        steps += 1;
        assert!(steps < 1000);
        assert!(executor.depth() <= MAX_HEALING_DEPTH + 1);
        event = match executor.step(event) {
            Effect::RunCommand { .. } => {
                commands += 1;
                failed("no such file")
            }
            Effect::RequestRemedy { .. } => {
                remedies += 1;
                Event::Remedy(Some(vec![run("ls", &["c"]), run("ls", &["d"])]))
            }
            Effect::Finished(outcome) => break outcome,
            other => panic!("no such step was expected: {:?}", other),
        };
    };
    assert_eq!(outcome, Outcome::Completed);
    // Two commands at each of the three levels under each command above
    // them: 2 + 4 + 8 + 16 commands, of which the deepest get no remedy.
    assert_eq!(commands, 30);
    assert_eq!(remedies, 14);
    assert_eq!(executor.awaiting(), Awaiting::Finished);
}
