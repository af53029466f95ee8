use neurust::action::{Action, PlanningResponse};
use neurust::command::CommandLine;
use neurust::creation::{
    command_of_words, creation_tasks, init_command, leaves_out, project_name, project_type,
    safe_program, CreationTask,
};

fn response(name: Option<&str>, kind: Option<&str>, init: Option<&str>) -> PlanningResponse {
    PlanningResponse {
        message: None,
        plan: vec![],
        init_command: init.map(String::from),
        suggested_name: name.map(String::from),
        project_type: kind.map(String::from),
    }
}

fn file(path: &str, content: &str) -> Action {
    Action::CreateOrUpdateFile {
        path: String::from(path),
        content: String::from(content),
        reason: String::from("r"),
    }
}

fn write_task(path: &str, relative: &str, content: &str) -> CreationTask {
    CreationTask::WriteFile {
        path: String::from(path),
        relative: String::from(relative),
        content: String::from(content),
    }
}

#[test]
fn project_name_and_type_have_defaults() {
    assert_eq!(project_name(&response(None, None, None)), "neurust_project");
    assert_eq!(project_type(&response(None, None, None)), "rust");
    assert_eq!(project_name(&response(Some("demo"), Some("anchor"), None)), "demo");
    assert_eq!(project_type(&response(Some("demo"), Some("anchor"), None)), "anchor");
}

#[test]
fn init_command_is_split_into_words() {
    assert_eq!(
        init_command(&response(None, None, Some("  cargo   new demo\t--bin \n"))),
        Some(CommandLine {
            program: String::from("cargo"),
            args: vec![String::from("new"), String::from("demo"), String::from("--bin")],
        })
    );
    assert_eq!(
        init_command(&response(None, None, Some("ls"))),
        Some(CommandLine { program: String::from("ls"), args: vec![] })
    );
}

#[test]
fn blank_init_command_is_none() {
    assert_eq!(init_command(&response(None, None, Some(""))), None);
    assert_eq!(init_command(&response(None, None, Some(" \n\t"))), None);
    assert_eq!(init_command(&response(None, None, None)), None);
    assert_eq!(command_of_words(vec![]), None);
}

#[test]
fn files_left_out_by_project_type() {
    assert!(leaves_out("frontend", "Cargo.toml"));
    assert!(leaves_out("frontend", "src/main.rs"));
    assert!(leaves_out("frontend", "old/domain.rs"));
    assert!(!leaves_out("frontend", "src/App.tsx"));
    assert!(leaves_out("anchor", "programs/x/src/main.rs"));
    assert!(!leaves_out("anchor", "main.rs"));
    assert!(!leaves_out("anchor", "Cargo.toml"));
    assert!(!leaves_out("rust", "src/main.rs"));
    assert!(!leaves_out("Frontend", "Cargo.toml"));
}

#[test]
fn yarn_is_replaced_by_npm() {
    assert_eq!(safe_program("yarn"), "npm");
    assert_eq!(safe_program("npm"), "npm");
    assert_eq!(safe_program("Yarn"), "Yarn");
    assert_eq!(safe_program("cargo"), "cargo");
}

#[test]
fn tasks_follow_the_plan() {
    let plan = vec![
        file("src/lib.rs", "code"),
        Action::Ignored,
        Action::RunCommand { program: String::from("yarn"), args: vec![String::from("install")] },
        Action::FetchUrl { url: String::from("u") },
        file("src/main.rs", "main"),
        Action::ReadFile { path: String::from("x") },
        Action::RunCommand { program: String::from("anchor"), args: vec![] },
    ];
    assert_eq!(
        creation_tasks("demo", "anchor", &plan),
        vec![
            write_task("demo/src/lib.rs", "src/lib.rs", "code"),
            CreationTask::RunCommand {
                program: String::from("npm"),
                args: vec![String::from("install")],
            },
            CreationTask::RunCommand { program: String::from("anchor"), args: vec![] },
        ]
    );
    assert_eq!(creation_tasks("demo", "rust", &vec![]), vec![]);
}

#[test]
fn frontend_gets_no_rust_files() {
    let plan = vec![file("Cargo.toml", "x"), file("index.html", "<p>"), file("main.rs", "y")];
    assert_eq!(
        creation_tasks("web", "frontend", &plan),
        vec![write_task("web/index.html", "index.html", "<p>")]
    );
}

#[test]
fn words_are_stretches_between_white_space() {
    let words = |text: &str| neurust::creation::split_words(text);
    assert_eq!(words("anchor init demo"), vec!["anchor", "init", "demo"]);
    assert_eq!(words("  a\t\tb \n c\u{a0}d\u{3000}"), vec!["a", "b", "c", "d"]);
    assert_eq!(words("one"), vec!["one"]);
    assert!(words("").is_empty());
    assert!(words(" \n ").is_empty());
}
