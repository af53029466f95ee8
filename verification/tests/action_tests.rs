use neurust::action::{decode_plan, Action, PlanningResponse, WireAction};

fn wire(tag: &str) -> WireAction {
    WireAction {
        action: Some(String::from(tag)),
        path: None,
        content: None,
        reason: None,
        program: None,
        args: None,
        url: None,
    }
}

fn response(message: Option<&str>, plan: Vec<Action>, init: Option<&str>) -> PlanningResponse {
    PlanningResponse {
        message: message.map(String::from),
        plan,
        init_command: init.map(String::from),
        suggested_name: None,
        project_type: None,
    }
}

#[test]
fn decode_create_file_with_all_fields() {
    let mut w = wire("create_file");
    w.path = Some(String::from("a.txt"));
    w.content = Some(String::from("hello"));
    w.reason = Some(String::from("because"));
    assert_eq!(
        Action::decode(w),
        Action::CreateOrUpdateFile {
            path: String::from("a.txt"),
            content: String::from("hello"),
            reason: String::from("because"),
        }
    );
}

#[test]
fn decode_create_file_fills_missing_fields() {
    let mut w = wire("create_file");
    w.path = Some(String::from("a.txt"));
    assert_eq!(
        Action::decode(w),
        Action::CreateOrUpdateFile {
            path: String::from("a.txt"),
            content: String::new(),
            reason: String::from("No reason provided."),
        }
    );
}

#[test]
fn decode_create_file_without_path_is_ignored() {
    let mut w = wire("create_file");
    w.content = Some(String::from("hello"));
    assert_eq!(Action::decode(w), Action::Ignored);
}

#[test]
fn decode_run_cmd_keeps_text_arguments() {
    let mut w = wire("run_cmd");
    w.program = Some(String::from("cargo"));
    w.args = Some(vec![Some(String::from("build")), None, Some(String::from("--release"))]);
    assert_eq!(
        Action::decode(w),
        Action::RunCommand {
            program: String::from("cargo"),
            args: vec![String::from("build"), String::from("--release")],
        }
    );
}

#[test]
fn decode_run_cmd_without_args() {
    let mut w = wire("run_cmd");
    w.program = Some(String::from("ls"));
    assert_eq!(
        Action::decode(w),
        Action::RunCommand { program: String::from("ls"), args: vec![] }
    );
}

#[test]
fn decode_run_cmd_without_program_is_ignored() {
    let mut w = wire("run_cmd");
    w.args = Some(vec![Some(String::from("x"))]);
    assert_eq!(Action::decode(w), Action::Ignored);
}

#[test]
fn decode_read_url_and_read_file() {
    let mut w = wire("read_url");
    w.url = Some(String::from("https://example.org"));
    assert_eq!(Action::decode(w), Action::FetchUrl { url: String::from("https://example.org") });
    assert_eq!(Action::decode(wire("read_url")), Action::Ignored);

    let mut w = wire("read_file");
    w.path = Some(String::from("src/lib.rs"));
    assert_eq!(Action::decode(w), Action::ReadFile { path: String::from("src/lib.rs") });
    assert_eq!(Action::decode(wire("read_file")), Action::Ignored);
}

#[test]
fn decode_unknown_or_missing_tag_is_ignored() {
    let mut w = wire("delete_everything");
    w.path = Some(String::from("/"));
    assert_eq!(Action::decode(w), Action::Ignored);
    let mut w = wire("");
    w.action = None;
    w.path = Some(String::from("a"));
    assert_eq!(Action::decode(w), Action::Ignored);
    assert_eq!(Action::decode(wire("CREATE_FILE")), Action::Ignored);
}

#[test]
fn decode_plan_keeps_order_and_length() {
    let mut first = wire("read_url");
    first.url = Some(String::from("u"));
    let second = wire("bogus");
    let mut third = wire("run_cmd");
    third.program = Some(String::from("p"));
    let plan = decode_plan(vec![first, second, third]);
    assert_eq!(
        plan,
        vec![
            Action::FetchUrl { url: String::from("u") },
            Action::Ignored,
            Action::RunCommand { program: String::from("p"), args: vec![] },
        ]
    );
    assert!(decode_plan(vec![]).is_empty());
}

#[test]
fn inert_actions() {
    assert!(Action::Ignored.is_inert());
    assert!(Action::ReadFile { path: String::from("a") }.is_inert());
    assert!(!Action::FetchUrl { url: String::from("a") }.is_inert());
    assert!(!Action::RunCommand { program: String::from("a"), args: vec![] }.is_inert());
}

#[test]
fn chat_needs_message_and_nothing_else() {
    assert!(response(Some("hi"), vec![], None).is_chat());
    assert!(response(Some("hi"), vec![], Some("")).is_chat());
    assert!(!response(Some("  \n"), vec![], None).is_chat());
    assert!(!response(None, vec![], None).is_chat());
    assert!(!response(Some("hi"), vec![Action::Ignored], None).is_chat());
    assert!(!response(Some("hi"), vec![], Some("cargo new x")).is_chat());
}

#[test]
fn message_and_init_command_flags() {
    assert!(response(Some(" x "), vec![], None).has_message());
    assert!(!response(Some("\t"), vec![], None).has_message());
    assert!(response(None, vec![], Some("anchor init x")).has_init_command());
    assert!(!response(None, vec![], Some("")).has_init_command());
    assert!(!response(None, vec![], None).has_init_command());
}
