use neurust::action::{Action, PlanningResponse};
use neurust::conversation::{Conversation, DriverEffect, DriverEvent, Ending, Phase, MAX_TURNS};
use neurust::memory::ProjectMemory;

fn now() -> String {
    String::from("2024-05-06T07:08:09+00:00")
}

fn cached() -> ProjectMemory {
    let mut memory = ProjectMemory::new();
    memory.project_context = String::from("FILES");
    memory
}

fn answer(message: Option<&str>, plan: Vec<Action>, init: Option<&str>) -> PlanningResponse {
    PlanningResponse {
        message: message.map(String::from),
        plan,
        init_command: init.map(String::from),
        suggested_name: None,
        project_type: None,
    }
}

fn read(path: &str) -> Action {
    Action::ReadFile { path: String::from(path) }
}

fn run(program: &str) -> Action {
    Action::RunCommand { program: String::from(program), args: vec![] }
}

fn request(prompt: &str, context: &str) -> DriverEffect {
    DriverEffect::RequestPlan { prompt: String::from(prompt), context: String::from(context) }
}

/// Takes a conversation with a filled cache up to its first request.
fn started(prompt: &str) -> Conversation {
    let mut conversation = Conversation::new(String::from(prompt), cached());
    assert_eq!(conversation.step_at(DriverEvent::Start, now()), DriverEffect::SaveMemory);
    assert_eq!(conversation.step_at(DriverEvent::Saved, now()), DriverEffect::TakeFetchCache);
    assert!(matches!(
        conversation.step_at(DriverEvent::FetchCache(None), now()),
        DriverEffect::RequestPlan { .. }
    ));
    conversation
}

#[test]
fn empty_memory_is_scanned_once() {
    let mut conversation = Conversation::new(String::from("fix it"), ProjectMemory::new());
    assert_eq!(conversation.awaiting(), Phase::Start);
    assert_eq!(conversation.step_at(DriverEvent::Start, now()), DriverEffect::ScanWorkspace);
    assert_eq!(
        conversation.step_at(DriverEvent::Scanned(String::from("SCAN")), now()),
        DriverEffect::SaveMemory
    );
    assert_eq!(conversation.memory().project_context, "SCAN");
    assert_eq!(conversation.step_at(DriverEvent::Saved, now()), DriverEffect::SaveMemory);
    assert_eq!(conversation.memory().summary, "- [2024-05-06T07:08:09+00:00] Task: fix it\n");
    assert_eq!(conversation.memory().last_interaction, "2024-05-06T07:08:09+00:00");
    assert_eq!(conversation.step_at(DriverEvent::Saved, now()), DriverEffect::TakeFetchCache);
    assert_eq!(
        conversation.step_at(DriverEvent::FetchCache(None), now()),
        request("fix it", "SCAN\n- [2024-05-06T07:08:09+00:00] Task: fix it\n")
    );
    assert_eq!(conversation.turn(), 1);
}

#[test]
fn filled_memory_is_not_rescanned() {
    let mut conversation = Conversation::new(String::from("again"), cached());
    assert_eq!(conversation.step_at(DriverEvent::Start, now()), DriverEffect::SaveMemory);
    assert_eq!(conversation.memory().project_context, "FILES");
    assert_eq!(conversation.memory().summary, "- [2024-05-06T07:08:09+00:00] Task: again\n");
    assert_eq!(conversation.step_at(DriverEvent::Saved, now()), DriverEffect::TakeFetchCache);
    assert_eq!(
        conversation.step_at(DriverEvent::FetchCache(None), now()),
        request("again", "FILES\n- [2024-05-06T07:08:09+00:00] Task: again\n")
    );
}

#[test]
fn fetched_content_joins_the_context() {
    let mut conversation = Conversation::new(String::from("p"), cached());
    conversation.step_at(DriverEvent::Start, now());
    conversation.step_at(DriverEvent::Saved, now());
    assert_eq!(
        conversation.step_at(DriverEvent::FetchCache(Some(String::from("PAGE"))), now()),
        request("p", "FILES\n- [2024-05-06T07:08:09+00:00] Task: p\n\n\n--- BROWSED CONTENT ---\nPAGE\n")
    );
}

#[test]
fn transport_failure_ends_the_conversation() {
    let mut conversation = started("p");
    assert_eq!(
        conversation.step_at(DriverEvent::PlanFailed, now()),
        DriverEffect::Finished(Ending::ConnectionLost)
    );
    assert_eq!(conversation.awaiting(), Phase::Finished);
    assert_eq!(conversation.step_at(DriverEvent::Saved, now()), DriverEffect::Unexpected);
}

#[test]
fn plan_is_handed_over_for_execution() {
    let mut conversation = started("p");
    let plan = vec![run("ls"), Action::Ignored];
    assert_eq!(
        conversation.step_at(DriverEvent::PlanReceived(answer(Some("doing"), plan.clone(), None)), now()),
        DriverEffect::Finished(Ending::ExecutePlan(plan))
    );
    assert_eq!(conversation.into_memory().summary, "- [2024-05-06T07:08:09+00:00] Task: p\n");
}

#[test]
fn plan_of_unknown_actions_is_still_a_plan() {
    let mut conversation = started("p");
    assert_eq!(
        conversation.step_at(DriverEvent::PlanReceived(answer(None, vec![Action::Ignored], None)), now()),
        DriverEffect::Finished(Ending::ExecutePlan(vec![Action::Ignored]))
    );
}

#[test]
fn init_command_hands_over_to_project_creation() {
    let mut conversation = started("make a project");
    let response = answer(Some("creating"), vec![run("ls")], Some("cargo new demo --bin"));
    assert_eq!(
        conversation.step_at(DriverEvent::PlanReceived(response.clone()), now()),
        DriverEffect::Finished(Ending::CreateProject(response))
    );
}

#[test]
fn empty_answer_ends_silently() {
    let mut conversation = started("p");
    assert_eq!(
        conversation.step_at(DriverEvent::PlanReceived(answer(None, vec![], None)), now()),
        DriverEffect::Finished(Ending::Nothing)
    );
    let mut conversation = started("p");
    assert_eq!(
        conversation.step_at(DriverEvent::PlanReceived(answer(Some("  "), vec![], Some(""))), now()),
        DriverEffect::Finished(Ending::Nothing)
    );
}

#[test]
fn chat_reply_joins_history_and_log() {
    let mut conversation = started("build a token");
    assert_eq!(
        conversation.step_at(DriverEvent::PlanReceived(answer(Some("Which chain?"), vec![], None)), now()),
        DriverEffect::AskUser { message: String::from("Which chain?") }
    );
    assert_eq!(conversation.awaiting(), Phase::Reply);
    assert_eq!(
        conversation.step_at(DriverEvent::Reply(Some(String::from("  solana \n"))), now()),
        DriverEffect::SaveMemory
    );
    assert_eq!(conversation.memory().summary, "- [2024-05-06T07:08:09+00:00] Task: build a token\n\n- [2024-05-06T07:08:09+00:00] Task: solana\n");
    assert_eq!(conversation.step_at(DriverEvent::Saved, now()), DriverEffect::TakeFetchCache);
    assert_eq!(
        conversation.step_at(DriverEvent::FetchCache(None), now()),
        request(
            "\nAI: Which chain?\nUser: solana\nbuild a token",
            "FILES\n- [2024-05-06T07:08:09+00:00] Task: build a token\n"
        )
    );
    assert_eq!(conversation.turn(), 2);
}

#[test]
fn two_replies_are_both_in_the_prompt() {
    let mut conversation = started("p");
    conversation.step_at(DriverEvent::PlanReceived(answer(Some("q1"), vec![], None)), now());
    conversation.step_at(DriverEvent::Reply(Some(String::from("a1"))), now());
    conversation.step_at(DriverEvent::Saved, now());
    conversation.step_at(DriverEvent::FetchCache(None), now());
    conversation.step_at(DriverEvent::PlanReceived(answer(Some("q2"), vec![], None)), now());
    conversation.step_at(DriverEvent::Reply(Some(String::from("a2"))), now());
    conversation.step_at(DriverEvent::Saved, now());
    match conversation.step_at(DriverEvent::FetchCache(None), now()) {
        DriverEffect::RequestPlan { prompt, .. } => assert_eq!(
            prompt,
            "\nAI: q1\nUser: a1\n\nAI: q2\nUser: a2\np"
        ),
        other => panic!("unexpected effect {:?}", other),
    }
}

#[test]
fn exit_and_quit_end_the_conversation() {
    for word in ["exit", "EXIT\n", "  Quit  ", "quit"] {
        let mut conversation = started("p");
        conversation.step_at(DriverEvent::PlanReceived(answer(Some("hello"), vec![], None)), now());
        assert_eq!(
            conversation.step_at(DriverEvent::Reply(Some(String::from(word))), now()),
            DriverEffect::Finished(Ending::UserLeft)
        );
        assert_eq!(conversation.memory().summary, "- [2024-05-06T07:08:09+00:00] Task: p\n");
    }
}

#[test]
fn unreadable_reply_ends_the_conversation() {
    let mut conversation = started("p");
    conversation.step_at(DriverEvent::PlanReceived(answer(Some("hello"), vec![], None)), now());
    assert_eq!(
        conversation.step_at(DriverEvent::Reply(None), now()),
        DriverEffect::Finished(Ending::InputClosed)
    );
}

#[test]
fn empty_reply_asks_again() {
    let mut conversation = started("p");
    conversation.step_at(DriverEvent::PlanReceived(answer(Some("hello"), vec![], None)), now());
    assert_eq!(
        conversation.step_at(DriverEvent::Reply(Some(String::from("  \n"))), now()),
        DriverEffect::TakeFetchCache
    );
    assert_eq!(
        conversation.step_at(DriverEvent::FetchCache(None), now()),
        request("p", "FILES\n- [2024-05-06T07:08:09+00:00] Task: p\n")
    );
    assert_eq!(conversation.turn(), 2);
    assert_eq!(conversation.memory().summary, "- [2024-05-06T07:08:09+00:00] Task: p\n");
}

#[test]
fn files_are_read_before_the_next_turn() {
    let mut conversation = started("p");
    let plan = vec![read("a.rs"), run("ls"), read("lib.rs"), read("gone.rs"), read("b.rs")];
    assert_eq!(
        conversation.step_at(DriverEvent::PlanReceived(answer(None, plan, None)), now()),
        DriverEffect::ReadFile { path: String::from("a.rs") }
    );
    assert_eq!(conversation.awaiting(), Phase::File);
    assert_eq!(
        conversation.step_at(DriverEvent::FileRead(Some(String::from("AAA"))), now()),
        DriverEffect::ReadFile { path: String::from("lib.rs") }
    );
    assert_eq!(
        conversation.step_at(DriverEvent::FileRead(None), now()),
        DriverEffect::FindFile { path: String::from("lib.rs") }
    );
    assert_eq!(conversation.awaiting(), Phase::Search);
    assert_eq!(
        conversation.step_at(DriverEvent::Found(Some(String::from("./src/lib.rs"))), now()),
        DriverEffect::ReadFile { path: String::from("./src/lib.rs") }
    );
    assert_eq!(conversation.awaiting(), Phase::FoundFile);
    assert_eq!(
        conversation.step_at(DriverEvent::FileRead(Some(String::from("LLL"))), now()),
        DriverEffect::ReadFile { path: String::from("gone.rs") }
    );
    assert_eq!(
        conversation.step_at(DriverEvent::FileRead(None), now()),
        DriverEffect::FindFile { path: String::from("gone.rs") }
    );
    assert_eq!(
        conversation.step_at(DriverEvent::Found(None), now()),
        DriverEffect::ReadFile { path: String::from("b.rs") }
    );
    assert_eq!(
        conversation.step_at(DriverEvent::FileRead(Some(String::from("BBB"))), now()),
        DriverEffect::TakeFetchCache
    );
    assert_eq!(
        conversation.step_at(DriverEvent::FetchCache(None), now()),
        request(
            "p",
            "FILES\n- [2024-05-06T07:08:09+00:00] Task: p\n\n\n--- FRESH FILE READ: a.rs ---\nAAA\n\n\n--- FRESH FILE READ: lib.rs ---\nLLL\n\n\n--- FRESH FILE READ: b.rs ---\nBBB\n"
        )
    );
}

#[test]
fn found_file_that_cannot_be_read_is_skipped() {
    let mut conversation = started("p");
    let plan = vec![read("lib.rs"), run("ls")];
    conversation.step_at(DriverEvent::PlanReceived(answer(None, plan.clone(), None)), now());
    conversation.step_at(DriverEvent::FileRead(None), now());
    conversation.step_at(DriverEvent::Found(Some(String::from("./x/lib.rs"))), now());
    assert_eq!(
        conversation.step_at(DriverEvent::FileRead(None), now()),
        DriverEffect::Finished(Ending::ExecutePlan(plan))
    );
}

#[test]
fn plan_runs_when_no_file_could_be_read() {
    let mut conversation = started("p");
    let plan = vec![read("gone.rs"), run("ls")];
    conversation.step_at(DriverEvent::PlanReceived(answer(None, plan.clone(), None)), now());
    assert_eq!(
        conversation.step_at(DriverEvent::FileRead(None), now()),
        DriverEffect::FindFile { path: String::from("gone.rs") }
    );
    assert_eq!(
        conversation.step_at(DriverEvent::Found(None), now()),
        DriverEffect::Finished(Ending::ExecutePlan(plan))
    );
}

#[test]
fn message_with_plan_is_no_chat() {
    let mut conversation = started("p");
    assert_eq!(
        conversation.step_at(DriverEvent::PlanReceived(answer(Some("reading"), vec![read("a")], None)), now()),
        DriverEffect::ReadFile { path: String::from("a") }
    );
}

#[test]
fn conversation_makes_at_most_ten_requests() {
    let mut conversation = Conversation::new(String::from("p"), cached());
    conversation.step_at(DriverEvent::Start, now());
    let mut effect = conversation.step_at(DriverEvent::Saved, now());
    let mut requests = 0;
    for _ in 0..MAX_TURNS {
        assert_eq!(effect, DriverEffect::TakeFetchCache);
        effect = conversation.step_at(DriverEvent::FetchCache(None), now());
        assert!(matches!(effect, DriverEffect::RequestPlan { .. }));
        requests += 1;
        effect = conversation.step_at(DriverEvent::PlanReceived(answer(Some("more?"), vec![], None)), now());
        assert!(matches!(effect, DriverEffect::AskUser { .. }));
        effect = conversation.step_at(DriverEvent::Reply(Some(String::from("yes"))), now());
        assert_eq!(effect, DriverEffect::SaveMemory);
        effect = conversation.step_at(DriverEvent::Saved, now());
    }
    assert_eq!(requests, 10);
    assert_eq!(conversation.turn(), 10);
    assert_eq!(effect, DriverEffect::Finished(Ending::LimitReached));
    assert_eq!(conversation.awaiting(), Phase::Finished);
}

#[test]
fn limit_counts_turns_spent_on_reading() {
    let mut conversation = Conversation::new(String::from("p"), cached());
    conversation.step_at(DriverEvent::Start, now());
    let mut effect = conversation.step_at(DriverEvent::Saved, now());
    for _ in 0..MAX_TURNS {
        assert_eq!(effect, DriverEffect::TakeFetchCache);
        conversation.step_at(DriverEvent::FetchCache(None), now());
        conversation.step_at(DriverEvent::PlanReceived(answer(None, vec![read("a")], None)), now());
        effect = conversation.step_at(DriverEvent::FileRead(Some(String::from("x"))), now());
    }
    assert_eq!(effect, DriverEffect::Finished(Ending::LimitReached));
}

#[test]
fn step_takes_the_time_from_the_clock() {
    let mut conversation = Conversation::new(String::from("p"), cached());
    assert_eq!(conversation.step(DriverEvent::Start), DriverEffect::SaveMemory);
    let stamp = conversation.memory().last_interaction.clone();
    assert_eq!(conversation.memory().summary, format!("- [{}] Task: p\n", stamp));
    assert!(conversation.memory().last_interaction.contains('T'));
    assert_eq!(conversation.step(DriverEvent::Saved), DriverEffect::TakeFetchCache);
}

#[test]
fn unexpected_driver_events_change_nothing() {
    let mut conversation = Conversation::new(String::from("p"), cached());
    assert_eq!(conversation.step_at(DriverEvent::Saved, now()), DriverEffect::Unexpected);
    assert_eq!(conversation.awaiting(), Phase::Start);
    assert_eq!(conversation.memory().summary, "");
    conversation.step_at(DriverEvent::Start, now());
    assert_eq!(conversation.step_at(DriverEvent::FetchCache(None), now()), DriverEffect::Unexpected);
    assert_eq!(conversation.awaiting(), Phase::TaskSaved);
    assert_eq!(conversation.turn(), 0);
}
