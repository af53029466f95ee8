use neurust::service::knowledge::{
    fallback_sources, get_error_solutions, get_trusted_sources, KnowledgeBase, Source,
    CPI_GUIDE, DEPLOYMENT_GUIDE, PDA_GUIDE, TOKEN_GUIDE,
};
use neurust::service::models::{
    credits_to_charge, has_sufficient_credits, is_premium_model, is_super_admin_wallet,
    starting_grant, DeviceStatus, UsageStats, UserRole,
};
use neurust::service::projects::{user_root, CreateProjectRequest, DeleteProjectRequest};
use neurust::service::prompts::{get_architect_prompt, ARCHITECT_PROMPT_HEAD, SYSTEM_AUDITOR};

fn source(note: &str, url: &str, topic: &str) -> Source {
    Source { note: String::from(note), url: String::from(url), topic: String::from(topic) }
}

fn create(name: &str, framework: &str) -> CreateProjectRequest {
    CreateProjectRequest {
        name: String::from(name),
        description: None,
        framework: String::from(framework),
    }
}

const HEADING: &str = "--- 📘 RELEVANT KNOWLEDGE & SOURCES ---\n";
const NOTHING: &str = "No internal docs found. Suggest using 'read_url' to browse external docs.";
const READING: &str = "\nRECOMMENDED READING (Use 'read_url' action to learn more):\n";

#[test]
fn search_without_match_says_so() {
    let base = KnowledgeBase::new();
    assert_eq!(base.search("hello there", &vec![]), NOTHING);
    assert_eq!(base.search("", &vec![]), NOTHING);
}

#[test]
fn search_finds_note_by_keyword() {
    let base = KnowledgeBase::new();
    assert_eq!(
        base.search("How do I use a PDA?", &vec![]),
        format!("{}{}\n---\n", HEADING, PDA_GUIDE)
    );
}

#[test]
fn search_lists_notes_in_their_order() {
    let base = KnowledgeBase::new();
    assert_eq!(
        base.search("deploy my token and mint", &vec![]),
        format!("{}{}\n---\n{}\n---\n{}\n---\n", HEADING, CPI_GUIDE, DEPLOYMENT_GUIDE, TOKEN_GUIDE)
    );
}

#[test]
fn search_recommends_source_by_topic() {
    let base = KnowledgeBase::new();
    let sources = vec![
        source("Official", "https://solana.com/docs", "solana-docs"),
        source("", "https://example.org/other", "other-topic"),
    ];
    assert_eq!(
        base.search("where are the Solana Docs kept", &sources),
        format!(
            "{}{}- [solana-docs (Official)](https://solana.com/docs)\n- [other-topic](https://example.org/other)\n",
            HEADING, READING
        )
    );
}

#[test]
fn search_recommends_source_by_note() {
    let base = KnowledgeBase::new();
    let sources = vec![
        source("Guide to Staking Rewards", "https://a", "staking"),
        source("---internal", "https://b", "rewards-faq"),
    ];
    assert_eq!(
        base.search("Staking Rewards", &sources),
        format!("{}{}- [staking (Guide to Staking Rewards)](https://a)\n", HEADING, READING)
    );
    assert_eq!(base.search("sta", &sources), NOTHING);
}

#[test]
fn search_hides_notes_that_start_with_hyphens() {
    let base = KnowledgeBase::new();
    let sources = vec![source("---internal", "https://b", "rewards-faq")];
    assert_eq!(
        base.search("rewards faq", &sources),
        format!("{}{}- [rewards-faq](https://b)\n", HEADING, READING)
    );
}

#[test]
fn search_for_reference_lists_every_source() {
    let base = KnowledgeBase::new();
    let sources = fallback_sources();
    assert_eq!(
        base.search("I want to LEARN about cpi", &sources),
        format!(
            "{}{}\n---\n{}- [solana-docs (Fallback)](https://solana.com/docs)\n- [anchor-docs (Fallback)](https://www.anchor-lang.com/docs)\n",
            HEADING, CPI_GUIDE, READING
        )
    );
}

#[test]
fn fallback_sources_are_two() {
    assert_eq!(
        fallback_sources(),
        vec![
            source("Fallback", "https://solana.com/docs", "solana-docs"),
            source("Fallback", "https://www.anchor-lang.com/docs", "anchor-docs"),
        ]
    );
}

#[test]
fn trusted_sources_prefer_the_loaded_list() {
    let loaded = vec![source("n", "u", "t")];
    assert_eq!(get_trusted_sources(Some(loaded.clone())), loaded);
    assert_eq!(get_trusted_sources(Some(vec![])), vec![]);
    assert_eq!(get_trusted_sources(None), fallback_sources());
}

#[test]
fn error_solutions_text() {
    let text = get_error_solutions();
    assert!(text.starts_with("\n    --- KNOWLEDGE BASE: COMPREHENSIVE ERROR SOLUTIONS ---\n"));
    assert!(text.contains("[STACK: RUST / CARGO]"));
    assert!(text.ends_with("Once done, please ask me to continue.\"\n    "));
    assert_eq!(text.len(), 4109);
}

#[test]
fn architect_prompt_ends_with_error_solutions() {
    let prompt = get_architect_prompt();
    assert_eq!(prompt, format!("{}{}\n", ARCHITECT_PROMPT_HEAD, get_error_solutions()));
    assert!(prompt.starts_with("\nYOU ARE NEURUST.\n"));
    assert!(prompt.contains("OUTPUT FORMAT (STRICT JSON ONLY):\n{\n    \"suggested_name\""));
    assert!(prompt.contains("    \"plan\": [] \n}\n"));
    assert!(SYSTEM_AUDITOR.contains("## ✅ Safe Patterns Detected"));
}

#[test]
fn staff_is_never_charged() {
    for role in [UserRole::SuperAdmin, UserRole::Admin, UserRole::Team] {
        assert!(role.has_free_pass());
        assert!(has_sufficient_credits(role, 0));
        assert!(has_sufficient_credits(role, -3));
        assert_eq!(credits_to_charge(role, 40), 0);
    }
}

#[test]
fn users_need_five_credits() {
    for role in [UserRole::Pro, UserRole::Free] {
        assert!(!role.has_free_pass());
        assert!(has_sufficient_credits(role, 5));
        assert!(has_sufficient_credits(role, 100));
        assert!(!has_sufficient_credits(role, 4));
        assert!(!has_sufficient_credits(role, 0));
    }
}

#[test]
fn users_are_charged_at_least_one_credit() {
    assert_eq!(credits_to_charge(UserRole::Free, 0), 1);
    assert_eq!(credits_to_charge(UserRole::Free, -2), 1);
    assert_eq!(credits_to_charge(UserRole::Free, 1), 1);
    assert_eq!(credits_to_charge(UserRole::Pro, 37), 37);
}

#[test]
fn role_names() {
    assert_eq!(UserRole::SuperAdmin.name(), "super_admin");
    assert_eq!(UserRole::Admin.name(), "admin");
    assert_eq!(UserRole::Team.name(), "team");
    assert_eq!(UserRole::Pro.name(), "pro");
    assert_eq!(UserRole::Free.name(), "free");
}

#[test]
fn device_status_from_text() {
    assert_eq!(DeviceStatus::from_text("verified"), DeviceStatus::Verified);
    assert_eq!(DeviceStatus::from_text("expired"), DeviceStatus::Expired);
    assert_eq!(DeviceStatus::from_text("pending"), DeviceStatus::Pending);
    assert_eq!(DeviceStatus::from_text("Verified"), DeviceStatus::Pending);
    assert_eq!(DeviceStatus::from_text(""), DeviceStatus::Pending);
}

#[test]
fn usage_of_nothing() {
    assert_eq!(
        UsageStats::none(),
        UsageStats { prompt_tokens: 0, completion_tokens: 0, total_tokens: 0 }
    );
}

#[test]
fn owner_wallet_needs_configuration() {
    assert!(is_super_admin_wallet("W1", "W1"));
    assert!(!is_super_admin_wallet("W1", "W2"));
    assert!(!is_super_admin_wallet("", ""));
    assert!(!is_super_admin_wallet("W1", ""));
}

#[test]
fn starting_grants() {
    assert_eq!(starting_grant(true), (UserRole::SuperAdmin, 999999));
    assert_eq!(starting_grant(false), (UserRole::Free, 50));
}

#[test]
fn premium_models_by_name() {
    assert!(is_premium_model("openai/gpt-5.1-codex-max"));
    assert!(is_premium_model("openai/gpt-4o"));
    assert!(is_premium_model("vendor/opus-large"));
    assert!(!is_premium_model("openai/gpt-5.1-codex-mini"));
    assert!(!is_premium_model(""));
}

#[test]
fn scaffold_commands_by_framework() {
    let line = create("demo", "Anchor").scaffold_command().unwrap();
    assert_eq!(line.program, "anchor");
    assert_eq!(line.args, vec!["init", "demo"]);
    for framework in ["Native", "Rust"] {
        let line = create("demo", framework).scaffold_command().unwrap();
        assert_eq!(line.program, "cargo");
        assert_eq!(line.args, vec!["new", "demo", "--bin"]);
    }
    let line = create("web", "NextJS").scaffold_command().unwrap();
    assert_eq!(line.program, "npx");
    assert_eq!(
        line.args,
        vec![
            "create-next-app@latest", "web", "--typescript", "--tailwind", "--eslint",
            "--no-src-dir", "--import-alias", "@/*", "--use-npm", "--yes",
        ]
    );
    let line = create("ui", "React").scaffold_command().unwrap();
    assert_eq!(line.program, "npm");
    assert_eq!(line.args, vec!["create", "vite@latest", "ui", "--", "--template", "react-ts"]);
    let line = create("desk", "Tauri").scaffold_command().unwrap();
    assert_eq!(line.program, "npm");
    assert_eq!(
        line.args,
        vec![
            "create", "tauri-app@latest", "desk", "--", "--template", "react-ts", "--manager",
            "npm", "--yes",
        ]
    );
}

#[test]
fn unsupported_framework_has_no_command() {
    assert!(create("demo", "Django").scaffold_command().is_none());
    assert!(create("demo", "anchor").scaffold_command().is_none());
    assert!(create("demo", "").scaffold_command().is_none());
}

#[test]
fn dependencies_are_installed_for_some_frameworks() {
    assert!(create("x", "Anchor").installs_dependencies());
    assert!(create("x", "React").installs_dependencies());
    assert!(create("x", "Tauri").installs_dependencies());
    assert!(!create("x", "NextJS").installs_dependencies());
    assert!(!create("x", "Rust").installs_dependencies());
}

#[test]
fn project_paths() {
    assert_eq!(user_root(".", "WALLET"), "./WALLET");
    assert_eq!(create("demo", "Rust").project_path("/srv", "W"), "/srv/W/demo");
}

#[test]
fn project_ids_must_be_plain() {
    let valid = |id: &str| DeleteProjectRequest { id: String::from(id) }.is_valid();
    assert!(valid("my_app"));
    assert!(valid("a.b"));
    assert!(valid(""));
    assert!(!valid(".."));
    assert!(!valid("a/../b"));
    assert!(!valid("a/b"));
    assert!(!valid("a\\b"));
}

#[test]
fn role_is_read_back_from_its_name() {
    let roles = [
        UserRole::SuperAdmin,
        UserRole::Admin,
        UserRole::Team,
        UserRole::Pro,
        UserRole::Free,
    ];
    for role in roles {
        assert_eq!(UserRole::from_name(role.name()), Some(role));
    }
    assert_eq!(UserRole::from_name("super_admin"), Some(UserRole::SuperAdmin));
    assert_eq!(UserRole::from_name("owner"), None);
    assert_eq!(UserRole::from_name(""), None);
    assert_eq!(UserRole::from_name("Free"), None);
}
