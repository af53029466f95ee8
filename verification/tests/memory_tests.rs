use neurust::memory::ProjectMemory;

#[test]
fn new_memory_is_empty() {
    let memory = ProjectMemory::new();
    assert_eq!(memory.project_name, "");
    assert_eq!(memory.last_interaction, "");
    assert_eq!(memory.summary, "");
    assert!(memory.pending_tasks.is_empty());
    assert!(memory.active_files.is_empty());
    assert_eq!(memory.project_context, "");
    assert!(memory.needs_scan());
}

#[test]
fn default_memory_is_empty() {
    let memory = ProjectMemory::default();
    assert_eq!(memory.summary, "");
    assert_eq!(memory.project_context, "");
    assert!(memory.needs_scan());
}

#[test]
fn memory_path_is_fixed() {
    assert_eq!(ProjectMemory::get_path(), ".neurust/memory.json");
}

#[test]
fn load_keeps_what_was_stored() {
    let mut stored = ProjectMemory::new();
    stored.summary = String::from("- Task: earlier\n");
    stored.project_context = String::from("cached");
    stored.pending_tasks = vec![String::from("one"), String::from("two")];
    let memory = ProjectMemory::load(Some(stored));
    assert_eq!(memory.summary, "- Task: earlier\n");
    assert_eq!(memory.project_context, "cached");
    assert_eq!(memory.pending_tasks, vec![String::from("one"), String::from("two")]);
    assert!(!memory.needs_scan());
}

#[test]
fn load_of_missing_store_is_empty() {
    let memory = ProjectMemory::load(None);
    assert_eq!(memory.summary, "");
    assert_eq!(memory.project_context, "");
    assert!(memory.pending_tasks.is_empty());
}

#[test]
fn append_file_context_adds_block() {
    let mut memory = ProjectMemory::new();
    memory.append_file_context("a.txt", "hello");
    assert_eq!(
        memory.project_context,
        "\n>>>> FILE START: a.txt <<<<\nhello\n>>>> FILE END: a.txt <<<<\n"
    );
}

#[test]
fn append_file_context_keeps_what_was_cached() {
    let mut memory = ProjectMemory::new();
    memory.project_context = String::from("scan");
    memory.summary = String::from("log");
    memory.append_file_context("src/lib.rs", "fn f() {}\n");
    memory.append_file_context("b", "");
    assert_eq!(
        memory.project_context,
        "scan\n>>>> FILE START: src/lib.rs <<<<\nfn f() {}\n\n>>>> FILE END: src/lib.rs <<<<\n\n>>>> FILE START: b <<<<\n\n>>>> FILE END: b <<<<\n"
    );
    assert_eq!(memory.summary, "log");
}

#[test]
fn record_task_starts_the_log() {
    let mut memory = ProjectMemory::new();
    memory.record_task("build it", String::from("2024-01-01T00:00:00+00:00"));
    assert_eq!(memory.summary, "- [2024-01-01T00:00:00+00:00] Task: build it\n");
    assert_eq!(memory.last_interaction, "2024-01-01T00:00:00+00:00");
    assert_eq!(memory.project_context, "");
}

#[test]
fn record_task_sets_entries_apart() {
    let mut memory = ProjectMemory::new();
    memory.record_task("first", String::from("t1"));
    memory.record_task("second", String::from("t2"));
    assert_eq!(memory.summary, "- [t1] Task: first\n\n- [t2] Task: second\n");
    assert_eq!(memory.last_interaction, "t2");
}

#[test]
fn update_summary_logs_and_stamps() {
    let mut memory = ProjectMemory::new();
    memory.project_context = String::from("ctx");
    memory.update_summary("do this");
    assert_eq!(memory.project_context, "ctx");
    assert!(!memory.last_interaction.is_empty());
    assert!(memory.last_interaction.contains('T'));
    assert_eq!(memory.summary, format!("- [{}] Task: do this\n", memory.last_interaction));
}

#[test]
fn remember_scan_fills_empty_cache_only() {
    let mut memory = ProjectMemory::new();
    memory.remember_scan(String::from("first scan"));
    assert_eq!(memory.project_context, "first scan");
    memory.remember_scan(String::from("second scan"));
    assert_eq!(memory.project_context, "first scan");
    assert!(!memory.needs_scan());
}

#[test]
fn planning_context_joins_cache_and_log() {
    let mut memory = ProjectMemory::new();
    memory.project_context = String::from("files");
    memory.summary = String::from("- Task: x\n");
    assert_eq!(memory.planning_context(), "files\n- Task: x\n");
}
