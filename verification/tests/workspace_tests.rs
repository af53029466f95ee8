use neurust::workspace::{
    find_match, is_close_search_hit, is_excluded_search_path, is_ignored_entry, is_search_hit,
    scan_header, scanned_block, within_scan_depth, Candidate,
};

fn candidate(path: &str, ends_with_target: bool) -> Candidate {
    let file_name = path.rsplit('/').next().map(String::from);
    Candidate { path: String::from(path), file_name, is_file: true, ends_with_target }
}

fn directory(path: &str) -> Candidate {
    Candidate { is_file: false, ..candidate(path, true) }
}

#[test]
fn hidden_and_output_entries_are_ignored() {
    for name in [".git", ".env", ".neurust", "target", "node_modules", "dist", "build", "out", "test-ledger"] {
        assert!(is_ignored_entry(name));
    }
}

#[test]
fn lock_files_pictures_and_data_are_ignored() {
    for name in [
        "package-lock.json", "yarn.lock", "Cargo.lock", "logo.png", "a.jpg", "b.jpeg", "c.gif",
        "d.svg", "favicon.ico", "paper.pdf", "program.so", "idl.json", "my-package-lock.json",
    ] {
        assert!(is_ignored_entry(name));
    }
}

#[test]
fn sources_and_essential_files_are_read() {
    for name in ["main.rs", "Cargo.toml", "package.json", "tsconfig.json", "Anchor.toml", "src", "README.md", "targets", "json", "outline"] {
        assert!(!is_ignored_entry(name));
    }
}

#[test]
fn scan_goes_five_directories_deep() {
    assert!(within_scan_depth(0));
    assert!(within_scan_depth(5));
    assert!(!within_scan_depth(6));
}

#[test]
fn small_file_enters_the_context_as_a_block() {
    assert_eq!(
        scanned_block("src/main.rs", "/work/src/main.rs", "fn main() {}\n"),
        "\n>>>> FILE START: src/main.rs <<<<\nfn main() {}\n\n>>>> FILE END: src/main.rs <<<<\n"
    );
}

#[test]
fn file_size_limit_is_in_bytes() {
    let just_under = "x".repeat(14_999);
    assert!(scanned_block("f", "/w/f", &just_under).starts_with("\n>>>> FILE START: f <<<<\n"));
    let at_limit = "x".repeat(15_000);
    assert_eq!(
        scanned_block("f", "/w/f", &at_limit),
        "\n--- FILE: /w/f (Skipped: Content too large) ---\n"
    );
    let wide = "é".repeat(7_500);
    assert_eq!(
        scanned_block("f", "/w/f", &wide),
        "\n--- FILE: /w/f (Skipped: Content too large) ---\n"
    );
}

#[test]
fn header_of_a_plain_directory() {
    assert_eq!(
        scan_header("/work", None, false, false),
        "\n--- CURRENT WORKING ENVIRONMENT ---\nDirectory: /work\n\n--- 📂 FULL PROJECT SOURCE CODE ---\n"
    );
}

#[test]
fn header_names_every_kind_of_project() {
    assert_eq!(
        scan_header("/w", Some("[package]\nname = \"x\"\n"), true, true),
        "\n--- CURRENT WORKING ENVIRONMENT ---\nDirectory: /w\n✅ Type: Rust Single Package\n✅ Type: Node.js / Web Project\n✅ Type: Solana Anchor Project\n\n--- 📂 FULL PROJECT SOURCE CODE ---\n"
    );
}

#[test]
fn header_tells_workspace_from_package() {
    let virtual_root = scan_header("/w", Some("[workspace]\nmembers = []\n"), false, false);
    assert!(virtual_root.contains("✅ Type: Rust Virtual Workspace (Root)\n"));
    let both = scan_header("/w", Some("[workspace]\n[package]\n"), false, false);
    assert!(both.contains("✅ Type: Rust Single Package\n"));
    let neither = scan_header("/w", Some(""), false, false);
    assert!(neither.contains("✅ Type: Rust Single Package\n"));
}

#[test]
fn search_passes_over_build_and_package_directories() {
    assert!(is_excluded_search_path("./target/debug/lib.rs"));
    assert!(is_excluded_search_path("./.git/config"));
    assert!(is_excluded_search_path("./web/node_modules/x/index.js"));
    assert!(!is_excluded_search_path("./src/target.rs"));
    assert!(!is_excluded_search_path("./targets/lib.rs"));
    assert!(!is_excluded_search_path("target/lib.rs"));
}

#[test]
fn search_hit_is_a_file_of_the_same_name() {
    let name = Some("lib.rs");
    assert!(is_search_hit(&candidate("./programs/app/src/lib.rs", true), name));
    assert!(is_search_hit(&candidate("./other/lib.rs", false), name));
    assert!(!is_search_hit(&candidate("./other/mylib.rs", false), name));
    assert!(!is_search_hit(&candidate("./target/src/lib.rs", true), name));
    assert!(!is_search_hit(&candidate("./.git/lib.rs", true), name));
    assert!(!is_search_hit(&candidate("./web/node_modules/x/lib.rs", true), name));
    assert!(!is_search_hit(&directory("./src/lib.rs"), name));
    assert!(!is_search_hit(&candidate("./src/lib.rs", true), None));
}

#[test]
fn close_hit_ends_as_the_target_does() {
    let name = Some("lib.rs");
    assert!(is_close_search_hit(&candidate("./app/src/lib.rs", true), "src/lib.rs", name));
    assert!(is_close_search_hit(&candidate("./app/src/lib.rs", false), "src/lib.rs", name));
    assert!(!is_close_search_hit(&candidate("./app/lib.rs", false), "src/lib.rs", name));
    assert!(!is_close_search_hit(&directory("./app/src/lib.rs"), "src/lib.rs", name));
}

#[test]
fn find_match_takes_a_file_of_the_same_name() {
    let candidates = vec![
        directory("./lib"),
        candidate("./lib/main.rs", false),
        candidate("./lib/util.rs", false),
    ];
    assert_eq!(find_match(&candidates, "src/util.rs", Some("util.rs")), Some(2));
}

#[test]
fn find_match_prefers_the_path_that_ends_as_the_target() {
    let candidates = vec![
        candidate("./target/src/util.rs", true),
        candidate("./lib/util.rs", false),
        directory("./x/src/util.rs"),
        candidate("./app/src/util.rs", true),
        candidate("./b/src/util.rs", true),
    ];
    assert_eq!(find_match(&candidates, "src/util.rs", Some("util.rs")), Some(3));
    assert_eq!(find_match(&candidates[..3].to_vec(), "src/util.rs", Some("util.rs")), Some(1));
}

#[test]
fn find_match_finds_nothing_without_a_hit() {
    let candidates = vec![
        candidate("./target/a/lib.rs", true),
        candidate("./a/main.rs", false),
        directory("./a/lib.rs"),
    ];
    assert_eq!(find_match(&candidates, "lib.rs", Some("lib.rs")), None);
    assert_eq!(find_match(&vec![], "lib.rs", Some("lib.rs")), None);
}

#[test]
fn target_without_a_file_name_means_no_file() {
    let candidates = vec![candidate("./a/lib.rs", true), candidate("./..", true)];
    assert_eq!(find_match(&candidates, "..", None), None);
    assert_eq!(find_match(&candidates, "", None), None);
}
