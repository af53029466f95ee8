use neurust::text::{
    chars_of, contains_text, ends_with_text, eq_ignore_ascii_case, prefix_chars,
    replace_char, stands_at, starts_with_text, string_of, text_eq, to_ascii_lower,
};

#[test]
fn chars_and_back() {
    let chars = chars_of("héllo");
    assert_eq!(chars, vec!['h', 'é', 'l', 'l', 'o']);
    assert_eq!(string_of(&chars), "héllo");
    assert_eq!(string_of(&Vec::new()), "");
}

#[test]
fn text_eq_compares_characters() {
    assert!(text_eq("abc", "abc"));
    assert!(!text_eq("abc", "abd"));
    assert!(!text_eq("abc", "ab"));
    assert!(text_eq("", ""));
}

#[test]
fn contains_finds_inner_text() {
    assert!(contains_text("hello world", "lo w"));
    assert!(contains_text("hello", ""));
    assert!(contains_text("", ""));
    assert!(contains_text("hello", "hello"));
    assert!(contains_text("aab", "ab"));
    assert!(!contains_text("hello", "world"));
    assert!(!contains_text("ab", "abc"));
    assert!(!contains_text("", "a"));
}

#[test]
fn starts_and_ends() {
    assert!(starts_with_text("---note", "---"));
    assert!(!starts_with_text("--note", "---"));
    assert!(starts_with_text("x", ""));
    assert!(ends_with_text("data.json", ".json"));
    assert!(!ends_with_text("data.jsonl", ".json"));
    assert!(!ends_with_text("on", ".json"));
    assert!(ends_with_text("", ""));
}

#[test]
fn ascii_lower_maps_capitals_only() {
    assert_eq!(to_ascii_lower('A'), 'a');
    assert_eq!(to_ascii_lower('Z'), 'z');
    assert_eq!(to_ascii_lower('q'), 'q');
    assert_eq!(to_ascii_lower('@'), '@');
    assert_eq!(to_ascii_lower('['), '[');
    assert_eq!(to_ascii_lower('É'), 'É');
}

#[test]
fn eq_ignore_ascii_case_matches_std() {
    assert!(eq_ignore_ascii_case("EXIT", "exit"));
    assert!(eq_ignore_ascii_case("Quit", "quit"));
    assert!(!eq_ignore_ascii_case("exit ", "exit"));
    assert!(!eq_ignore_ascii_case("exot", "exit"));
    assert!(eq_ignore_ascii_case("", ""));
    assert!(!eq_ignore_ascii_case("É", "é"));
}

#[test]
fn replace_char_replaces_every_one() {
    assert_eq!(replace_char("solana-docs-v2", '-', ' '), "solana docs v2");
    assert_eq!(replace_char("plain", '-', ' '), "plain");
    assert_eq!(replace_char("", '-', ' '), "");
}

#[test]
fn prefix_chars_counts_characters() {
    assert_eq!(prefix_chars("héllo", 2), "hé");
    assert_eq!(prefix_chars("héllo", 5), "héllo");
    assert_eq!(prefix_chars("héllo", 9), "héllo");
    assert_eq!(prefix_chars("héllo", 0), "");
}

#[test]
fn trim_takes_white_space_off_both_ends() {
    let trim = |text: &str| neurust::text::trim_text(text);
    assert_eq!(trim("  a b \n"), "a b");
    assert_eq!(trim("\u{a0}x\u{2003}"), "x");
    assert_eq!(trim("x"), "x");
    assert_eq!(trim(" \t\r\n"), "");
    assert_eq!(trim(""), "");
    for text in ["  a b \n", "", " ", "é  ", "\u{feff}x", "a\u{200b}"] {
        assert_eq!(trim(text), text.trim());
    }
}

#[test]
fn white_space_is_what_std_says() {
    for code in 0..=0x10ffffu32 {
        if let Some(c) = char::from_u32(code) {
            assert_eq!(neurust::text::is_space(c), c.is_whitespace());
        }
    }
}

#[test]
fn ascii_capitals_are_lowered() {
    assert_eq!(
        neurust::text::ascii_lowered_chars("ColSPAN É"),
        vec!['c', 'o', 'l', 's', 'p', 'a', 'n', ' ', 'É']
    );
}

#[test]
fn pattern_stands_at_a_position() {
    let text: Vec<char> = "abcabc".chars().collect();
    let pattern: Vec<char> = "bc".chars().collect();
    assert!(!stands_at(&text, &pattern, 0));
    assert!(stands_at(&text, &pattern, 1));
    assert!(stands_at(&text, &pattern, 4));
    assert!(!stands_at(&text, &pattern, 5));
    assert!(!stands_at(&text, &pattern, 6));
    assert!(!stands_at(&text, &pattern, usize::MAX));
    assert!(stands_at(&text, &Vec::new(), 6));
    assert!(!stands_at(&text, &Vec::new(), 7));
}
