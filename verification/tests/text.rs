use copilot_cli::text::{decimal, ends_with, is_blank, join, starts_with, strip_prefix};

#[test]
fn blank_lines() {
    assert!(is_blank(""));
    assert!(is_blank(" \t\r\n\u{b}\u{c}"));
    assert!(is_blank("\u{85}\u{a0}\u{3000}"));
    assert!(!is_blank(" x "));
    assert!(!is_blank("\u{200b}"));
    assert!(!is_blank("\u{180e}"));
}

#[test]
fn white_space_characters_are_the_listed_ones() {
    let listed = |c: char| {
        matches!(
            c,
            '\u{9}'..='\u{d}'
                | '\u{20}'
                | '\u{85}'
                | '\u{a0}'
                | '\u{1680}'
                | '\u{2000}'..='\u{200a}'
                | '\u{2028}'
                | '\u{2029}'
                | '\u{202f}'
                | '\u{205f}'
                | '\u{3000}'
        )
    };
    for c in '\u{0}'..=char::MAX {
        assert_eq!(is_blank(&c.to_string()), listed(c), "{:?}", c);
    }
}

#[test]
fn prefixes_and_suffixes() {
    assert!(starts_with("GITHUB_TOKEN", "GITHUB_"));
    assert!(!starts_with("GITHUB", "GITHUB_"));
    assert!(starts_with("x", ""));
    assert!(ends_with("MY_TOKEN", "_TOKEN"));
    assert!(ends_with("_TOKEN", "_TOKEN"));
    assert!(!ends_with("TOKEN", "_TOKEN"));
    assert!(!ends_with("MY_TOKENS", "_TOKEN"));
    assert!(ends_with("É_TOKEN", "_TOKEN"));
    assert_eq!(strip_prefix("ab", "a"), "b");
    assert_eq!(strip_prefix("ab", "b"), "ab");
    assert_eq!(strip_prefix("éa", "é"), "a");
}

#[test]
fn joining() {
    let parts = |list: &[&str]| list.iter().map(|s| s.to_string()).collect::<Vec<String>>();
    assert_eq!(join(&parts(&[]), ", "), "");
    assert_eq!(join(&parts(&["a"]), ", "), "a");
    assert_eq!(join(&parts(&["a", "", "c"]), ", "), "a, , c");
}

#[test]
fn decimal_numbers() {
    for n in [0, 7, 10, 127, 1_000, i32::MAX, -1, -10, i32::MIN] {
        assert_eq!(decimal(n), n.to_string());
    }
}
