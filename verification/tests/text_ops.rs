use typst_highlight::{contains_sub, eq_str, replace_sub, strip_trailing_newline};

#[test]
fn contains_finds_substrings() {
    assert!(contains_sub("abctypx", "typ"));
    assert!(contains_sub("typ", "typ"));
    assert!(contains_sub("xxtyp", "typ"));
    assert!(!contains_sub("python", "typ"));
    assert!(!contains_sub("", "typ"));
    assert!(contains_sub("anything", ""));
}

#[test]
fn replace_substitutes_every_occurrence() {
    assert_eq!(replace_sub("a#1bdf3363b", "#1bdf3363", "var(--fg)"), "avar(--fg)b");
    assert_eq!(
        replace_sub("#1bdf3363#1bdf3363", "#1bdf3363", "var(--fg)"),
        "var(--fg)var(--fg)"
    );
    assert_eq!(replace_sub("no match here", "#1bdf3363", "var(--fg)"), "no match here");
}

#[test]
fn replace_is_leftmost_and_non_overlapping() {
    assert_eq!(replace_sub("aaa", "aa", "b"), "ba");
    assert_eq!(replace_sub("abab", "ab", "x"), "xx");
}

#[test]
fn replace_with_empty_pattern_changes_nothing() {
    assert_eq!(replace_sub("abc", "", "x"), "abc");
}

#[test]
fn strip_removes_one_trailing_line_feed() {
    assert_eq!(strip_trailing_newline("ab\n"), "ab");
    assert_eq!(strip_trailing_newline("ab"), "ab");
    assert_eq!(strip_trailing_newline("ab\n\n"), "ab\n");
    assert_eq!(strip_trailing_newline(""), "");
    assert_eq!(strip_trailing_newline("\n"), "");
}

#[test]
fn eq_str_compares_by_characters() {
    assert!(eq_str("html", "html"));
    assert!(!eq_str("html", "epub"));
    assert!(!eq_str("html", "htm"));
    assert!(eq_str("", ""));
}
