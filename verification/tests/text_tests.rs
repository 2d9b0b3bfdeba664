use leptos_typeahead::{normalize, text_contains, trim};

#[test]
fn normalize_strips_marks_and_case() {
    assert_eq!(normalize("Crème BRÛLÉE"), "creme brulee");
    assert_eq!(normalize("abc"), "abc");
    assert_eq!(normalize(""), "");
}

#[test]
fn normalize_lowercases_beyond_ascii() {
    assert_eq!(normalize("ÀÉÎ STRASSE Ωμέγα"), "aei strasse ωμεγα");
}

#[test]
fn contains_is_substring_search() {
    assert!(text_contains("hello world", "o w"));
    assert!(text_contains("hello", ""));
    assert!(text_contains("", ""));
    assert!(!text_contains("hello", "world"));
    assert!(!text_contains("he", "hello"));
    assert!(text_contains("héllo", "él"));
}

#[test]
fn trim_removes_outer_white_space() {
    assert_eq!(trim("  a b \t\n"), "a b");
    assert_eq!(trim("\u{3000}x\u{3000}"), "x");
    assert_eq!(trim("   "), "");
    assert_eq!(trim(""), "");
    assert_eq!(trim("x"), "x");
}
