use leptos_typeahead::{
    default_filter_by, highlight_lowered, highlight_segments, is_option_selected,
    MatchSegment, TypeaheadOption,
};

fn seg(text: &str, matched: bool) -> MatchSegment {
    MatchSegment { text: text.to_string(), matched }
}

#[test]
fn default_filter_ignores_diacritics() {
    assert!(default_filter_by(&"Crème Brûlée".to_string(), "creme"));
    assert!(default_filter_by(&"Creme".to_string(), "crème"));
    assert!(default_filter_by(&"Ångström", "angstrom"));
}

#[test]
fn default_filter_ignores_case() {
    assert!(default_filter_by(&"TypeScript", "SCRIPT"));
    assert!(default_filter_by(&"rust", "RuSt"));
}

#[test]
fn default_filter_rejects_non_substrings() {
    assert!(!default_filter_by(&"Rust", "go"));
    assert!(!default_filter_by(&"Rust", "rusty"));
    assert!(!default_filter_by(&"", "a"));
}

#[test]
fn default_filter_empty_text_matches_everything() {
    assert!(default_filter_by(&"Rust", ""));
    assert!(default_filter_by(&"", ""));
}

#[test]
fn option_matches_its_own_label() {
    for label in ["Rust", "Crème Brûlée", "", "İstanbul", "  spaced  "] {
        assert!(default_filter_by(&label, label));
    }
}

#[test]
fn selected_membership() {
    let selected = vec!["a".to_string(), "b".to_string()];
    assert!(is_option_selected(&"b".to_string(), &selected));
    assert!(!is_option_selected(&"c".to_string(), &selected));
    assert!(!is_option_selected(&"a".to_string(), &[]));
}

#[test]
fn highlight_marks_every_occurrence() {
    assert_eq!(
        highlight_segments("Banana", "an"),
        vec![seg("B", false), seg("an", true), seg("an", true), seg("a", false)]
    );
}

#[test]
fn highlight_is_case_insensitive_and_keeps_original_case() {
    assert_eq!(
        highlight_segments("TypeScript", "SCRIPT"),
        vec![seg("Type", false), seg("Script", true)]
    );
}

#[test]
fn highlight_with_empty_search_is_whole_label() {
    assert_eq!(highlight_segments("abc", ""), vec![seg("abc", false)]);
    assert_eq!(highlight_segments("", ""), vec![seg("", false)]);
}

#[test]
fn highlight_of_empty_label_is_empty() {
    assert_eq!(highlight_segments("", "x"), Vec::<MatchSegment>::new());
}

#[test]
fn highlight_without_occurrence_is_one_unmatched_segment() {
    assert_eq!(highlight_segments("Rust", "go"), vec![seg("Rust", false)]);
}

#[test]
fn highlight_whole_label() {
    assert_eq!(highlight_segments("Go", "go"), vec![seg("Go", true)]);
}

#[test]
fn highlight_takes_occurrences_left_to_right_without_overlap() {
    assert_eq!(highlight_segments("aaa", "aa"), vec![seg("aa", true), seg("a", false)]);
}

#[test]
fn highlight_does_not_strip_diacritics() {
    assert_eq!(highlight_segments("Crème", "creme"), vec![seg("Crème", false)]);
}

#[test]
fn highlight_walks_chars_not_bytes() {
    assert_eq!(
        highlight_segments("ÉcoleÉ", "é"),
        vec![seg("É", true), seg("cole", false), seg("É", true)]
    );
}

#[test]
fn highlight_segments_rebuild_the_label() {
    for (label, search) in [("Banana", "an"), ("Mississippi", "ss"), ("abc", ""), ("", "q"), ("xyz", "XYZ")] {
        let joined: String = highlight_segments(label, search).iter().map(|s| s.text.as_str()).collect();
        assert_eq!(joined, label);
    }
}

#[test]
fn highlight_lowered_takes_a_lowercase_needle() {
    assert_eq!(highlight_lowered("ABab", "ab"), vec![seg("AB", true), seg("ab", true)]);
}

#[test]
fn highlight_with_search_that_changes_length_when_lowercased() {
    // "İ" lowercases to two chars, so only two-char windows are compared and
    // none of them lowercases to the same text: nothing is highlighted.
    assert_eq!(highlight_segments("xİy", "İ"), vec![seg("xİy", false)]);
    assert_eq!(highlight_segments("xİİ", "İİ"), vec![seg("xİİ", false)]);
}

#[test]
fn membership_uses_the_options_equality() {
    assert!(is_option_selected(&"Rust".to_string(), &["Go".to_string(), "Rust".to_string()]));
    assert!(!is_option_selected(&"rust".to_string(), &["Rust".to_string()]));
    assert!(is_option_selected(&"Go", &["Go", "Ruby"]));
    assert!(!is_option_selected(&"Rust", &["Go", "Ruby"]));
}

#[test]
fn value_defaults_to_label() {
    assert_eq!("Rust".to_string().value(), "Rust");
    assert_eq!("Rust".to_string().label(), "Rust");
    assert_eq!("Go".value(), "Go");
    assert_eq!("Go".label(), "Go");
}
