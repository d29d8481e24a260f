use backend::api::llm::truncate;
use backend::api::logging::{truncate_for_log, LOG_PREVIEW_CHARS};

#[test]
fn does_not_append_ellipsis_when_within_char_limit() {
    assert_eq!(truncate_for_log("hello", 5), "hello");
    assert_eq!(truncate_for_log("héllo", 5), "héllo");
}

#[test]
fn appends_ellipsis_when_over_char_limit() {
    assert_eq!(truncate_for_log("abcdef", 5), "abcde...");
    assert_eq!(truncate_for_log("éééééé", 5), "ééééé...");
}

#[test]
fn exposes_named_default_preview_length() {
    assert_eq!(LOG_PREVIEW_CHARS, 50);
}

#[test]
fn truncate_returns_short_strings_unchanged() {
    assert_eq!(backend::utils::truncate_for_log("hi", 10), "hi");
}

#[test]
fn truncate_returns_exact_length_unchanged() {
    assert_eq!(backend::utils::truncate_for_log("hello", 5), "hello");
}

#[test]
fn truncate_shortens_long_strings() {
    assert_eq!(backend::utils::truncate_for_log("hello world", 5), "hello...");
}

#[test]
fn truncate_handles_empty_string() {
    assert_eq!(backend::utils::truncate_for_log("", 5), "");
}

#[test]
fn truncate_handles_zero_max() {
    assert_eq!(backend::utils::truncate_for_log("hello", 0), "...");
}

#[test]
fn char_preview_of_empty_text_with_zero_limit() {
    assert_eq!(truncate_for_log("", 0), "");
    assert_eq!(truncate_for_log("a", 0), "...");
}

#[test]
fn llm_truncate_keeps_whole_characters() {
    assert_eq!(truncate("ééé", 2), "éé...");
    assert_eq!(truncate("ab", 2), "ab");
}

#[test]
fn llm_truncate_counts_characters_not_bytes() {
    assert_eq!(truncate("éé", 2), "éé");
    assert_eq!(truncate("ééé", 5), "ééé");
}
