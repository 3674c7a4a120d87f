use vocabulary_builder::parts::normalize_parts_of_speech;
use vocabulary_builder::text::{normalize_search_query, search_pattern};

fn texts(items: &[&str]) -> Vec<String> {
    items.iter().map(|s| s.to_string()).collect()
}

#[test]
fn trims_unicode_white_space() {
    assert_eq!(
        normalize_search_query(Some("\u{3000} word\u{a0}\n".to_string())).as_deref(),
        Some("word")
    );
    assert_eq!(normalize_search_query(Some("\u{2003}\t".to_string())), None);
}

#[test]
fn search_query_is_trimmed_or_dropped() {
    assert_eq!(normalize_search_query(Some("  PHEM  ".to_string())).as_deref(), Some("PHEM"));
    assert_eq!(normalize_search_query(Some("   ".to_string())), None);
    assert_eq!(normalize_search_query(None), None);
}

#[test]
fn search_pattern_escapes_like_wildcards() {
    assert_eq!(search_pattern("ephem"), "%ephem%");
    assert_eq!(search_pattern("%_"), "%\\%\\_%");
    assert_eq!(search_pattern("a\\b"), "%a\\\\b%");
    assert_eq!(search_pattern(""), "%%");
}

#[test]
fn normalizes_parts_of_speech() {
    assert_eq!(
        normalize_parts_of_speech(texts(&["noun", "verb", "noun"])),
        texts(&["noun", "verb"])
    );
    assert_eq!(
        normalize_parts_of_speech(texts(&["  adjective ", "", "   ", "adjective"])),
        texts(&["adjective"])
    );
}

#[test]
fn normalizing_parts_twice_changes_nothing() {
    let once = normalize_parts_of_speech(texts(&[" b", "a ", "b", " ", "c"]));
    let twice = normalize_parts_of_speech(once.clone());
    assert_eq!(once, texts(&["b", "a", "c"]));
    assert_eq!(twice, once);
}

#[test]
fn normalizing_a_query_twice_changes_nothing() {
    let once = normalize_search_query(Some("\t ephem \u{a0}".to_string()));
    assert_eq!(normalize_search_query(once.clone()), once);
}
