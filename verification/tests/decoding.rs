use vocabulary_builder::model::{WordSort, WordStatus};
use vocabulary_builder::repository::{
    first_word, page_offset, row_to_word, rows_to_words, total_from_count,
};
use vocabulary_builder::store::StoredWordRow;

fn row(id: &str, status: &str, parts: &str) -> StoredWordRow {
    StoredWordRow {
        id: id.to_string(),
        word: "word".to_string(),
        url: "https://example.com".to_string(),
        status: status.to_string(),
        phonetic: Some("/w/".to_string()),
        parts_of_speech: parts.to_string(),
        created_at: 1,
        updated_at: 2,
    }
}

#[test]
fn decodes_a_stored_row() {
    let word = row_to_word(row("a", "known", "[\"noun\",\"verb\"]")).unwrap();
    assert_eq!(word.id, "a");
    assert_eq!(word.status, WordStatus::Known);
    assert_eq!(word.phonetic.as_deref(), Some("/w/"));
    assert_eq!(word.parts_of_speech, vec!["noun".to_string(), "verb".to_string()]);
    assert_eq!((word.created_at, word.updated_at), (1, 2));
}

#[test]
fn unknown_status_is_a_conversion_error_of_column_zero() {
    assert_eq!(
        row_to_word(row("a", "archived", "[]")).unwrap_err(),
        "Conversion error from type Text at index: 0, Unknown word status: archived"
    );
}

#[test]
fn bad_parts_json_is_reported_before_the_status() {
    let message = row_to_word(row("a", "archived", "not json")).unwrap_err();
    assert!(message.starts_with(
        "Conversion error from type Text at index: 5, Invalid parts of speech JSON: "
    ));
}

#[test]
fn rows_decode_in_order_and_stop_at_the_first_bad_one() {
    let words = rows_to_words(vec![row("a", "known", "[]"), row("b", "familiar", "[]")]).unwrap();
    assert_eq!(words.iter().map(|w| w.id.as_str()).collect::<Vec<_>>(), vec!["a", "b"]);
    let error = rows_to_words(vec![
        row("a", "known", "[]"),
        row("b", "first", "[]"),
        row("c", "second", "[]"),
    ])
    .unwrap_err();
    assert!(error.ends_with("Unknown word status: first"));
}

#[test]
fn first_word_takes_the_first_row() {
    assert!(first_word(vec![]).unwrap().is_none());
    let found = first_word(vec![row("a", "known", "[]"), row("b", "bad", "[]")]).unwrap();
    assert_eq!(found.unwrap().id, "a");
}

#[test]
fn counts_must_fit_in_u32() {
    assert_eq!(total_from_count(11), Ok(11));
    assert_eq!(total_from_count(u32::MAX as i64), Ok(u32::MAX));
    assert_eq!(
        total_from_count(u32::MAX as i64 + 1).unwrap_err(),
        "Word count exceeds the supported range."
    );
    assert!(total_from_count(-1).is_err());
}

#[test]
fn page_offsets_step_by_page_size() {
    assert_eq!(page_offset(1), 0);
    assert_eq!(page_offset(2), 10);
    assert_eq!(page_offset(u32::MAX), (u32::MAX as i64 - 1) * 10);
}

#[test]
fn status_names_round_trip() {
    for status in [WordStatus::Unfamiliar, WordStatus::Known, WordStatus::Familiar] {
        assert_eq!(WordStatus::from_str(status.as_str()), Ok(status));
    }
    assert_eq!(WordStatus::Unfamiliar.as_str(), "unfamiliar");
    assert!(WordStatus::from_str("Known").is_err());
}

#[test]
fn sort_orders_name_their_columns() {
    assert_eq!(
        WordSort::UpdatedAtDesc.order_by(),
        "updated_at DESC, word COLLATE NOCASE ASC, id ASC"
    );
    assert_eq!(
        WordSort::WordAsc.order_by(),
        "word COLLATE NOCASE ASC, updated_at DESC, id ASC"
    );
    assert_eq!(WordSort::default(), WordSort::UpdatedAtDesc);
}
