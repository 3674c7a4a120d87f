use vocabulary_builder::model::{WordListRequest, WordSort, WordStatus};
use vocabulary_builder::repository::plan_listing;
use vocabulary_builder::statements::{add_column_sql, count_statement, list_statement};
use vocabulary_builder::store::SqlValue;

fn shown(params: &[SqlValue]) -> Vec<String> {
    params
        .iter()
        .map(|p| match p {
            SqlValue::Text(t) => format!("text:{t}"),
            SqlValue::Integer(n) => format!("int:{n}"),
            SqlValue::Null => "null".to_string(),
        })
        .collect()
}

#[test]
fn listing_with_status_and_search() {
    let statement = list_statement(
        Some(WordStatus::Known),
        Some("%ab%"),
        WordSort::UpdatedAtAsc,
        20,
    );
    assert_eq!(
        statement.sql,
        "SELECT id, word, url, status, phonetic, parts_of_speech, created_at, updated_at FROM words WHERE status = ?1 AND word COLLATE NOCASE LIKE ?2 ESCAPE '\\' ORDER BY updated_at ASC, word COLLATE NOCASE ASC, id ASC LIMIT ?3 OFFSET ?4"
    );
    assert_eq!(shown(&statement.params), vec!["text:known", "text:%ab%", "int:10", "int:20"]);
}

#[test]
fn listing_without_filters() {
    let statement = list_statement(None, None, WordSort::WordAsc, 0);
    assert_eq!(
        statement.sql,
        "SELECT id, word, url, status, phonetic, parts_of_speech, created_at, updated_at FROM words ORDER BY word COLLATE NOCASE ASC, updated_at DESC, id ASC LIMIT ?1 OFFSET ?2"
    );
    assert_eq!(shown(&statement.params), vec!["int:10", "int:0"]);
}

#[test]
fn counting_by_search_only() {
    let statement = count_statement(None, Some("%x%"));
    assert_eq!(
        statement.sql,
        "SELECT COUNT(*) FROM words WHERE word COLLATE NOCASE LIKE ?1 ESCAPE '\\'"
    );
    assert_eq!(shown(&statement.params), vec!["text:%x%"]);
}

#[test]
fn adding_a_column() {
    assert_eq!(
        add_column_sql("phonetic", "TEXT"),
        "ALTER TABLE words ADD COLUMN phonetic TEXT"
    );
}

#[test]
fn a_listing_request_becomes_two_statements() {
    let plan = plan_listing(WordListRequest {
        status: Some(WordStatus::Known),
        query: Some("  a_b ".to_string()),
        sort: WordSort::WordAsc,
        page: 3,
    })
    .unwrap();
    assert_eq!(
        plan.count.sql,
        "SELECT COUNT(*) FROM words WHERE status = ?1 AND word COLLATE NOCASE LIKE ?2 ESCAPE '\\'"
    );
    assert_eq!(shown(&plan.count.params), vec!["text:known", "text:%a\\_b%"]);
    assert_eq!(
        shown(&plan.page.params),
        vec!["text:known", "text:%a\\_b%", "int:10", "int:20"]
    );
    let blank = plan_listing(WordListRequest {
        status: None,
        query: Some("   ".to_string()),
        sort: WordSort::UpdatedAtDesc,
        page: 1,
    })
    .unwrap();
    assert_eq!(blank.count.sql, "SELECT COUNT(*) FROM words");
    assert!(blank.count.params.is_empty());
    assert!(plan_listing(WordListRequest {
        status: None,
        query: None,
        sort: WordSort::UpdatedAtDesc,
        page: 0,
    })
    .is_err());
}
