//! The SQL statements of the notebook and the parameters bound to them.
use vstd::prelude::*;
use crate::model::{WordSort, WordStatus, WordRecord, WORDS_PER_PAGE, status_text, order_clause};
use crate::store::{SqlValue, SqlParam, params_view};

verus! {

/// Creates the table of word cards and its index when they are missing.
pub const SCHEMA_SQL: &'static str = "CREATE TABLE IF NOT EXISTS words (id TEXT PRIMARY KEY NOT NULL, word TEXT NOT NULL, url TEXT NOT NULL, status TEXT NOT NULL CHECK(status IN ('unfamiliar', 'known', 'familiar')), phonetic TEXT, parts_of_speech TEXT NOT NULL DEFAULT '[]', created_at INTEGER NOT NULL, updated_at INTEGER NOT NULL); CREATE INDEX IF NOT EXISTS idx_words_status_updated_at ON words(status, updated_at DESC);";

/// Lists the columns of the table of word cards, one row each.
pub const TABLE_INFO_SQL: &'static str = "PRAGMA table_info(words)";

/// Stores a new card.
pub const INSERT_WORD_SQL: &'static str = "INSERT INTO words (id, word, url, status, phonetic, parts_of_speech, created_at, updated_at) VALUES (?1, ?2, ?3, ?4, ?5, ?6, ?7, ?8)";

/// Rewrites the learner's fields of a card.
pub const UPDATE_WORD_SQL: &'static str = "UPDATE words SET word = ?1, url = ?2, status = ?3, updated_at = ?4 WHERE id = ?5";

/// Rewrites the dictionary fields of a card.
pub const UPDATE_DICTIONARY_SQL: &'static str = "UPDATE words SET phonetic = ?1, parts_of_speech = ?2, updated_at = ?3 WHERE id = ?4";

/// Removes a card.
pub const DELETE_WORD_SQL: &'static str = "DELETE FROM words WHERE id = ?1";

/// Reads one card by its id.
pub const FIND_WORD_SQL: &'static str = "SELECT id, word, url, status, phonetic, parts_of_speech, created_at, updated_at FROM words WHERE id = ?1";

/// The parts of speech of a card that has none, in JSON.
pub const EMPTY_PARTS_JSON: &'static str = "[]";

/// The start of every listing statement: the eight card columns.
pub open spec fn select_words_text() -> Seq<char> {
    "SELECT id, word, url, status, phonetic, parts_of_speech, created_at, updated_at FROM words"@
}

/// The `WHERE` clause of a listing or count: a status filter on `?1`, a
/// case-insensitive `LIKE` search with escape character `\` on the next
/// parameter, both, or none.
pub open spec fn filter_text(by_status: bool, by_search: bool) -> Seq<char> {
    if by_status && by_search {
        " WHERE status = ?1 AND word COLLATE NOCASE LIKE ?2 ESCAPE '\\'"@
    } else if by_status {
        " WHERE status = ?1"@
    } else if by_search {
        " WHERE word COLLATE NOCASE LIKE ?1 ESCAPE '\\'"@
    } else {
        ""@
    }
}

/// The `LIMIT` and `OFFSET` clause, numbered after the filter's parameters.
pub open spec fn page_text(by_status: bool, by_search: bool) -> Seq<char> {
    if by_status && by_search {
        " LIMIT ?3 OFFSET ?4"@
    } else if by_status || by_search {
        " LIMIT ?2 OFFSET ?3"@
    } else {
        " LIMIT ?1 OFFSET ?2"@
    }
}

/// The listing statement for a filter and an order.
pub open spec fn list_sql_text(by_status: bool, by_search: bool, sort: WordSort) -> Seq<char> {
    select_words_text() + filter_text(by_status, by_search) + " ORDER BY "@ + order_clause(sort)
        + page_text(by_status, by_search)
}

/// The counting statement for a filter.
pub open spec fn count_sql_text(by_status: bool, by_search: bool) -> Seq<char> {
    "SELECT COUNT(*) FROM words"@ + filter_text(by_status, by_search)
}

/// A statement that counts the cards passing a filter: the counting text of
/// some status filter and search pattern, with their parameters.
pub open spec fn is_count_statement(statement: SqlStatement) -> bool {
    exists|status: Option<WordStatus>, pattern: Option<Seq<char>>|
        #![trigger filter_params(status, pattern)]
        statement.sql@ == count_sql_text(status is Some, pattern is Some) && params_view(
            statement.params@,
        ) == filter_params(status, pattern)
}

/// A statement whose rows are whole cards, their eight columns in the order
/// the decoder reads them: a listing of some filter, order and offset, or the
/// lookup of one id.
pub open spec fn reads_cards(statement: SqlStatement) -> bool {
    ||| exists|status: Option<WordStatus>, pattern: Option<Seq<char>>, sort: WordSort, offset: i64|
        #![trigger list_params(status, pattern, offset), list_sql_text(status is Some, pattern is Some, sort)]
        statement.sql@ == list_sql_text(status is Some, pattern is Some, sort) && params_view(
            statement.params@,
        ) == list_params(status, pattern, offset)
    ||| statement.sql@ == FIND_WORD_SQL@ && params_view(statement.params@).len() == 1
        && params_view(statement.params@)[0] is Text
}

/// The parameters of a filter: the status name, then the search pattern, each
/// when present.
pub open spec fn filter_params(status: Option<WordStatus>, pattern: Option<Seq<char>>) -> Seq<
    SqlParam,
> {
    (match status {
        Some(s) => seq![SqlParam::Text(status_text(s))],
        None => seq![],
    }) + (match pattern {
        Some(p) => seq![SqlParam::Text(p)],
        None => seq![],
    })
}

/// The parameters of a listing: the filter's, then the page size and offset.
pub open spec fn list_params(status: Option<WordStatus>, pattern: Option<Seq<char>>, offset: i64) -> Seq<
    SqlParam,
> {
    filter_params(status, pattern) + seq![
        SqlParam::Integer(WORDS_PER_PAGE as i64),
        SqlParam::Integer(offset),
    ]
}

/// A statement and the parameters bound to it.
pub struct SqlStatement {
    pub sql: String,
    pub params: Vec<SqlValue>,
}

/// The parameters of a status filter and a search pattern.
fn filter_values(status: Option<WordStatus>, pattern: Option<&str>) -> (r: Vec<SqlValue>)
    ensures
        params_view(r@) == filter_params(status, pattern.deep_view()),
{
    let mut params: Vec<SqlValue> = Vec::new();
    match status {
        Some(s) => params.push(SqlValue::Text(s.as_str().to_string())),
        None => {},
    }
    match pattern {
        Some(p) => params.push(SqlValue::Text(p.to_string())),
        None => {},
    }
    assert(params_view(params@) =~= filter_params(status, pattern.deep_view()));
    params
}

/// The `WHERE` clause for a filter.
fn filter_sql(by_status: bool, by_search: bool) -> (r: &'static str)
    ensures
        r@ == filter_text(by_status, by_search),
{
    if by_status && by_search {
        " WHERE status = ?1 AND word COLLATE NOCASE LIKE ?2 ESCAPE '\\'"
    } else if by_status {
        " WHERE status = ?1"
    } else if by_search {
        " WHERE word COLLATE NOCASE LIKE ?1 ESCAPE '\\'"
    } else {
        ""
    }
}

/// The listing statement for one page: the cards that pass the filter, in the
/// requested order, at most one page of them from `offset` on.
pub fn list_statement(
    status: Option<WordStatus>,
    pattern: Option<&str>,
    sort: WordSort,
    offset: i64,
) -> (r: SqlStatement)
    ensures
        r.sql@ == list_sql_text(status is Some, pattern is Some, sort),
        params_view(r.params@) == list_params(status, pattern.deep_view(), offset),
{
    let by_status = status.is_some();
    let by_search = pattern.is_some();
    let mut sql = "SELECT id, word, url, status, phonetic, parts_of_speech, created_at, updated_at FROM words".to_string();
    sql.append(filter_sql(by_status, by_search));
    sql.append(" ORDER BY ");
    sql.append(sort.order_by());
    if by_status && by_search {
        sql.append(" LIMIT ?3 OFFSET ?4");
    } else if by_status || by_search {
        sql.append(" LIMIT ?2 OFFSET ?3");
    } else {
        sql.append(" LIMIT ?1 OFFSET ?2");
    }
    let mut params = filter_values(status, pattern);
    let ghost before = params@;
    params.push(SqlValue::Integer(WORDS_PER_PAGE as i64));
    params.push(SqlValue::Integer(offset));
    assert(params@ =~= before + seq![
        SqlValue::Integer(WORDS_PER_PAGE as i64),
        SqlValue::Integer(offset),
    ]);
    assert(params_view(params@) =~= list_params(status, pattern.deep_view(), offset));
    assert(sql@ =~= list_sql_text(by_status, by_search, sort));
    SqlStatement { sql, params }
}

/// The statement that counts the cards that pass a filter.
pub fn count_statement(status: Option<WordStatus>, pattern: Option<&str>) -> (r: SqlStatement)
    ensures
        r.sql@ == count_sql_text(status is Some, pattern is Some),
        params_view(r.params@) == filter_params(status, pattern.deep_view()),
{
    let mut sql = "SELECT COUNT(*) FROM words".to_string();
    sql.append(filter_sql(status.is_some(), pattern.is_some()));
    SqlStatement { sql, params: filter_values(status, pattern) }
}

/// The parameters that store a new card: id, word, URL, status name,
/// phonetic spelling (or `NULL`), parts of speech as JSON, creation and update
/// times.
pub open spec fn insert_params(record: WordRecord, parts_json: Seq<char>) -> Seq<SqlParam> {
    seq![
        SqlParam::Text(record.id),
        SqlParam::Text(record.word),
        SqlParam::Text(record.url),
        SqlParam::Text(status_text(record.status)),
        match record.phonetic {
            Some(p) => SqlParam::Text(p),
            None => SqlParam::Null,
        },
        SqlParam::Text(parts_json),
        SqlParam::Integer(record.created_at),
        SqlParam::Integer(record.updated_at),
    ]
}

/// A text parameter, or `NULL` when absent.
fn optional_text(value: &Option<String>) -> (r: SqlValue)
    ensures
        r@ == match value.deep_view() {
            Some(p) => SqlParam::Text(p),
            None => SqlParam::Null,
        },
{
    match value {
        Some(p) => SqlValue::Text(p.clone()),
        None => SqlValue::Null,
    }
}

/// The statement that stores a new card whose parts of speech are given as
/// JSON.
pub fn insert_statement(record: &crate::model::VocabularyWord, parts_json: &str) -> (r: SqlStatement)
    ensures
        r.sql@ == INSERT_WORD_SQL@,
        params_view(r.params@) == insert_params(record@, parts_json@),
{
    let params = vec![
        SqlValue::Text(record.id.clone()),
        SqlValue::Text(record.word.clone()),
        SqlValue::Text(record.url.clone()),
        SqlValue::Text(record.status.as_str().to_string()),
        optional_text(&record.phonetic),
        SqlValue::Text(parts_json.to_string()),
        SqlValue::Integer(record.created_at),
        SqlValue::Integer(record.updated_at),
    ];
    assert(params_view(params@) =~= insert_params(record@, parts_json@));
    SqlStatement { sql: INSERT_WORD_SQL.to_string(), params }
}

/// The parameters that rewrite a card: word, URL, status name, update time,
/// then the id of the card.
pub open spec fn update_params(
    id: Seq<char>,
    word: Seq<char>,
    url: Seq<char>,
    status: WordStatus,
    updated_at: i64,
) -> Seq<SqlParam> {
    seq![
        SqlParam::Text(word),
        SqlParam::Text(url),
        SqlParam::Text(status_text(status)),
        SqlParam::Integer(updated_at),
        SqlParam::Text(id),
    ]
}

/// The parameters that store dictionary data: the phonetic spelling (or
/// `NULL`), the parts of speech as JSON, the update time, then the id.
pub open spec fn dictionary_params(
    id: Seq<char>,
    phonetic: Option<Seq<char>>,
    parts_json: Seq<char>,
    updated_at: i64,
) -> Seq<SqlParam> {
    seq![
        match phonetic {
            Some(p) => SqlParam::Text(p),
            None => SqlParam::Null,
        },
        SqlParam::Text(parts_json),
        SqlParam::Integer(updated_at),
        SqlParam::Text(id),
    ]
}

/// The statement that rewrites the word, URL, status and update time of the
/// card `id`.
pub fn update_statement(id: &str, word: &str, url: &str, status: WordStatus, updated_at: i64) -> (r:
    SqlStatement)
    ensures
        r.sql@ == UPDATE_WORD_SQL@,
        params_view(r.params@) == update_params(id@, word@, url@, status, updated_at),
{
    let params = vec![
        SqlValue::Text(word.to_string()),
        SqlValue::Text(url.to_string()),
        SqlValue::Text(status.as_str().to_string()),
        SqlValue::Integer(updated_at),
        SqlValue::Text(id.to_string()),
    ];
    assert(params_view(params@) =~= seq![
        SqlParam::Text(word@),
        SqlParam::Text(url@),
        SqlParam::Text(status_text(status)),
        SqlParam::Integer(updated_at),
        SqlParam::Text(id@),
    ]);
    SqlStatement { sql: UPDATE_WORD_SQL.to_string(), params }
}

/// The statement that rewrites the phonetic spelling, the parts of speech (as
/// JSON) and the update time of the card `id`.
pub fn dictionary_statement(
    id: &str,
    phonetic: &Option<String>,
    parts_json: &str,
    updated_at: i64,
) -> (r: SqlStatement)
    ensures
        r.sql@ == UPDATE_DICTIONARY_SQL@,
        params_view(r.params@) == dictionary_params(id@, phonetic.deep_view(), parts_json@, updated_at),
{
    let params = vec![
        optional_text(phonetic),
        SqlValue::Text(parts_json.to_string()),
        SqlValue::Integer(updated_at),
        SqlValue::Text(id.to_string()),
    ];
    assert(params_view(params@) =~= seq![
        match phonetic.deep_view() {
            Some(p) => SqlParam::Text(p),
            None => SqlParam::Null,
        },
        SqlParam::Text(parts_json@),
        SqlParam::Integer(updated_at),
        SqlParam::Text(id@),
    ]);
    SqlStatement { sql: UPDATE_DICTIONARY_SQL.to_string(), params }
}

/// A statement whose only parameter is the id of a card.
pub fn id_statement(sql: &str, id: &str) -> (r: SqlStatement)
    ensures
        r.sql@ == sql@,
        params_view(r.params@) == seq![SqlParam::Text(id@)],
{
    let params = vec![SqlValue::Text(id.to_string())];
    assert(params_view(params@) =~= seq![SqlParam::Text(id@)]);
    SqlStatement { sql: sql.to_string(), params }
}

/// The statement that adds a column to the table of word cards.
pub open spec fn add_column_text(column: Seq<char>, definition: Seq<char>) -> Seq<char> {
    "ALTER TABLE words ADD COLUMN "@ + column + " "@ + definition
}

/// The statement that adds a column to the table of word cards.
pub fn add_column_sql(column: &str, definition: &str) -> (r: String)
    ensures
        r@ == add_column_text(column@, definition@),
{
    let mut sql = "ALTER TABLE words ADD COLUMN ".to_string();
    sql.append(column);
    sql.append(" ");
    sql.append(definition);
    sql
}

/// The card columns, in the order in which the card statements name them.
pub open spec fn card_columns() -> Seq<Seq<char>> {
    seq![
        "id"@,
        "word"@,
        "url"@,
        "status"@,
        "phonetic"@,
        "parts_of_speech"@,
        "created_at"@,
        "updated_at"@,
    ]
}

/// Column names separated by commas.
pub open spec fn column_list(names: Seq<Seq<char>>) -> Seq<char>
    decreases names.len(),
{
    if names.len() == 0 {
        seq![]
    } else if names.len() == 1 {
        names[0]
    } else {
        column_list(names.drop_last()) + ", "@ + names.last()
    }
}

/// The value that a card, its parts of speech written as `parts_json`, gives
/// to the column named `column`: the field of that name.
pub open spec fn card_column_value(record: WordRecord, parts_json: Seq<char>, column: Seq<char>) -> SqlParam {
    if column == "id"@ {
        SqlParam::Text(record.id)
    } else if column == "word"@ {
        SqlParam::Text(record.word)
    } else if column == "url"@ {
        SqlParam::Text(record.url)
    } else if column == "status"@ {
        SqlParam::Text(status_text(record.status))
    } else if column == "phonetic"@ {
        match record.phonetic {
            Some(p) => SqlParam::Text(p),
            None => SqlParam::Null,
        }
    } else if column == "parts_of_speech"@ {
        SqlParam::Text(parts_json)
    } else if column == "created_at"@ {
        SqlParam::Integer(record.created_at)
    } else {
        SqlParam::Integer(record.updated_at)
    }
}

/// The columns an edit of a card assigns, in the order of its placeholders.
pub open spec fn edit_columns() -> Seq<Seq<char>> {
    seq!["word"@, "url"@, "status"@, "updated_at"@, "id"@]
}

/// The columns that storing dictionary data assigns, in the order of its
/// placeholders.
pub open spec fn dictionary_columns() -> Seq<Seq<char>> {
    seq!["phonetic"@, "parts_of_speech"@, "updated_at"@, "id"@]
}

/// The statements that write and read whole cards name the card columns in
/// one order: the insert lists them for its placeholders `?1` to `?8`, and
/// the listing and the lookup select them.
pub proof fn lemma_card_statements_name_the_card_columns()
    ensures
        INSERT_WORD_SQL@ == "INSERT INTO words ("@ + column_list(card_columns())
            + ") VALUES (?1, ?2, ?3, ?4, ?5, ?6, ?7, ?8)"@,
        select_words_text() == "SELECT "@ + column_list(card_columns()) + " FROM words"@,
        FIND_WORD_SQL@ == select_words_text() + " WHERE id = ?1"@,
{
    reveal_strlit("INSERT INTO words (id, word, url, status, phonetic, parts_of_speech, created_at, updated_at) VALUES (?1, ?2, ?3, ?4, ?5, ?6, ?7, ?8)");
    reveal_strlit("SELECT id, word, url, status, phonetic, parts_of_speech, created_at, updated_at FROM words WHERE id = ?1");
    reveal_strlit("SELECT id, word, url, status, phonetic, parts_of_speech, created_at, updated_at FROM words");
    reveal_strlit("INSERT INTO words (");
    reveal_strlit(") VALUES (?1, ?2, ?3, ?4, ?5, ?6, ?7, ?8)");
    reveal_strlit("SELECT ");
    reveal_strlit(" FROM words");
    reveal_strlit(" WHERE id = ?1");
    reveal_strlit(", ");
    reveal_strlit("id");
    reveal_strlit("word");
    reveal_strlit("url");
    reveal_strlit("status");
    reveal_strlit("phonetic");
    reveal_strlit("parts_of_speech");
    reveal_strlit("created_at");
    reveal_strlit("updated_at");
    reveal_with_fuel(column_list, 9);
    let names = card_columns();
    assert(names.drop_last().drop_last().drop_last().drop_last().drop_last().drop_last().drop_last()
        =~= seq!["id"@]);
    assert(column_list(names) =~= "id, word, url, status, phonetic, parts_of_speech, created_at, updated_at"@)
        by {
        reveal_strlit("id, word, url, status, phonetic, parts_of_speech, created_at, updated_at");
    }
    reveal_strlit("id, word, url, status, phonetic, parts_of_speech, created_at, updated_at");
    assert(INSERT_WORD_SQL@ =~= "INSERT INTO words ("@ + column_list(card_columns())
        + ") VALUES (?1, ?2, ?3, ?4, ?5, ?6, ?7, ?8)"@);
    assert(select_words_text() =~= "SELECT "@ + column_list(card_columns()) + " FROM words"@);
    assert(FIND_WORD_SQL@ =~= select_words_text() + " WHERE id = ?1"@);
}

/// A new card is stored field by field: the placeholder of each column that
/// the insert names is bound to the card's value for that column, so the
/// word goes to `word`, the URL to `url`, and so on.
pub proof fn lemma_insert_binds_each_column_to_its_field(record: WordRecord, parts_json: Seq<char>)
    ensures
        insert_params(record, parts_json).len() == card_columns().len(),
        forall|k: int|
            0 <= k < card_columns().len() ==> #[trigger] insert_params(record, parts_json)[k]
                == card_column_value(record, parts_json, card_columns()[k]),
{
    reveal_strlit("id");
    reveal_strlit("word");
    reveal_strlit("url");
    reveal_strlit("status");
    reveal_strlit("phonetic");
    reveal_strlit("parts_of_speech");
    reveal_strlit("created_at");
    reveal_strlit("updated_at");
    assert("id"@.len() == 2 && "word"@.len() == 4 && "url"@.len() == 3 && "status"@.len() == 6
        && "phonetic"@.len() == 8 && "parts_of_speech"@.len() == 15 && "created_at"@.len() == 10
        && "updated_at"@.len() == 10);
    assert("created_at"@[0] == 'c' && "updated_at"@[0] == 'u');
    let names = card_columns();
    let params = insert_params(record, parts_json);
    assert forall|k: int| 0 <= k < names.len() implies #[trigger] params[k] == card_column_value(
        record,
        parts_json,
        names[k],
    ) by {
        if k == 0 {
            assert(names[0] == "id"@);
        } else if k == 1 {
            assert(names[1] == "word"@);
        } else if k == 2 {
            assert(names[2] == "url"@);
        } else if k == 3 {
            assert(names[3] == "status"@);
        } else if k == 4 {
            assert(names[4] == "phonetic"@);
        } else if k == 5 {
            assert(names[5] == "parts_of_speech"@);
        } else if k == 6 {
            assert(names[6] == "created_at"@);
        } else {
            assert(names[7] == "updated_at"@);
        }
    }
}

/// An edit assigns each column its value of the edited card: the statement
/// sets the columns of `edit_columns` from its placeholders in order, and
/// each placeholder is bound to the card's value for its column, so the
/// word goes to `word` and the URL to `url`.
pub proof fn lemma_edit_binds_each_column_to_its_field(
    id: Seq<char>,
    word: Seq<char>,
    url: Seq<char>,
    status: WordStatus,
    updated_at: i64,
    record: WordRecord,
)
    requires
        record.id == id,
        record.word == word,
        record.url == url,
        record.status == status,
        record.updated_at == updated_at,
    ensures
        UPDATE_WORD_SQL@ == "UPDATE words SET "@ + edit_columns()[0] + " = ?1, "@
            + edit_columns()[1] + " = ?2, "@ + edit_columns()[2] + " = ?3, "@ + edit_columns()[3]
            + " = ?4 WHERE "@ + edit_columns()[4] + " = ?5"@,
        update_params(id, word, url, status, updated_at).len() == edit_columns().len(),
        forall|k: int|
            0 <= k < edit_columns().len() ==> #[trigger] update_params(
                id,
                word,
                url,
                status,
                updated_at,
            )[k] == card_column_value(record, seq![], edit_columns()[k]),
{
    reveal_strlit("id");
    reveal_strlit("word");
    reveal_strlit("url");
    reveal_strlit("status");
    reveal_strlit("phonetic");
    reveal_strlit("parts_of_speech");
    reveal_strlit("created_at");
    reveal_strlit("updated_at");
    reveal_strlit("UPDATE words SET word = ?1, url = ?2, status = ?3, updated_at = ?4 WHERE id = ?5");
    reveal_strlit("UPDATE words SET ");
    reveal_strlit(" = ?1, ");
    reveal_strlit(" = ?2, ");
    reveal_strlit(" = ?3, ");
    reveal_strlit(" = ?4 WHERE ");
    reveal_strlit(" = ?5");
    assert(UPDATE_WORD_SQL@ =~= "UPDATE words SET "@ + edit_columns()[0] + " = ?1, "@
        + edit_columns()[1] + " = ?2, "@ + edit_columns()[2] + " = ?3, "@ + edit_columns()[3]
        + " = ?4 WHERE "@ + edit_columns()[4] + " = ?5"@);
    assert("id"@.len() == 2 && "word"@.len() == 4 && "url"@.len() == 3 && "status"@.len() == 6
        && "phonetic"@.len() == 8 && "parts_of_speech"@.len() == 15 && "created_at"@.len() == 10
        && "updated_at"@.len() == 10);
    assert("created_at"@[0] == 'c' && "updated_at"@[0] == 'u');
    let names = edit_columns();
    let params = update_params(id, word, url, status, updated_at);
    assert forall|k: int| 0 <= k < names.len() implies #[trigger] params[k] == card_column_value(
        record,
        seq![],
        names[k],
    ) by {
        if k == 0 {
            assert(names[0] == "word"@);
        } else if k == 1 {
            assert(names[1] == "url"@);
        } else if k == 2 {
            assert(names[2] == "status"@);
        } else if k == 3 {
            assert(names[3] == "updated_at"@);
        } else {
            assert(names[4] == "id"@);
        }
    }
}

/// Storing dictionary data assigns each column its value: the statement sets
/// the columns of `dictionary_columns` from its placeholders in order, and
/// each placeholder is bound to the card's value for its column.
pub proof fn lemma_dictionary_update_binds_each_column_to_its_field(
    id: Seq<char>,
    phonetic: Option<Seq<char>>,
    parts_json: Seq<char>,
    updated_at: i64,
    record: WordRecord,
)
    requires
        record.id == id,
        record.phonetic == phonetic,
        record.updated_at == updated_at,
    ensures
        UPDATE_DICTIONARY_SQL@ == "UPDATE words SET "@ + dictionary_columns()[0] + " = ?1, "@
            + dictionary_columns()[1] + " = ?2, "@ + dictionary_columns()[2] + " = ?3 WHERE "@
            + dictionary_columns()[3] + " = ?4"@,
        dictionary_params(id, phonetic, parts_json, updated_at).len() == dictionary_columns().len(),
        forall|k: int|
            0 <= k < dictionary_columns().len() ==> #[trigger] dictionary_params(
                id,
                phonetic,
                parts_json,
                updated_at,
            )[k] == card_column_value(record, parts_json, dictionary_columns()[k]),
{
    reveal_strlit("id");
    reveal_strlit("word");
    reveal_strlit("url");
    reveal_strlit("status");
    reveal_strlit("phonetic");
    reveal_strlit("parts_of_speech");
    reveal_strlit("created_at");
    reveal_strlit("updated_at");
    reveal_strlit("UPDATE words SET phonetic = ?1, parts_of_speech = ?2, updated_at = ?3 WHERE id = ?4");
    reveal_strlit("UPDATE words SET ");
    reveal_strlit(" = ?1, ");
    reveal_strlit(" = ?2, ");
    reveal_strlit(" = ?3 WHERE ");
    reveal_strlit(" = ?4");
    assert(UPDATE_DICTIONARY_SQL@ =~= "UPDATE words SET "@ + dictionary_columns()[0] + " = ?1, "@
        + dictionary_columns()[1] + " = ?2, "@ + dictionary_columns()[2] + " = ?3 WHERE "@
        + dictionary_columns()[3] + " = ?4"@);
    assert("id"@.len() == 2 && "word"@.len() == 4 && "url"@.len() == 3 && "status"@.len() == 6
        && "phonetic"@.len() == 8 && "parts_of_speech"@.len() == 15 && "created_at"@.len() == 10
        && "updated_at"@.len() == 10);
    assert("created_at"@[0] == 'c' && "updated_at"@[0] == 'u');
    let names = dictionary_columns();
    let params = dictionary_params(id, phonetic, parts_json, updated_at);
    assert forall|k: int| 0 <= k < names.len() implies #[trigger] params[k] == card_column_value(
        record,
        parts_json,
        names[k],
    ) by {
        if k == 0 {
            assert(names[0] == "phonetic"@);
        } else if k == 1 {
            assert(names[1] == "parts_of_speech"@);
        } else if k == 2 {
            assert(names[2] == "updated_at"@);
        } else {
            assert(names[3] == "id"@);
        }
    }
}

} // verus!
