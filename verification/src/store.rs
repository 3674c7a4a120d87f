//! The SQLite database behind the notebook, reached through `rusqlite`.
//!
//! What a statement returns depends on what the database holds, which lives
//! on disk and can change between calls; so the items here promise nothing of
//! the rows or counts they hand back, beyond what the row reader checks: a
//! card row that comes back decodes. The statements, parameters included, are
//! composed in `statements` and handed over whole; what is made of the results
//! is decided in `repository`.
use vstd::prelude::*;
use rusqlite::{Connection, Row};
use rusqlite::types::Value;
use crate::text::decimal;
use crate::json::parse_text_list;
use crate::model::WordStatus;
use crate::repository::row_verdict;
use crate::statements::{card_columns, is_count_statement, reads_cards, SqlStatement};

verus! {

/// `rusqlite::Connection`, held by the repository; nothing is seen inside it.
#[verifier::external_type_specification]
#[verifier::external_body]
pub struct ExConnection(Connection);

/// `rusqlite::Row`, one row of a query's result; nothing is seen inside it.
#[verifier::external_type_specification]
#[verifier::external_body]
pub struct ExRow<'stmt>(Row<'stmt>);

/// `rusqlite::Error`, passed on by the column readers; nothing is seen inside
/// it.
#[verifier::external_type_specification]
#[verifier::external_body]
pub struct ExSqliteError(rusqlite::Error);

/// A value bound to a positional statement parameter.
#[derive(Clone, Debug)]
pub enum SqlValue {
    Text(String),
    Integer(i64),
    Null,
}

/// What a statement parameter holds, as plain values.
pub enum SqlParam {
    Text(Seq<char>),
    Integer(i64),
    Null,
}

impl View for SqlValue {
    type V = SqlParam;

    open spec fn view(&self) -> SqlParam {
        match self {
            SqlValue::Text(t) => SqlParam::Text(t@),
            SqlValue::Integer(n) => SqlParam::Integer(*n),
            SqlValue::Null => SqlParam::Null,
        }
    }
}

/// The parameters of a statement, as plain values.
pub open spec fn params_view(params: Seq<SqlValue>) -> Seq<SqlParam> {
    params.map_values(|p: SqlValue| p@)
}

/// The eight columns of a stored word card, as the database holds them.
#[derive(Clone, Debug)]
pub struct StoredWordRow {
    pub id: String,
    pub word: String,
    pub url: String,
    pub status: String,
    pub phonetic: Option<String>,
    pub parts_of_speech: String,
    pub created_at: i64,
    pub updated_at: i64,
}

/// The message of a failed conversion of a text column, as `rusqlite` words
/// it: "Conversion error from type Text at index: " followed by the column and
/// the detail.
pub open spec fn conversion_failure_text(column: int, detail: Seq<char>) -> Seq<char> {
    "Conversion error from type Text at index: "@ + decimal(column as nat) + ", "@ + detail
}

/// The `Display` text of `rusqlite::Error::FromSqlConversionFailure` for a
/// text column; its source writes "Conversion error from type {t} at index:
/// {i}, {err}" for a known column.
#[verifier::external_body]
pub(crate) fn conversion_failure_message(column: usize, detail: &str) -> (r: String)
    requires
        column < usize::MAX,
    ensures
        r@ == conversion_failure_text(column as int, detail@),
{
    let detail: Box<dyn std::error::Error + Send + Sync> = detail.into();
    rusqlite::Error::FromSqlConversionFailure(column, rusqlite::types::Type::Text, detail)
        .to_string()
}

/// The answer of a call, with its error as text.
pub open spec fn answer_view<T>(r: Result<T, String>) -> Result<T, Seq<char>> {
    match r {
        Ok(value) => Ok(value),
        Err(message) => Err(message@),
    }
}

/// Holds when opening the database file at `path` gave `answer` (the opened
/// connection being left out). It records that the file was opened, not what
/// it holds: another attempt on the same path may be answered otherwise.
pub uninterp spec fn database_opened(path: Seq<char>, answer: Result<(), Seq<char>>) -> bool;

/// Holds when opening a fresh database in memory gave `answer` (the opened
/// connection being left out). Another attempt may be answered otherwise.
pub uninterp spec fn memory_database_opened(answer: Result<(), Seq<char>>) -> bool;

/// Holds when the database answered `answer` to the script `sql`. It records
/// that the script was run, not what it did; another run may be answered
/// otherwise.
pub uninterp spec fn script_run(sql: Seq<char>, answer: Result<(), Seq<char>>) -> bool;

/// Holds when the database answered `answer` (the number of rows changed, or
/// an error) to the statement `sql` with the parameters `params`. It records
/// that the statement was run, not what the database held; another run of
/// the same statement may be answered otherwise.
pub uninterp spec fn executed(
    sql: Seq<char>,
    params: Seq<SqlParam>,
    answer: Result<usize, Seq<char>>,
) -> bool;

/// Holds when the database answered `answer` (the count, or an error) to the
/// counting statement `sql` with `params`. Another run may be answered
/// otherwise.
pub uninterp spec fn counted(sql: Seq<char>, params: Seq<SqlParam>, answer: Result<i64, Seq<char>>) -> bool;

/// Holds when the database answered `answer` (the card rows, in order, or an
/// error) to the statement `sql` with `params`. Another run may be answered
/// otherwise.
pub uninterp spec fn cards_read(
    sql: Seq<char>,
    params: Seq<SqlParam>,
    answer: Result<Seq<StoredWordRow>, Seq<char>>,
) -> bool;

/// Holds when the database answered `answer` (the column names, in order, or
/// an error) to the table description `sql`. Another run may be answered
/// otherwise.
pub uninterp spec fn columns_listed(sql: Seq<char>, answer: Result<Seq<Seq<char>>, Seq<char>>) -> bool;

/// `Connection::open`: opens or creates the database file at `path`. Whether
/// it succeeds depends on the file system; errors become their display text.
#[verifier::external_body]
pub(crate) fn open_database(path: &str) -> (r: Result<Connection, String>)
    ensures
        database_opened(
            path@,
            match r {
                Ok(_) => Ok(()),
                Err(e) => Err(e@),
            },
        ),
{
    Connection::open(path).map_err(|error| error.to_string())
}

/// `Connection::open_in_memory`: a fresh database that lives in memory.
#[verifier::external_body]
pub(crate) fn open_memory_database() -> (r: Result<Connection, String>)
    ensures
        memory_database_opened(
            match r {
                Ok(_) => Ok(()),
                Err(e) => Err(e@),
            },
        ),
{
    Connection::open_in_memory().map_err(|error| error.to_string())
}

/// `Connection::execute_batch`: runs each statement of `sql` in turn.
#[verifier::external_body]
pub(crate) fn execute_script(connection: &Connection, sql: &str) -> (r: Result<(), String>)
    ensures
        script_run(sql@, answer_view(r)),
{
    connection.execute_batch(sql).map_err(|error| error.to_string())
}

/// `Connection::execute`: runs `statement.sql` with its parameters bound in
/// order, each as the `rusqlite` value of the same kind (text, integer or
/// `NULL`), and returns the number of rows it changed, inserted or deleted.
/// That number, and whether the call succeeds, depend on what the database
/// holds, so nothing is promised of them; errors become their display text.
#[verifier::external_body]
pub(crate) fn execute_statement(connection: &Connection, statement: &SqlStatement) -> (r: Result<
    usize,
    String,
>)
    ensures
        executed(statement.sql@, params_view(statement.params@), answer_view(r)),
{
    let values = statement.params.iter().map(|param| match param {
        SqlValue::Text(text) => Value::Text(text.clone()),
        SqlValue::Integer(n) => Value::Integer(*n),
        SqlValue::Null => Value::Null,
    });
    connection.execute(&statement.sql, rusqlite::params_from_iter(values)).map_err(
        |error| error.to_string(),
    )
}

/// A value read from a row, with the index of the column it was read from.
pub struct ColumnRead<T> {
    pub index: usize,
    pub value: T,
}

/// `Row::get::<_, String>`: the text in column `index` of a row, kept with
/// that index; an error when the column is missing or does not hold text.
#[verifier::external_body]
fn text_column(row: &Row, index: usize) -> (r: Result<ColumnRead<String>, rusqlite::Error>)
    ensures
        r matches Ok(read) ==> read.index == index,
{
    row.get(index).map(|value| ColumnRead { index, value })
}

/// `Row::get::<_, Option<String>>`: the text in column `index`, or `None` for
/// `NULL`, kept with that index.
#[verifier::external_body]
fn optional_text_column(row: &Row, index: usize) -> (r: Result<
    ColumnRead<Option<String>>,
    rusqlite::Error,
>)
    ensures
        r matches Ok(read) ==> read.index == index,
{
    row.get(index).map(|value| ColumnRead { index, value })
}

/// `Row::get::<_, i64>`: the integer in column `index`, kept with that index.
#[verifier::external_body]
fn integer_column(row: &Row, index: usize) -> (r: Result<ColumnRead<i64>, rusqlite::Error>)
    ensures
        r matches Ok(read) ==> read.index == index,
{
    row.get(index).map(|value| ColumnRead { index, value })
}

/// The stored row made of the columns read for each field. Each field must
/// come from the column of its own name in the card statements
/// (`card_columns`, the order in which they select the columns): the word
/// from `word`, the URL from `url`, and so on.
fn stored_row(
    id: ColumnRead<String>,
    word: ColumnRead<String>,
    url: ColumnRead<String>,
    status: ColumnRead<String>,
    phonetic: ColumnRead<Option<String>>,
    parts_of_speech: ColumnRead<String>,
    created_at: ColumnRead<i64>,
    updated_at: ColumnRead<i64>,
) -> (r: StoredWordRow)
    requires
        card_columns()[id.index as int] == "id"@,
        card_columns()[word.index as int] == "word"@,
        card_columns()[url.index as int] == "url"@,
        card_columns()[status.index as int] == "status"@,
        card_columns()[phonetic.index as int] == "phonetic"@,
        card_columns()[parts_of_speech.index as int] == "parts_of_speech"@,
        card_columns()[created_at.index as int] == "created_at"@,
        card_columns()[updated_at.index as int] == "updated_at"@,
    ensures
        r.id == id.value,
        r.word == word.value,
        r.url == url.value,
        r.status == status.value,
        r.phonetic == phonetic.value,
        r.parts_of_speech == parts_of_speech.value,
        r.created_at == created_at.value,
        r.updated_at == updated_at.value,
{
    StoredWordRow {
        id: id.value,
        word: word.value,
        url: url.value,
        status: status.value,
        phonetic: phonetic.value,
        parts_of_speech: parts_of_speech.value,
        created_at: created_at.value,
        updated_at: updated_at.value,
    }
}

/// `rusqlite::Error::FromSqlConversionFailure` for a text column: the error
/// that reports a column whose text does not convert, with `detail` as its
/// cause. Its display text is the one `conversion_failure_message` gives.
#[verifier::external_body]
fn conversion_failure(column: usize, detail: &str) -> rusqlite::Error {
    let detail: Box<dyn std::error::Error + Send + Sync> = detail.into();
    rusqlite::Error::FromSqlConversionFailure(column, rusqlite::types::Type::Text, detail)
}

/// The eight card columns of a row, in the order of the listing statements.
/// They are read, and checked, in this order: the status and the parts of
/// speech; the JSON of the parts of speech, whose failure is a conversion
/// error of column 5; the id, word and URL; the status name, whose failure is
/// a conversion error of column 0; then the phonetic spelling and the two
/// times. A row that comes back therefore decodes.
pub(crate) fn read_word_row(row: &Row) -> (r: Result<StoredWordRow, rusqlite::Error>)
    ensures
        r matches Ok(stored) ==> row_verdict(stored) is Ok,
{
    let status = text_column(row, 3)?;
    let parts_of_speech = text_column(row, 5)?;
    if let Err(detail) = parse_text_list(parts_of_speech.value.as_str()) {
        let mut message = "Invalid parts of speech JSON: ".to_string();
        message.append(detail.as_str());
        return Err(conversion_failure(5, message.as_str()));
    }
    let id = text_column(row, 0)?;
    let word = text_column(row, 1)?;
    let url = text_column(row, 2)?;
    if WordStatus::from_str(status.value.as_str()).is_err() {
        let mut message = "Unknown word status: ".to_string();
        message.append(status.value.as_str());
        return Err(conversion_failure(0, message.as_str()));
    }
    let phonetic = optional_text_column(row, 4)?;
    let created_at = integer_column(row, 6)?;
    let updated_at = integer_column(row, 7)?;
    Ok(stored_row(id, word, url, status, phonetic, parts_of_speech, created_at, updated_at))
}

/// The number in the first column of a counting statement's row.
pub(crate) fn read_count(row: &Row) -> Result<i64, rusqlite::Error> {
    match integer_column(row, 0) {
        Ok(read) => Ok(read.value),
        Err(error) => Err(error),
    }
}

/// The column name in a row of `PRAGMA table_info`, its second column.
pub(crate) fn read_column_name(row: &Row) -> Result<String, rusqlite::Error> {
    match text_column(row, 1) {
        Ok(read) => Ok(read.value),
        Err(error) => Err(error),
    }
}

/// `Connection::query_row`: runs a counting statement, its parameters bound
/// as in `execute_statement`, and reads the count from the first column of
/// its first row. Only counting statements are handed to it, since only their
/// rows hold an integer there. The count depends on what the database holds,
/// so nothing is promised of it; errors become their display text.
#[verifier::external_body]
pub(crate) fn query_count(connection: &Connection, statement: &SqlStatement) -> (r: Result<
    i64,
    String,
>)
    requires
        is_count_statement(*statement),
    ensures
        counted(statement.sql@, params_view(statement.params@), answer_view(r)),
{
    let values = statement.params.iter().map(|param| match param {
        SqlValue::Text(text) => Value::Text(text.clone()),
        SqlValue::Integer(n) => Value::Integer(*n),
        SqlValue::Null => Value::Null,
    });
    connection.query_row(&statement.sql, rusqlite::params_from_iter(values), read_count).map_err(
        |error| error.to_string(),
    )
}

/// `Connection::prepare` and `Statement::query_map`: runs a statement whose
/// rows are whole cards, its parameters bound as in `execute_statement`, and
/// reads the card columns of every row, in the order the query returns them.
/// The rows depend on what the database holds, so nothing is promised of
/// them; errors become their display text.
#[verifier::external_body]
pub(crate) fn query_word_rows(connection: &Connection, statement: &SqlStatement) -> (r: Result<
    Vec<StoredWordRow>,
    String,
>)
    requires
        reads_cards(*statement),
    ensures
        cards_read(
            statement.sql@,
            params_view(statement.params@),
            match r {
                Ok(rows) => Ok(rows@),
                Err(e) => Err(e@),
            },
        ),
{
    let values = statement.params.iter().map(|param| match param {
        SqlValue::Text(text) => Value::Text(text.clone()),
        SqlValue::Integer(n) => Value::Integer(*n),
        SqlValue::Null => Value::Null,
    });
    let mut prepared = connection.prepare(&statement.sql).map_err(|error| error.to_string())?;
    let rows = prepared.query_map(rusqlite::params_from_iter(values), read_word_row);
    rows.and_then(|rows| rows.collect()).map_err(|error| error.to_string())
}

/// `Connection::prepare` and `Statement::query_map` on `PRAGMA table_info`:
/// the names of the columns of a table.
#[verifier::external_body]
pub(crate) fn query_column_names(connection: &Connection, sql: &str) -> (r: Result<
    Vec<String>,
    String,
>)
    ensures
        columns_listed(
            sql@,
            match r {
                Ok(names) => Ok(names.deep_view()),
                Err(e) => Err(e@),
            },
        ),
{
    let mut statement = connection.prepare(sql).map_err(|error| error.to_string())?;
    let rows = statement.query_map([], read_column_name);
    rows.and_then(|rows| rows.collect()).map_err(|error| error.to_string())
}

} // verus!
