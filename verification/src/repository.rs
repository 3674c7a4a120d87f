//! The store of word cards: validation and normalisation of what goes in,
//! composition of the statements, and decoding and checking of what comes
//! back from the database.
use vstd::prelude::*;
use rusqlite::Connection;
use crate::clock::timestamp;
use crate::json::{json_array, json_text_list, parse_text_list, text_list_json};
use crate::model::{
    status_named, status_text, VocabularyWord, WordInput, WordListRequest, WordPage, WordRecord, WordStatus,
    WORDS_PER_PAGE,
};
use crate::parts::{contains_text, normalize_parts_of_speech, normalized_parts};
use crate::statements::{
    count_sql_text, filter_params, is_count_statement, list_params, list_sql_text, SqlStatement,
    add_column_text, dictionary_params, insert_params, update_params, UPDATE_DICTIONARY_SQL,
    UPDATE_WORD_SQL, INSERT_WORD_SQL,
    add_column_sql, count_statement, dictionary_statement, id_statement, insert_statement,
    list_statement, update_statement, DELETE_WORD_SQL, EMPTY_PARTS_JSON, FIND_WORD_SQL,
    SCHEMA_SQL, TABLE_INFO_SQL,
};
use crate::store::{
    answer_view, cards_read, columns_listed, counted, database_opened, executed,
    memory_database_opened, script_run, conversion_failure_message, conversion_failure_text, execute_script,
    execute_statement, open_database, open_memory_database, query_column_names, query_count,
    query_word_rows, params_view, SqlParam, StoredWordRow,
};
use crate::text::{contains_pattern, normalize_search_query, normalized_query, search_pattern};
use crate::validation::{input_verdict, validate_input};

verus! {

/// `uuid::Uuid::new_v4`, written with `Display`: a random identifier in the
/// lower-case hyphenated form, which the crate's source writes as 36 ASCII
/// characters. Which identifier comes out is chance.
#[verifier::external_body]
fn new_word_id() -> (r: String)
    ensures
        r@.len() == 36,
{
    uuid::Uuid::new_v4().to_string()
}

/// The cards as plain values.
pub open spec fn records(words: Seq<VocabularyWord>) -> Seq<WordRecord> {
    words.map_values(|w: VocabularyWord| w@)
}

/// What a stored row decodes to: the card, or the message of the first column
/// that does not convert. The parts of speech are read before the status.
pub open spec fn row_verdict(row: StoredWordRow) -> Result<WordRecord, Seq<char>> {
    match json_text_list(row.parts_of_speech@) {
        Err(detail) => Err(conversion_failure_text(5, "Invalid parts of speech JSON: "@ + detail)),
        Ok(parts) => match status_named(row.status@) {
            None => Err(conversion_failure_text(0, "Unknown word status: "@ + row.status@)),
            Some(status) => Ok(
                WordRecord {
                    id: row.id@,
                    word: row.word@,
                    url: row.url@,
                    status: status,
                    phonetic: row.phonetic.deep_view(),
                    parts_of_speech: parts,
                    created_at: row.created_at,
                    updated_at: row.updated_at,
                },
            ),
        },
    }
}

/// A decoded card keeps the stored row's text columns as they are: its id,
/// word and URL are those of the row, its phonetic spelling the row's, and
/// its times the row's; only the status and the parts of speech are decoded.
pub proof fn lemma_decoding_keeps_the_row_columns(row: StoredWordRow)
    ensures
        row_verdict(row) matches Ok(card) ==> {
            &&& card.id == row.id@
            &&& card.word == row.word@
            &&& card.url == row.url@
            &&& card.phonetic == row.phonetic.deep_view()
            &&& card.created_at == row.created_at
            &&& card.updated_at == row.updated_at
            &&& status_text(card.status) == row.status@
        },
{
}

/// What a list of stored rows decodes to: all the cards, or the message of the
/// first row that does not decode.
pub open spec fn rows_verdict(rows: Seq<StoredWordRow>) -> Result<Seq<WordRecord>, Seq<char>>
    decreases rows.len(),
{
    if rows.len() == 0 {
        Ok(seq![])
    } else {
        match rows_verdict(rows.drop_last()) {
            Err(message) => Err(message),
            Ok(prefix) => match row_verdict(rows.last()) {
                Err(message) => Err(message),
                Ok(record) => Ok(prefix.push(record)),
            },
        }
    }
}

/// Decodes a stored row into a card: the parts of speech from their JSON and
/// the status from its name.
pub fn row_to_word(row: StoredWordRow) -> (r: Result<VocabularyWord, String>)
    ensures
        match r {
            Ok(word) => row_verdict(row) == Ok::<WordRecord, Seq<char>>(word@),
            Err(message) => row_verdict(row) == Err::<WordRecord, Seq<char>>(message@),
        },
{
    let parts_of_speech = match parse_text_list(row.parts_of_speech.as_str()) {
        Ok(parts) => parts,
        Err(detail) => {
            let mut message = "Invalid parts of speech JSON: ".to_string();
            message.append(detail.as_str());
            return Err(conversion_failure_message(5, message.as_str()));
        },
    };
    let status = WordStatus::from_str(row.status.as_str())?;
    Ok(
        VocabularyWord {
            id: row.id,
            word: row.word,
            url: row.url,
            status,
            phonetic: row.phonetic,
            parts_of_speech,
            created_at: row.created_at,
            updated_at: row.updated_at,
        },
    )
}

/// Decodes stored rows into cards, in order; the first row that does not
/// decode makes the whole answer fail.
pub fn rows_to_words(rows: Vec<StoredWordRow>) -> (r: Result<Vec<VocabularyWord>, String>)
    ensures
        match r {
            Ok(words) => rows_verdict(rows@) == Ok::<Seq<WordRecord>, Seq<char>>(records(words@)),
            Err(message) => rows_verdict(rows@) == Err::<Seq<WordRecord>, Seq<char>>(message@),
        },
{
    let ghost all = rows@;
    let mut pending = reversed(rows);
    let mut words: Vec<VocabularyWord> = Vec::new();
    let mut i: usize = 0;
    let n = pending.len();
    assert(all.take(0) =~= Seq::<StoredWordRow>::empty());
    assert(records(words@) =~= Seq::<WordRecord>::empty());
    while i < n
        invariant
            all == rows@,
            n == all.len(),
            i <= n,
            pending@.len() == n - i,
            forall|k: int| 0 <= k < n - i ==> pending@[k] == all[n - 1 - k],
            rows_verdict(all.take(i as int)) == Ok::<Seq<WordRecord>, Seq<char>>(records(words@)),
        decreases n - i,
    {
        let row = pending.pop().unwrap();
        assert(row == all[i as int]);
        assert(all.take(i + 1).drop_last() =~= all.take(i as int));
        assert(all.take(i + 1).last() == all[i as int]);
        match row_to_word(row) {
            Ok(word) => {
                let ghost before = words@;
                words.push(word);
                assert(records(words@) =~= records(before).push(word@));
            },
            Err(message) => {
                proof {
                    assert(rows_verdict(all.take(i + 1)) == Err::<Seq<WordRecord>, Seq<char>>(
                        message@,
                    ));
                    lemma_rows_verdict_error_persists(all, i as int + 1);
                    assert(rows_verdict(all) == Err::<Seq<WordRecord>, Seq<char>>(message@));
                }
                return Err(message);
            },
        }
        i = i + 1;
    }
    assert(all.take(n as int) =~= all);
    assert(rows_verdict(all) == Ok::<Seq<WordRecord>, Seq<char>>(records(words@)));
    Ok(words)
}

/// The rows in reverse order.
fn reversed(rows: Vec<StoredWordRow>) -> (r: Vec<StoredWordRow>)
    ensures
        r@.len() == rows@.len(),
        forall|k: int| 0 <= k < rows@.len() ==> r@[k] == rows@[rows@.len() - 1 - k],
{
    let ghost all = rows@;
    let mut rows = rows;
    let mut out: Vec<StoredWordRow> = Vec::new();
    while rows.len() > 0
        invariant
            rows@.len() + out@.len() == all.len(),
            forall|k: int| 0 <= k < rows@.len() ==> rows@[k] == all[k],
            forall|k: int| 0 <= k < out@.len() ==> out@[k] == all[all.len() - 1 - k],
        decreases rows@.len(),
    {
        let row = rows.pop().unwrap();
        out.push(row);
    }
    out
}

/// Once a prefix of the rows fails to decode, so does every longer prefix,
/// with the same message.
proof fn lemma_rows_verdict_error_persists(rows: Seq<StoredWordRow>, k: int)
    requires
        0 <= k <= rows.len(),
        rows_verdict(rows.take(k)) is Err,
    ensures
        rows_verdict(rows) == rows_verdict(rows.take(k)),
    decreases rows.len() - k,
{
    if k < rows.len() {
        assert(rows.take(k + 1).drop_last() =~= rows.take(k));
        lemma_rows_verdict_error_persists(rows, k + 1);
    } else {
        assert(rows.take(k) =~= rows);
    }
}

/// The number of matching cards as a listing reports it, or an error when the
/// count does not fit in a `u32`.
pub fn total_from_count(count: i64) -> (r: Result<u32, String>)
    ensures
        0 <= count <= u32::MAX ==> r == Ok::<u32, String>(count as u32),
        !(0 <= count <= u32::MAX) ==> (r matches Err(message) && message@
            == "Word count exceeds the supported range."@),
{
    if 0 <= count && count <= u32::MAX as i64 {
        Ok(count as u32)
    } else {
        Err("Word count exceeds the supported range.".to_string())
    }
}

/// The number of cards before page `page` (counted from 1).
pub fn page_offset(page: u32) -> (r: i64)
    requires
        page >= 1,
    ensures
        r == (page - 1) * WORDS_PER_PAGE,
{
    ((page as u64 - 1) * WORDS_PER_PAGE as u64) as i64
}

/// The card that a lookup by id found: the first row, decoded, or nothing.
pub fn first_word(rows: Vec<StoredWordRow>) -> (r: Result<Option<VocabularyWord>, String>)
    ensures
        rows@.len() == 0 ==> r matches Ok(None),
        rows@.len() > 0 ==> match r {
            Ok(Some(word)) => row_verdict(rows@[0]) == Ok::<WordRecord, Seq<char>>(word@),
            Ok(None) => false,
            Err(message) => row_verdict(rows@[0]) == Err::<WordRecord, Seq<char>>(message@),
        },
{
    let mut rows = rows;
    if rows.len() == 0 {
        Ok(None)
    } else {
        let row = rows.swap_remove(0);
        let word = row_to_word(row)?;
        Ok(Some(word))
    }
}

/// The answer to a statement that was to change one card: an error with the
/// message `missing` when it changed none.
pub fn require_changed(changed: usize, missing: &str) -> (r: Result<(), String>)
    ensures
        changed == 0 ==> (r matches Err(m) && m@ == missing@),
        changed != 0 ==> r is Ok,
{
    if changed == 0 {
        Err(missing.to_string())
    } else {
        Ok(())
    }
}

/// The card a lookup found, or an error with the message `missing`.
pub fn require_found(found: Option<VocabularyWord>, missing: &str) -> (r: Result<
    VocabularyWord,
    String,
>)
    ensures
        match found {
            Some(word) => r matches Ok(w) && w@ == word@,
            None => r matches Err(m) && m@ == missing@,
        },
{
    match found {
        Some(word) => Ok(word),
        None => Err(missing.to_string()),
    }
}

/// The `LIKE` pattern a listing searches with: the trimmed query between `%`
/// wildcards, or none when the query is missing or blank.
pub open spec fn listing_pattern(query: Option<Seq<char>>) -> Option<Seq<char>> {
    match normalized_query(query) {
        Some(q) => Some(contains_pattern(q)),
        None => None,
    }
}

/// The two statements that answer a listing: one counts the cards that pass
/// the filter, the other reads the requested page of them.
pub struct ListingPlan {
    pub count: SqlStatement,
    pub page: SqlStatement,
}

/// The statements for a listing request: page numbers start at 1; the filter
/// is the requested status and the trimmed query as a `LIKE` pattern; the page
/// starts after `(page - 1) * 10` cards in the requested order.
pub fn plan_listing(request: WordListRequest) -> (r: Result<ListingPlan, String>)
    ensures
        request.page == 0 ==> (r matches Err(e) && e@ == "Page number must start at 1."@),
        request.page != 0 ==> (r matches Ok(plan) && {
            let pattern = listing_pattern(request.query.deep_view());
            &&& plan.count.sql@ == count_sql_text(request.status is Some, pattern is Some)
            &&& params_view(plan.count.params@) == filter_params(request.status, pattern)
            &&& plan.page.sql@ == list_sql_text(
                request.status is Some,
                pattern is Some,
                request.sort,
            )
            &&& params_view(plan.page.params@) == list_params(
                request.status,
                pattern,
                ((request.page - 1) * WORDS_PER_PAGE) as i64,
            )
        }),
{
    if request.page == 0 {
        return Err("Page number must start at 1.".to_string());
    }
    let query = normalize_search_query(request.query);
    let pattern: Option<String> = match &query {
        Some(q) => Some(search_pattern(q.as_str())),
        None => None,
    };
    let pattern_text: Option<&str> = match &pattern {
        Some(p) => Some(p.as_str()),
        None => None,
    };
    let count = count_statement(request.status, pattern_text);
    let offset = page_offset(request.page);
    let page = list_statement(request.status, pattern_text, request.sort, offset);
    Ok(ListingPlan { count, page })
}

/// The message of a clock set before the Unix epoch.
pub open spec fn clock_error_text() -> Seq<char> {
    "System time is before the Unix epoch."@
}

/// A card answer as plain values.
pub open spec fn record_answer(r: Result<VocabularyWord, String>) -> Result<WordRecord, Seq<char>> {
    match r {
        Ok(word) => Ok(word@),
        Err(message) => Err(message@),
    }
}

/// The counting statement of a listing request, and its parameters.
pub open spec fn listing_count_sql(request: WordListRequest) -> Seq<char> {
    count_sql_text(request.status is Some, listing_pattern(request.query.deep_view()) is Some)
}

/// The parameters of the counting statement of a listing request.
pub open spec fn listing_count_params(request: WordListRequest) -> Seq<SqlParam> {
    filter_params(request.status, listing_pattern(request.query.deep_view()))
}

/// The page statement of a listing request.
pub open spec fn listing_page_sql(request: WordListRequest) -> Seq<char> {
    list_sql_text(
        request.status is Some,
        listing_pattern(request.query.deep_view()) is Some,
        request.sort,
    )
}

/// The parameters of the page statement of a listing request.
pub open spec fn listing_page_params(request: WordListRequest) -> Seq<SqlParam> {
    list_params(
        request.status,
        listing_pattern(request.query.deep_view()),
        ((request.page - 1) * WORDS_PER_PAGE) as i64,
    )
}

/// What a count of cards answers, given what the database answered to the
/// counting statement: the count when it fits in a `u32`, else an error.
pub open spec fn count_answer(sql: Seq<char>, params: Seq<SqlParam>, r: Result<u32, Seq<char>>) -> bool {
    match r {
        Ok(total) => counted(sql, params, Ok(total as i64)),
        Err(e) => counted(sql, params, Err(e)) || exists|c: i64|
            #![trigger counted(sql, params, Ok(c))]
            counted(sql, params, Ok(c)) && !(0 <= c <= u32::MAX) && e
                == "Word count exceeds the supported range."@,
    }
}

/// What a listing answers, given what the database answered to its two
/// statements: the count of the cards passing the filter, and the decoded
/// rows of the requested page; else the first error met on the way.
pub open spec fn listing_answer(request: WordListRequest, r: Result<WordPage, String>) -> bool {
    let count_sql = listing_count_sql(request);
    let count_params = listing_count_params(request);
    let page_sql = listing_page_sql(request);
    let page_params = listing_page_params(request);
    match r {
        Ok(page) => count_answer(count_sql, count_params, Ok(page.total)) && exists|
            rows: Seq<StoredWordRow>,
        |
            #![trigger cards_read(page_sql, page_params, Ok(rows))]
            cards_read(page_sql, page_params, Ok(rows)) && rows_verdict(rows) == Ok::<
                Seq<WordRecord>,
                Seq<char>,
            >(records(page.words@)),
        Err(e) => count_answer(count_sql, count_params, Err(e@)) || ((exists|total: u32|
            #![trigger count_answer(count_sql, count_params, Ok(total))]
            count_answer(count_sql, count_params, Ok(total))) && (cards_read(
            page_sql,
            page_params,
            Err(e@),
        ) || exists|rows: Seq<StoredWordRow>|
            #![trigger cards_read(page_sql, page_params, Ok(rows))]
            cards_read(page_sql, page_params, Ok(rows)) && rows_verdict(rows) == Err::<
                Seq<WordRecord>,
                Seq<char>,
            >(e@))),
    }
}

/// What the lookup of the card `id` answers, given what the database answered
/// to the lookup statement: the first row, decoded, or nothing when there is
/// no row; else the error.
pub open spec fn lookup_answer(id: Seq<char>, r: Result<Option<WordRecord>, Seq<char>>) -> bool {
    let params = seq![SqlParam::Text(id)];
    match r {
        Ok(None) => exists|rows: Seq<StoredWordRow>|
            #![trigger cards_read(FIND_WORD_SQL@, params, Ok(rows))]
            cards_read(FIND_WORD_SQL@, params, Ok(rows)) && rows.len() == 0,
        Ok(Some(word)) => exists|rows: Seq<StoredWordRow>|
            #![trigger cards_read(FIND_WORD_SQL@, params, Ok(rows))]
            cards_read(FIND_WORD_SQL@, params, Ok(rows)) && rows.len() > 0 && row_verdict(rows[0])
                == Ok::<WordRecord, Seq<char>>(word),
        Err(e) => cards_read(FIND_WORD_SQL@, params, Err(e)) || exists|rows: Seq<StoredWordRow>|
            #![trigger cards_read(FIND_WORD_SQL@, params, Ok(rows))]
            cards_read(FIND_WORD_SQL@, params, Ok(rows)) && rows.len() > 0 && row_verdict(rows[0])
                == Err::<WordRecord, Seq<char>>(e),
    }
}

/// Whether the database answered that the statement changed some row.
pub open spec fn changed_some(sql: Seq<char>, params: Seq<SqlParam>) -> bool {
    exists|n: usize| #![trigger executed(sql, params, Ok(n))] n != 0 && executed(sql, params, Ok(n))
}

/// What a change of the card `id` answers, given what the database answered
/// to the changing statement and then to the lookup of the card: the card as
/// stored afterwards; `missing_change` when no row changed; `missing_card`
/// when the lookup found none; else the first error met.
pub open spec fn change_answer(
    sql: Seq<char>,
    params: Seq<SqlParam>,
    id: Seq<char>,
    missing_change: Seq<char>,
    missing_card: Seq<char>,
    r: Result<WordRecord, Seq<char>>,
) -> bool {
    match r {
        Ok(word) => changed_some(sql, params) && lookup_answer(id, Ok(Some(word))),
        Err(e) => executed(sql, params, Err(e)) || (executed(sql, params, Ok(0usize)) && e
            == missing_change) || (changed_some(sql, params) && (lookup_answer(id, Err(e)) || (
        lookup_answer(id, Ok(None)) && e == missing_card))),
    }
}

/// What deleting the card `id` answers, given what the database answered to
/// the deleting statement: success when it removed a row, an error when it
/// removed none, else the database's error.
pub open spec fn delete_answer(id: Seq<char>, r: Result<(), Seq<char>>) -> bool {
    let params = seq![SqlParam::Text(id)];
    match r {
        Ok(()) => changed_some(DELETE_WORD_SQL@, params),
        Err(e) => executed(DELETE_WORD_SQL@, params, Err(e)) || (executed(
            DELETE_WORD_SQL@,
            params,
            Ok(0usize),
        ) && e == "Word to delete was not found."@),
    }
}

/// A new card: no dictionary data, created and updated at `time`.
pub open spec fn new_card(
    id: Seq<char>,
    word: Seq<char>,
    url: Seq<char>,
    status: WordStatus,
    time: i64,
) -> WordRecord {
    WordRecord {
        id,
        word,
        url,
        status,
        phonetic: None,
        parts_of_speech: seq![],
        created_at: time,
        updated_at: time,
    }
}

/// What making sure of a column answers, given what the database answered to
/// the table description and, when the column was missing, to adding it.
pub open spec fn column_answer(column: Seq<char>, definition: Seq<char>, r: Result<(), Seq<char>>) -> bool {
    let alter = add_column_text(column, definition);
    match r {
        Ok(()) => exists|names: Seq<Seq<char>>|
            #![trigger columns_listed(TABLE_INFO_SQL@, Ok(names))]
            columns_listed(TABLE_INFO_SQL@, Ok(names)) && (names.contains(column) || exists|n: usize|
                #![trigger executed(alter, Seq::<SqlParam>::empty(), Ok(n))]
                executed(alter, Seq::<SqlParam>::empty(), Ok(n))),
        Err(e) => columns_listed(TABLE_INFO_SQL@, Err(e)) || exists|names: Seq<Seq<char>>|
            #![trigger columns_listed(TABLE_INFO_SQL@, Ok(names))]
            columns_listed(TABLE_INFO_SQL@, Ok(names)) && !names.contains(column) && executed(
                alter,
                Seq::<SqlParam>::empty(),
                Err(e),
            ),
    }
}

/// What bringing the schema up to date answers: the schema script, then the
/// phonetic column, then the parts-of-speech column; the first error met.
pub open spec fn schema_answer(r: Result<(), Seq<char>>) -> bool {
    let phonetic_ok = column_answer("phonetic"@, "TEXT"@, Ok(()));
    let parts = "parts_of_speech"@;
    let parts_definition = "TEXT NOT NULL DEFAULT '[]'"@;
    match r {
        Ok(()) => script_run(SCHEMA_SQL@, Ok(())) && phonetic_ok && column_answer(
            parts,
            parts_definition,
            Ok(()),
        ),
        Err(e) => script_run(SCHEMA_SQL@, Err(e)) || (script_run(SCHEMA_SQL@, Ok(())) && (
        column_answer("phonetic"@, "TEXT"@, Err(e)) || (phonetic_ok && column_answer(
            parts,
            parts_definition,
            Err(e),
        )))),
    }
}

/// A repository of word cards kept in a SQLite database.
pub struct VocabularyRepository {
    connection: Connection,
}

impl VocabularyRepository {
    /// Opens (and creates when missing) the database at `path` and brings its
    /// schema up to date.
    pub fn open(path: &str) -> (r: Result<Self, String>)
        ensures
            match r {
                Ok(_) => database_opened(path@, Ok(())) && schema_answer(Ok(())),
                Err(e) => database_opened(path@, Err(e@)) || (database_opened(path@, Ok(()))
                    && schema_answer(Err(e@))),
            },
    {
        let connection = match open_database(path) {
            Ok(connection) => connection,
            Err(e) => return Err(e),
        };
        let repository = VocabularyRepository { connection };
        match repository.initialize() {
            Ok(()) => Ok(repository),
            Err(e) => Err(e),
        }
    }

    /// A repository in a fresh database held in memory.
    pub fn in_memory() -> (r: Result<Self, String>)
        ensures
            match r {
                Ok(_) => memory_database_opened(Ok(())) && schema_answer(Ok(())),
                Err(e) => memory_database_opened(Err(e@)) || (memory_database_opened(Ok(()))
                    && schema_answer(Err(e@))),
            },
    {
        let connection = match open_memory_database() {
            Ok(connection) => connection,
            Err(e) => return Err(e),
        };
        let repository = VocabularyRepository { connection };
        match repository.initialize() {
            Ok(()) => Ok(repository),
            Err(e) => Err(e),
        }
    }

    /// Creates the table and index when missing, and adds the dictionary
    /// columns to a table made before they existed.
    fn initialize(&self) -> (r: Result<(), String>)
        ensures
            schema_answer(answer_view(r)),
    {
        match execute_script(&self.connection, SCHEMA_SQL) {
            Ok(()) => {},
            Err(e) => return Err(e),
        }
        match self.ensure_column("phonetic", "TEXT") {
            Ok(()) => {},
            Err(e) => return Err(e),
        }
        self.ensure_column("parts_of_speech", "TEXT NOT NULL DEFAULT '[]'")
    }

    /// Adds `column` to the table unless the table has it already.
    fn ensure_column(&self, column: &str, definition: &str) -> (r: Result<(), String>)
        ensures
            column_answer(column@, definition@, answer_view(r)),
    {
        let columns = match query_column_names(&self.connection, TABLE_INFO_SQL) {
            Ok(columns) => columns,
            Err(e) => return Err(e),
        };
        if contains_text(&columns, column) {
            return Ok(());
        }
        let statement = SqlStatement { sql: add_column_sql(column, definition), params: Vec::new() };
        assert(params_view(statement.params@) =~= Seq::<SqlParam>::empty());
        match execute_statement(&self.connection, &statement) {
            Ok(_) => Ok(()),
            Err(e) => Err(e),
        }
    }

    /// The number of cards that a counting statement counts.
    fn count(&self, statement: &SqlStatement) -> (r: Result<u32, String>)
        requires
            is_count_statement(*statement),
        ensures
            count_answer(statement.sql@, params_view(statement.params@), answer_view(r)),
    {
        match query_count(&self.connection, statement) {
            Ok(count) => total_from_count(count),
            Err(e) => Err(e),
        }
    }

    /// One page of cards: those with the requested status (all when none is
    /// given) whose word contains the trimmed query, ignoring ASCII case (all
    /// when the query is missing or blank), in the requested order, together
    /// with the number of such cards. Page numbers start at 1. The statements
    /// are those of `plan_listing`.
    pub fn list(&self, request: WordListRequest) -> (r: Result<WordPage, String>)
        ensures
            request.page == 0 ==> (r matches Err(e) && e@ == "Page number must start at 1."@),
            request.page != 0 ==> listing_answer(request, r),
    {
        let ghost original = request;
        let ghost count_sql = listing_count_sql(request);
        let ghost count_params = listing_count_params(request);
        let ghost page_sql = listing_page_sql(request);
        let ghost page_params = listing_page_params(request);
        let plan = match plan_listing(request) {
            Ok(plan) => plan,
            Err(e) => return Err(e),
        };
        assert(plan.count.sql@ == count_sql && params_view(plan.count.params@) == count_params);
        assert(plan.page.sql@ == page_sql && params_view(plan.page.params@) == page_params);
        let total = match self.count(&plan.count) {
            Ok(total) => total,
            Err(e) => {
                assert(count_answer(count_sql, count_params, Err(e@)));
                assert(listing_answer(original, Err(e)));
                return Err(e);
            },
        };
        assert(count_answer(count_sql, count_params, Ok(total)));
        let rows = match query_word_rows(&self.connection, &plan.page) {
            Ok(rows) => rows,
            Err(e) => {
                assert(cards_read(page_sql, page_params, Err(e@)));
                assert(listing_answer(original, Err(e)));
                return Err(e);
            },
        };
        assert(cards_read(page_sql, page_params, Ok(rows@)));
        match rows_to_words(rows) {
            Ok(words) => {
                let page = WordPage { words, total };
                assert(rows_verdict(rows@) == Ok::<Seq<WordRecord>, Seq<char>>(records(page.words@)));
                assert(listing_answer(original, Ok(page)));
                Ok(page)
            },
            Err(e) => {
                assert(rows_verdict(rows@) == Err::<Seq<WordRecord>, Seq<char>>(e@));
                assert(listing_answer(original, Err(e)));
                Err(e)
            },
        }
    }

    /// Stores a new card for the trimmed word and URL with a fresh id, no
    /// dictionary data, and the current time as creation and update time.
    pub fn create(&self, input: WordInput) -> (r: Result<VocabularyWord, String>)
        ensures
            match input_verdict(input.word@, input.url@) {
                Err(message) => r matches Err(e) && e@ == message,
                Ok(v) => match r {
                    Ok(word) => word@ == new_card(word.id@, v.0, v.1, input.status, word.created_at)
                        && word.id@.len() == 36 && exists|n: usize|
                        #![trigger executed(INSERT_WORD_SQL@, insert_params(word@, EMPTY_PARTS_JSON@), Ok(n))]
                        executed(INSERT_WORD_SQL@, insert_params(word@, EMPTY_PARTS_JSON@), Ok(n)),
                    Err(e) => e@ == clock_error_text() || exists|id: Seq<char>, time: i64|
                        #![trigger new_card(id, v.0, v.1, input.status, time)]
                        id.len() == 36 && executed(
                            INSERT_WORD_SQL@,
                            insert_params(new_card(id, v.0, v.1, input.status, time), EMPTY_PARTS_JSON@),
                            Err(e@),
                        ),
                },
            },
    {
        let (word, url) = match validate_input(input.word, input.url) {
            Ok(checked) => checked,
            Err(e) => return Err(e),
        };
        let now = match timestamp() {
            Ok(now) => now,
            Err(e) => return Err(e),
        };
        let record = VocabularyWord {
            id: new_word_id(),
            word,
            url,
            status: input.status,
            phonetic: None,
            parts_of_speech: Vec::new(),
            created_at: now,
            updated_at: now,
        };
        assert(record.parts_of_speech.deep_view() =~= Seq::<Seq<char>>::empty());
        assert(record@ == new_card(record.id@, record.word@, record.url@, input.status, now));
        let statement = insert_statement(&record, EMPTY_PARTS_JSON);
        match execute_statement(&self.connection, &statement) {
            Ok(_) => Ok(record),
            Err(e) => Err(e),
        }
    }

    /// Rewrites the word, URL and status of the card `id` (trimmed and checked
    /// as for a new card) and stamps the update time; answers the card as
    /// stored afterwards.
    pub fn update(&self, id: &str, input: WordInput) -> (r: Result<VocabularyWord, String>)
        ensures
            match input_verdict(input.word@, input.url@) {
                Err(message) => r matches Err(e) && e@ == message,
                Ok(v) => (r matches Err(e) && e@ == clock_error_text()) || exists|time: i64|
                    #![trigger update_params(id@, v.0, v.1, input.status, time)]
                    change_answer(
                        UPDATE_WORD_SQL@,
                        update_params(id@, v.0, v.1, input.status, time),
                        id@,
                        "Word to edit was not found."@,
                        "Updated word was not found."@,
                        record_answer(r),
                    ),
            },
    {
        let status = input.status;
        let ghost given_word = input.word@;
        let ghost given_url = input.url@;
        let (word, url) = match validate_input(input.word, input.url) {
            Ok(checked) => checked,
            Err(e) => return Err(e),
        };
        let updated_at = match timestamp() {
            Ok(now) => now,
            Err(e) => return Err(e),
        };
        let statement = update_statement(id, word.as_str(), url.as_str(), status, updated_at);
        let r = self.change(&statement, id, "Word to edit was not found.", "Updated word was not found.");
        proof {
            let v = input_verdict(given_word, given_url)->Ok_0;
            assert(v.0 == word@ && v.1 == url@);
            assert(change_answer(
                UPDATE_WORD_SQL@,
                update_params(id@, v.0, v.1, status, updated_at),
                id@,
                "Word to edit was not found."@,
                "Updated word was not found."@,
                record_answer(r),
            ));
        }
        r
    }

    /// Stores the phonetic spelling and the normalised parts of speech of the
    /// card `id` and stamps the update time; answers the card as stored
    /// afterwards.
    pub fn save_dictionary_data(
        &self,
        id: &str,
        phonetic: Option<String>,
        parts_of_speech: Vec<String>,
    ) -> (r: Result<VocabularyWord, String>)
        ensures
            (r matches Err(e) && e@ == clock_error_text()) || exists|time: i64|
                #![trigger dictionary_params(id@, phonetic.deep_view(), json_array(normalized_parts(parts_of_speech.deep_view())), time)]
                change_answer(
                    UPDATE_DICTIONARY_SQL@,
                    dictionary_params(
                        id@,
                        phonetic.deep_view(),
                        json_array(normalized_parts(parts_of_speech.deep_view())),
                        time,
                    ),
                    id@,
                    "Word for pronunciation was not found."@,
                    "Saved pronunciation was not found."@,
                    record_answer(r),
                ),
    {
        let ghost given_parts = parts_of_speech.deep_view();
        let ghost given_phonetic = phonetic.deep_view();
        let parts_of_speech = normalize_parts_of_speech(parts_of_speech);
        let parts_json = match text_list_json(&parts_of_speech) {
            Ok(text) => text,
            Err(detail) => {
                let mut message = "Failed to serialize parts of speech: ".to_string();
                message.append(detail.as_str());
                return Err(message);
            },
        };
        let updated_at = match timestamp() {
            Ok(now) => now,
            Err(e) => return Err(e),
        };
        let statement = dictionary_statement(id, &phonetic, parts_json.as_str(), updated_at);
        let r = self.change(
            &statement,
            id,
            "Word for pronunciation was not found.",
            "Saved pronunciation was not found.",
        );
        proof {
            let json = json_array(normalized_parts(given_parts));
            assert(json == parts_json@);
            assert(change_answer(
                UPDATE_DICTIONARY_SQL@,
                dictionary_params(id@, given_phonetic, json, updated_at),
                id@,
                "Word for pronunciation was not found."@,
                "Saved pronunciation was not found."@,
                record_answer(r),
            ));
        }
        r
    }

    /// Runs a statement that changes the card `id`, then looks the card up:
    /// `missing_change` when no row changed, `missing_card` when the lookup
    /// finds none.
    fn change(&self, statement: &SqlStatement, id: &str, missing_change: &str, missing_card: &str) -> (r:
        Result<VocabularyWord, String>)
        ensures
            change_answer(
                statement.sql@,
                params_view(statement.params@),
                id@,
                missing_change@,
                missing_card@,
                record_answer(r),
            ),
    {
        let changed = match execute_statement(&self.connection, statement) {
            Ok(changed) => changed,
            Err(e) => return Err(e),
        };
        match require_changed(changed, missing_change) {
            Ok(()) => {},
            Err(e) => return Err(e),
        }
        let found = match self.find(id) {
            Ok(found) => found,
            Err(e) => return Err(e),
        };
        require_found(found, missing_card)
    }

    /// Removes the card `id`; an error when there is no such card.
    pub fn delete(&self, id: &str) -> (r: Result<(), String>)
        ensures
            delete_answer(id@, answer_view(r)),
    {
        let statement = id_statement(DELETE_WORD_SQL, id);
        let changed = match execute_statement(&self.connection, &statement) {
            Ok(changed) => changed,
            Err(e) => return Err(e),
        };
        require_changed(changed, "Word to delete was not found.")
    }

    /// The card `id`, if the database holds one.
    fn find(&self, id: &str) -> (r: Result<Option<VocabularyWord>, String>)
        ensures
            lookup_answer(
                id@,
                match r {
                    Ok(Some(word)) => Ok(Some(word@)),
                    Ok(None) => Ok(None),
                    Err(e) => Err(e@),
                },
            ),
    {
        let statement = id_statement(FIND_WORD_SQL, id);
        assert(params_view(statement.params@)[0] == SqlParam::Text(id@));
        let rows = match query_word_rows(&self.connection, &statement) {
            Ok(rows) => rows,
            Err(e) => return Err(e),
        };
        first_word(rows)
    }
}

} // verus!
