use vocabulary_builder::model::{
    WordInput, WordListRequest, WordSort, WordStatus, WORDS_PER_PAGE,
};
use vocabulary_builder::repository::VocabularyRepository;
use vocabulary_builder::validation::validate_input;

fn input(word: &str, status: WordStatus) -> WordInput {
    WordInput {
        word: word.to_string(),
        url: "https://dictionary.example.com/word".to_string(),
        status,
    }
}

fn list_request(status: Option<WordStatus>, query: Option<&str>, page: u32) -> WordListRequest {
    WordListRequest {
        status,
        query: query.map(ToString::to_string),
        sort: WordSort::default(),
        page,
    }
}

fn in_memory() -> VocabularyRepository {
    VocabularyRepository::in_memory().expect("in-memory database should open")
}

#[test]
fn creates_filters_updates_and_deletes_words() {
    let repository = in_memory();
    let created = repository
        .create(input("ephemeral", WordStatus::Unfamiliar))
        .unwrap();
    repository
        .save_dictionary_data(
            &created.id,
            Some("ɪˈfemərəl".to_string()),
            vec!["adjective".to_string()],
        )
        .unwrap();
    assert_eq!(
        repository
            .list(list_request(Some(WordStatus::Unfamiliar), None, 1))
            .unwrap()
            .total,
        1
    );

    let updated = repository
        .update(&created.id, input("ephemeral", WordStatus::Familiar))
        .unwrap();
    assert_eq!(updated.status, WordStatus::Familiar);
    assert_eq!(updated.phonetic.as_deref(), Some("ɪˈfemərəl"));
    assert_eq!(updated.parts_of_speech, vec!["adjective".to_string()]);
    assert_eq!(
        repository
            .list(list_request(Some(WordStatus::Unfamiliar), None, 1))
            .unwrap()
            .total,
        0
    );
    assert_eq!(
        repository
            .list(list_request(Some(WordStatus::Familiar), None, 1))
            .unwrap()
            .total,
        1
    );

    repository.delete(&created.id).unwrap();
    assert_eq!(
        repository.list(list_request(None, None, 1)).unwrap().total,
        0
    );
}

#[test]
fn rejects_invalid_input() {
    assert!(validate_input(" ".to_string(), "https://example.com".to_string()).is_err());
    assert!(validate_input("word".to_string(), "file:///local".to_string()).is_err());
}

#[test]
fn paginates_words_and_filters_by_status() {
    let repository = in_memory();
    let empty_page = repository.list(list_request(None, None, 1)).unwrap();
    assert_eq!(empty_page.total, 0);
    assert!(empty_page.words.is_empty());

    repository
        .create(input("word-00", WordStatus::Known))
        .unwrap();
    let one_word_page = repository.list(list_request(None, None, 1)).unwrap();
    assert_eq!(one_word_page.total, 1);
    assert_eq!(one_word_page.words.len(), 1);

    for index in 1..10 {
        let status = if index < 3 {
            WordStatus::Known
        } else {
            WordStatus::Unfamiliar
        };
        repository
            .create(input(&format!("word-{index:02}"), status))
            .unwrap();
    }

    let ten_word_page = repository.list(list_request(None, None, 1)).unwrap();
    assert_eq!(ten_word_page.total, WORDS_PER_PAGE);
    assert_eq!(ten_word_page.words.len(), WORDS_PER_PAGE as usize);

    repository
        .create(input("word-10", WordStatus::Unfamiliar))
        .unwrap();
    let first_page = repository.list(list_request(None, None, 1)).unwrap();
    assert_eq!(first_page.total, 11);
    assert_eq!(first_page.words.len(), WORDS_PER_PAGE as usize);

    let second_page = repository.list(list_request(None, None, 2)).unwrap();
    assert_eq!(second_page.total, 11);
    assert_eq!(second_page.words.len(), 1);

    let known_words = repository
        .list(list_request(Some(WordStatus::Known), None, 1))
        .unwrap();
    assert_eq!(known_words.total, 3);
    assert!(known_words
        .words
        .iter()
        .all(|word| word.status == WordStatus::Known));
}

#[test]
fn searches_words_across_pages_and_statuses() {
    let repository = in_memory();
    repository
        .create(input("Ephemeral", WordStatus::Unfamiliar))
        .unwrap();
    repository
        .create(input("ephemeris", WordStatus::Familiar))
        .unwrap();
    repository
        .create(input("transport", WordStatus::Known))
        .unwrap();
    repository
        .create(input("100%_ready", WordStatus::Known))
        .unwrap();

    let partial_match = repository
        .list(list_request(None, Some("  PHEM  "), 1))
        .unwrap();
    assert_eq!(partial_match.total, 2);
    assert_eq!(partial_match.words.len(), 2);

    let filtered_match = repository
        .list(list_request(Some(WordStatus::Unfamiliar), Some("ephem"), 1))
        .unwrap();
    assert_eq!(filtered_match.total, 1);
    assert_eq!(filtered_match.words[0].word, "Ephemeral");

    let literal_wildcards = repository.list(list_request(None, Some("%_"), 1)).unwrap();
    assert_eq!(literal_wildcards.total, 1);
    assert_eq!(literal_wildcards.words[0].word, "100%_ready");

    for index in 0..11 {
        repository
            .create(input(
                &format!("search-result-{index:02}"),
                WordStatus::Known,
            ))
            .unwrap();
    }
    let first_page = repository
        .list(list_request(None, Some("search-result"), 1))
        .unwrap();
    assert_eq!(first_page.total, 11);
    assert_eq!(first_page.words.len(), WORDS_PER_PAGE as usize);

    let second_page = repository
        .list(list_request(None, Some("search-result"), 2))
        .unwrap();
    assert_eq!(second_page.words.len(), 1);

    let blank_query = repository.list(list_request(None, Some("   "), 1)).unwrap();
    assert_eq!(blank_query.total, 15);
}

#[test]
fn sorts_words_by_update_time_or_word() {
    let location = "file:sorts_words_by_update_time_or_word?mode=memory&cache=shared";
    let connection = rusqlite::Connection::open(location).unwrap();
    let repository = VocabularyRepository::open(location).unwrap();
    let alpha = repository
        .create(input("alpha", WordStatus::Known))
        .unwrap();
    let beta = repository.create(input("beta", WordStatus::Known)).unwrap();
    let gamma = repository
        .create(input("gamma", WordStatus::Known))
        .unwrap();

    for (id, updated_at) in [(&alpha.id, 10_i64), (&beta.id, 30), (&gamma.id, 20)] {
        connection
            .execute(
                "UPDATE words SET updated_at = ?1 WHERE id = ?2",
                (updated_at, id.as_str()),
            )
            .unwrap();
    }

    let newest_first = repository.list(list_request(None, None, 1)).unwrap().words;
    assert_eq!(newest_first[0].word, "beta");

    let mut oldest_first = list_request(None, None, 1);
    oldest_first.sort = WordSort::UpdatedAtAsc;
    assert_eq!(
        repository.list(oldest_first).unwrap().words[0].word,
        "alpha"
    );

    let mut alphabetical = list_request(None, None, 1);
    alphabetical.sort = WordSort::WordAsc;
    let words = repository.list(alphabetical).unwrap().words;
    assert_eq!(
        words.into_iter().map(|word| word.word).collect::<Vec<_>>(),
        vec!["alpha", "beta", "gamma"]
    );
}

#[test]
fn stores_dictionary_data() {
    let repository = in_memory();
    let created = repository
        .create(input("hello", WordStatus::Unfamiliar))
        .unwrap();

    let enriched = repository
        .save_dictionary_data(
            &created.id,
            Some("həˈləʊ".to_string()),
            vec!["noun".to_string(), "verb".to_string(), "noun".to_string()],
        )
        .unwrap();

    assert_eq!(enriched.phonetic.as_deref(), Some("həˈləʊ"));
    assert_eq!(
        enriched.parts_of_speech,
        vec!["noun".to_string(), "verb".to_string()]
    );
}

#[test]
fn page_zero_is_rejected() {
    let repository = in_memory();
    assert_eq!(
        repository.list(list_request(None, None, 0)).unwrap_err(),
        "Page number must start at 1."
    );
}

#[test]
fn a_page_past_the_end_is_empty_but_counts() {
    let repository = in_memory();
    repository.create(input("only", WordStatus::Known)).unwrap();
    let page = repository.list(list_request(None, None, 3)).unwrap();
    assert_eq!(page.total, 1);
    assert!(page.words.is_empty());
}

#[test]
fn created_card_is_trimmed_and_stamped() {
    let repository = in_memory();
    let created = repository
        .create(WordInput {
            word: "  serendipity ".to_string(),
            url: " https://example.com/a ".to_string(),
            status: WordStatus::Known,
        })
        .unwrap();
    assert_eq!(created.word, "serendipity");
    assert_eq!(created.url, "https://example.com/a");
    assert_eq!(created.status, WordStatus::Known);
    assert_eq!(created.phonetic, None);
    assert!(created.parts_of_speech.is_empty());
    assert_eq!(created.created_at, created.updated_at);
    assert_eq!(created.id.len(), 36);
    assert!(created.created_at > 1_600_000_000);
}

#[test]
fn missing_cards_are_reported() {
    let repository = in_memory();
    assert_eq!(
        repository
            .update("missing", input("word", WordStatus::Known))
            .unwrap_err(),
        "Word to edit was not found."
    );
    assert_eq!(
        repository.delete("missing").unwrap_err(),
        "Word to delete was not found."
    );
    assert_eq!(
        repository
            .save_dictionary_data("missing", None, vec![])
            .unwrap_err(),
        "Word for pronunciation was not found."
    );
}

#[test]
fn update_checks_input_before_looking_up_the_card() {
    let repository = in_memory();
    assert_eq!(
        repository
            .update("missing", input("   ", WordStatus::Known))
            .unwrap_err(),
        "A word is required."
    );
}

#[test]
fn deleting_twice_fails_the_second_time() {
    let repository = in_memory();
    let created = repository.create(input("once", WordStatus::Known)).unwrap();
    repository.delete(&created.id).unwrap();
    assert!(repository.delete(&created.id).is_err());
}

#[test]
fn dictionary_data_without_phonetic_clears_it() {
    let repository = in_memory();
    let created = repository.create(input("word", WordStatus::Known)).unwrap();
    repository
        .save_dictionary_data(&created.id, Some("/w/".to_string()), vec!["noun".to_string()])
        .unwrap();
    let saved = repository
        .save_dictionary_data(&created.id, None, vec![" ".to_string()])
        .unwrap();
    assert_eq!(saved.phonetic, None);
    assert!(saved.parts_of_speech.is_empty());
}

#[test]
fn opening_an_unreachable_file_fails() {
    assert!(VocabularyRepository::open("/nonexistent-directory/for/vocabulary.db").is_err());
}

#[test]
fn opening_an_existing_database_again_keeps_its_cards() {
    let location = "file:opening_an_existing_database_again?mode=memory&cache=shared";
    let first = VocabularyRepository::open(location).unwrap();
    let created = first.create(input("kept", WordStatus::Known)).unwrap();
    let second = VocabularyRepository::open(location).unwrap();
    let page = second.list(list_request(None, Some("kept"), 1)).unwrap();
    assert_eq!(page.total, 1);
    assert_eq!(page.words[0].id, created.id);
}

fn spoil(connection: &rusqlite::Connection, sql: &str, id: &str) {
    connection.execute(sql, [id]).unwrap();
}

#[test]
fn a_card_with_bad_parts_and_an_unreadable_word_reports_the_parts() {
    let location = "file:bad_parts_and_unreadable_word?mode=memory&cache=shared";
    let connection = rusqlite::Connection::open(location).unwrap();
    let repository = VocabularyRepository::open(location).unwrap();
    let card = repository.create(input("broken", WordStatus::Known)).unwrap();
    spoil(&connection, "UPDATE words SET parts_of_speech = 'oops', word = x'00' WHERE id = ?1", &card.id);
    let error = repository.list(list_request(None, None, 1)).unwrap_err();
    assert!(error.starts_with("Conversion error from type Text at index: 5, Invalid parts of speech JSON: "));
}

#[test]
fn an_unreadable_word_is_reported_as_a_column_type_error() {
    let location = "file:unreadable_word?mode=memory&cache=shared";
    let connection = rusqlite::Connection::open(location).unwrap();
    let repository = VocabularyRepository::open(location).unwrap();
    let card = repository.create(input("broken", WordStatus::Known)).unwrap();
    spoil(&connection, "UPDATE words SET word = x'00' WHERE id = ?1", &card.id);
    let error = repository.list(list_request(None, None, 1)).unwrap_err();
    assert!(error.contains("Invalid column type Blob at index: 1"), "{error}");
}

#[test]
fn the_first_bad_card_in_listing_order_is_reported() {
    let location = "file:first_bad_card_in_order?mode=memory&cache=shared";
    let connection = rusqlite::Connection::open(location).unwrap();
    let repository = VocabularyRepository::open(location).unwrap();
    let older = repository.create(input("older", WordStatus::Known)).unwrap();
    let newer = repository.create(input("newer", WordStatus::Known)).unwrap();
    spoil(&connection, "UPDATE words SET word = x'00', updated_at = 10 WHERE id = ?1", &older.id);
    spoil(&connection, "UPDATE words SET parts_of_speech = 'oops', updated_at = 20 WHERE id = ?1", &newer.id);
    let error = repository.list(list_request(None, None, 1)).unwrap_err();
    assert!(error.starts_with("Conversion error from type Text at index: 5, Invalid parts of speech JSON: "));
}
