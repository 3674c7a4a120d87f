use vocabulary_builder::pronunciation::{
    preferred_parts_of_speech, preferred_phonetic, pronunciation_from_entries,
    DictionaryEntry, DictionaryMeaning, DictionaryPhonetic,
};

fn meaning(part: Option<&str>) -> DictionaryMeaning {
    DictionaryMeaning {
        part_of_speech: part.map(|p| p.to_string()),
    }
}

fn phonetic(text: Option<&str>) -> DictionaryPhonetic {
    DictionaryPhonetic {
        text: text.map(|t| t.to_string()),
    }
}

#[test]
fn selects_ipa_from_dictionary_entries() {
    let entries = vec![DictionaryEntry {
        phonetic: None,
        phonetics: vec![DictionaryPhonetic {
            text: Some("həˈləʊ".to_string()),
        }],
        meanings: vec![
            DictionaryMeaning {
                part_of_speech: Some("noun".to_string()),
            },
            DictionaryMeaning {
                part_of_speech: Some("verb".to_string()),
            },
            DictionaryMeaning {
                part_of_speech: Some("noun".to_string()),
            },
        ],
    }];

    assert_eq!(preferred_phonetic(&entries).as_deref(), Some("həˈləʊ"));
    assert_eq!(preferred_parts_of_speech(&entries), ["noun", "verb"]);
}

#[test]
fn entry_phonetic_fields_come_before_listed_spellings() {
    let entries = vec![
        DictionaryEntry {
            phonetic: None,
            phonetics: vec![phonetic(Some("/first/"))],
            meanings: vec![],
        },
        DictionaryEntry {
            phonetic: Some("  /second/  ".to_string()),
            phonetics: vec![],
            meanings: vec![],
        },
    ];
    assert_eq!(preferred_phonetic(&entries).as_deref(), Some("/second/"));
}

#[test]
fn blank_spellings_are_skipped() {
    let entries = vec![DictionaryEntry {
        phonetic: Some("   ".to_string()),
        phonetics: vec![phonetic(None), phonetic(Some("\t")), phonetic(Some(" /ok/ "))],
        meanings: vec![],
    }];
    assert_eq!(preferred_phonetic(&entries).as_deref(), Some("/ok/"));
}

#[test]
fn no_spelling_and_no_parts_from_empty_answer() {
    let entries: Vec<DictionaryEntry> = vec![];
    assert_eq!(preferred_phonetic(&entries), None);
    assert!(preferred_parts_of_speech(&entries).is_empty());
}

#[test]
fn parts_of_speech_span_entries_trimmed_and_once() {
    let entries = vec![
        DictionaryEntry {
            phonetic: None,
            phonetics: vec![],
            meanings: vec![meaning(Some(" noun ")), meaning(None), meaning(Some(""))],
        },
        DictionaryEntry {
            phonetic: None,
            phonetics: vec![],
            meanings: vec![meaning(Some("verb")), meaning(Some("noun"))],
        },
    ];
    let found = pronunciation_from_entries(&entries);
    assert_eq!(found.parts_of_speech, vec!["noun".to_string(), "verb".to_string()]);
    assert_eq!(found.phonetic, None);
}
