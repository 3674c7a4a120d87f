//! The data that the vocabulary notebook keeps and exchanges.
use vstd::prelude::*;

verus! {

/// The number of word cards on one page of a listing.
pub const WORDS_PER_PAGE: u32 = 10;

/// How well the learner knows a word.
#[derive(Clone, Copy, Debug, PartialEq, Eq, Structural)]
pub enum WordStatus {
    Unfamiliar,
    Known,
    Familiar,
}

/// The order in which a listing returns word cards.
#[derive(Clone, Copy, Debug, PartialEq, Eq, Structural)]
pub enum WordSort {
    /// Most recently updated first.
    UpdatedAtDesc,
    /// Least recently updated first.
    UpdatedAtAsc,
    /// Alphabetical, ignoring ASCII case.
    WordAsc,
}

/// The stored name of a status.
pub open spec fn status_text(status: WordStatus) -> Seq<char> {
    match status {
        WordStatus::Unfamiliar => "unfamiliar"@,
        WordStatus::Known => "known"@,
        WordStatus::Familiar => "familiar"@,
    }
}

/// The status whose stored name is `text`, if any.
pub open spec fn status_named(text: Seq<char>) -> Option<WordStatus> {
    if text == "unfamiliar"@ {
        Some(WordStatus::Unfamiliar)
    } else if text == "known"@ {
        Some(WordStatus::Known)
    } else if text == "familiar"@ {
        Some(WordStatus::Familiar)
    } else {
        None
    }
}

/// The `ORDER BY` terms of a sort order. Ties fall back to the other key and
/// then to the card's id, so that the order is total.
pub open spec fn order_clause(sort: WordSort) -> Seq<char> {
    match sort {
        WordSort::UpdatedAtDesc => "updated_at DESC, word COLLATE NOCASE ASC, id ASC"@,
        WordSort::UpdatedAtAsc => "updated_at ASC, word COLLATE NOCASE ASC, id ASC"@,
        WordSort::WordAsc => "word COLLATE NOCASE ASC, updated_at DESC, id ASC"@,
    }
}

impl WordStatus {
    /// The name under which the status is stored.
    pub fn as_str(&self) -> (r: &'static str)
        ensures
            r@ == status_text(*self),
    {
        match self {
            WordStatus::Unfamiliar => "unfamiliar",
            WordStatus::Known => "known",
            WordStatus::Familiar => "familiar",
        }
    }

    /// The status stored under `value`; any other text is a conversion error
    /// of the status column, reported as the database layer reports it.
    pub fn from_str(value: &str) -> (r: Result<WordStatus, String>)
        ensures
            match r {
                Ok(status) => status_named(value@) == Some(status),
                Err(message) => status_named(value@) is None && message@
                    == crate::store::conversion_failure_text(
                    0,
                    "Unknown word status: "@ + value@,
                ),
            },
    {
        if crate::text::text_equals(value, "unfamiliar") {
            Ok(WordStatus::Unfamiliar)
        } else if crate::text::text_equals(value, "known") {
            Ok(WordStatus::Known)
        } else if crate::text::text_equals(value, "familiar") {
            Ok(WordStatus::Familiar)
        } else {
            let mut detail = String::new();
            detail.append("Unknown word status: ");
            detail.append(value);
            Err(crate::store::conversion_failure_message(0, detail.as_str()))
        }
    }
}

/// The stored names of the statuses tell them apart: reading back the name of
/// a status gives that status.
pub proof fn lemma_status_text_round_trip(status: WordStatus)
    ensures
        status_named(status_text(status)) == Some(status),
{
    reveal_strlit("unfamiliar");
    reveal_strlit("known");
    reveal_strlit("familiar");
    match status {
        WordStatus::Unfamiliar => {},
        WordStatus::Known => {
            assert("known"@ != "unfamiliar"@) by {
                assert("known"@.len() != "unfamiliar"@.len());
            }
        },
        WordStatus::Familiar => {
            assert("familiar"@[0] != "unfamiliar"@[0]);
            assert("familiar"@.len() != "known"@.len());
        },
    }
}

impl WordSort {
    /// The `ORDER BY` terms of the listing statement for this order.
    pub fn order_by(&self) -> (r: &'static str)
        ensures
            r@ == order_clause(*self),
    {
        match self {
            WordSort::UpdatedAtDesc => "updated_at DESC, word COLLATE NOCASE ASC, id ASC",
            WordSort::UpdatedAtAsc => "updated_at ASC, word COLLATE NOCASE ASC, id ASC",
            WordSort::WordAsc => "word COLLATE NOCASE ASC, updated_at DESC, id ASC",
        }
    }
}

impl Default for WordSort {
    /// Listings show the most recently updated cards first unless told
    /// otherwise.
    fn default() -> (r: WordSort)
        ensures
            r == WordSort::UpdatedAtDesc,
    {
        WordSort::UpdatedAtDesc
    }
}

/// A word card.
#[derive(Clone, Debug)]
pub struct VocabularyWord {
    pub id: String,
    pub word: String,
    pub url: String,
    pub status: WordStatus,
    pub phonetic: Option<String>,
    pub parts_of_speech: Vec<String>,
    pub created_at: i64,
    pub updated_at: i64,
}

/// A word card as plain values.
pub struct WordRecord {
    pub id: Seq<char>,
    pub word: Seq<char>,
    pub url: Seq<char>,
    pub status: WordStatus,
    pub phonetic: Option<Seq<char>>,
    pub parts_of_speech: Seq<Seq<char>>,
    pub created_at: i64,
    pub updated_at: i64,
}

impl View for VocabularyWord {
    type V = WordRecord;

    open spec fn view(&self) -> WordRecord {
        WordRecord {
            id: self.id@,
            word: self.word@,
            url: self.url@,
            status: self.status,
            phonetic: self.phonetic.deep_view(),
            parts_of_speech: self.parts_of_speech.deep_view(),
            created_at: self.created_at,
            updated_at: self.updated_at,
        }
    }
}

/// What the learner types in to create or edit a card.
#[derive(Clone, Debug)]
pub struct WordInput {
    pub word: String,
    pub url: String,
    pub status: WordStatus,
}

/// One page of a listing: an optional status filter, an optional search
/// query, an order and a page number counted from 1.
#[derive(Clone, Debug)]
pub struct WordListRequest {
    pub status: Option<WordStatus>,
    pub query: Option<String>,
    pub sort: WordSort,
    pub page: u32,
}

/// The cards of one page and the number of cards that match in all.
#[derive(Clone, Debug)]
pub struct WordPage {
    pub words: Vec<VocabularyWord>,
    pub total: u32,
}

} // verus!
