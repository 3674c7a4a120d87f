//! Labels, filters and page counts of the interface.
use vstd::prelude::*;
use crate::model::{status_named, status_text, WordStatus, WORDS_PER_PAGE};
use crate::text::{decimal, digit_char, normalized_query, push_char, text_equals, trim, trimmed};
use super::copy::{text, text_of};

verus! {

/// The interface language.
#[derive(Clone, Copy, Debug, PartialEq, Eq, Structural)]
pub enum Language {
    Zh,
    En,
    Ja,
}

/// The language a language picker value names; Chinese for anything else.
pub open spec fn language_named(value: Seq<char>) -> Language {
    if value == "en"@ {
        Language::En
    } else if value == "ja"@ {
        Language::Ja
    } else {
        Language::Zh
    }
}

/// The language picker value of a language.
pub open spec fn language_value(language: Language) -> Seq<char> {
    match language {
        Language::Zh => "zh"@,
        Language::En => "en"@,
        Language::Ja => "ja"@,
    }
}

impl Language {
    /// The language a picker value names; Chinese for anything else.
    pub fn from_value(value: &str) -> (r: Language)
        ensures
            r == language_named(value@),
    {
        if text_equals(value, "en") {
            Language::En
        } else if text_equals(value, "ja") {
            Language::Ja
        } else {
            Language::Zh
        }
    }

    /// The picker value of the language.
    pub fn value(self) -> (r: &'static str)
        ensures
            r@ == language_value(self),
    {
        match self {
            Language::Zh => "zh",
            Language::En => "en",
            Language::Ja => "ja",
        }
    }
}

/// Reading back the picker value of a language gives that language.
pub proof fn lemma_language_value_round_trip(language: Language)
    ensures
        language_named(language_value(language)) == language,
{
    reveal_strlit("zh");
    reveal_strlit("en");
    reveal_strlit("ja");
    assert("zh"@[0] != "en"@[0]);
    assert("zh"@[0] != "ja"@[0]);
    assert("ja"@[0] != "en"@[0]);
}

/// The status a filter value selects; `None` ("all") for anything else.
pub fn filter_to_status(value: &str) -> (r: Option<WordStatus>)
    ensures
        r == status_named(value@),
{
    if text_equals(value, "unfamiliar") {
        Some(WordStatus::Unfamiliar)
    } else if text_equals(value, "known") {
        Some(WordStatus::Known)
    } else if text_equals(value, "familiar") {
        Some(WordStatus::Familiar)
    } else {
        None
    }
}

/// The status a form value selects; unfamiliar for anything else.
pub fn status_from_value(value: &str) -> (r: WordStatus)
    ensures
        r == match status_named(value@) {
            Some(status) => status,
            None => WordStatus::Unfamiliar,
        },
{
    match filter_to_status(value) {
        Some(status) => status,
        None => WordStatus::Unfamiliar,
    }
}

/// The form value of a status.
pub fn status_value(status: &WordStatus) -> (r: &'static str)
    ensures
        r@ == status_text(*status),
{
    status.as_str()
}

/// The search text the interface sends: the trimmed draft, or nothing when it
/// is blank.
pub fn normalized_search_query(value: &str) -> (r: Option<String>)
    ensures
        r.deep_view() == normalized_query(Some(value@)),
{
    let value = trim(value);
    if value.is_empty() {
        None
    } else {
        Some(value.to_owned())
    }
}

/// The number of pages a listing of `total` cards fills; at least one.
pub open spec fn page_count(total: nat) -> nat {
    if total == 0 {
        1
    } else {
        ((total + WORDS_PER_PAGE - 1) / (WORDS_PER_PAGE as int)) as nat
    }
}

/// The number of pages a listing of `total` cards fills; at least one.
pub fn total_pages(total: u32) -> (r: u32)
    ensures
        r == page_count(total as nat),
{
    let full = total / WORDS_PER_PAGE;
    let pages = if total % WORDS_PER_PAGE == 0 {
        full
    } else {
        full + 1
    };
    if pages == 0 {
        1
    } else {
        pages
    }
}

/// The page to move to after a listing answered: its last page when the
/// requested page lies past the end of a non-empty listing, and none (stay)
/// otherwise.
pub fn corrected_page(requested: u32, total: u32) -> (r: Option<u32>)
    ensures
        total > 0 && requested > page_count(total as nat) ==> r == Some(
            page_count(total as nat) as u32,
        ),
        !(total > 0 && requested > page_count(total as nat)) ==> r is None,
{
    let last_page = total_pages(total);
    if total > 0 && requested > last_page {
        Some(last_page)
    } else {
        None
    }
}

/// The search text a submitted draft asks for: the draft, trimmed.
pub fn submitted_query(draft: &str) -> (r: String)
    ensures
        r@ == trimmed(draft@),
{
    trim(draft).to_string()
}

/// Which message an empty listing shows.
#[derive(Clone, Copy, Debug, PartialEq, Eq, Structural)]
pub enum EmptyListing {
    /// No card at all.
    NoCards,
    /// A search over all statuses found nothing.
    NoSearchMatch,
    /// A search under a status filter found nothing.
    NoFilteredSearchMatch,
    /// A status filter without search found nothing.
    NoStatusMatch,
}

/// The message of an empty listing: from whether any card passes the filter
/// (`word_count`), whether all statuses are shown, and whether a search is
/// active; none when cards exist beyond the page shown.
pub fn empty_listing(word_count: u32, all_statuses: bool, searching: bool) -> (r: Option<EmptyListing>)
    ensures
        r == (if word_count == 0 && all_statuses && !searching {
            Some(EmptyListing::NoCards)
        } else if searching && all_statuses {
            Some(EmptyListing::NoSearchMatch)
        } else if searching {
            Some(EmptyListing::NoFilteredSearchMatch)
        } else if word_count == 0 {
            Some(EmptyListing::NoStatusMatch)
        } else {
            None
        }),
{
    if word_count == 0 && all_statuses && !searching {
        Some(EmptyListing::NoCards)
    } else if searching && all_statuses {
        Some(EmptyListing::NoSearchMatch)
    } else if searching {
        Some(EmptyListing::NoFilteredSearchMatch)
    } else if word_count == 0 {
        Some(EmptyListing::NoStatusMatch)
    } else {
        None
    }
}

/// Every card of a listing falls on one of its pages, and the last page is not
/// empty: page `p` holds the cards from `(p - 1) * 10`, so the pages hold
/// `total` cards between them and the last one starts below `total` (or is the
/// single empty page of an empty listing).
pub proof fn lemma_page_count_covers(total: nat)
    ensures
        page_count(total) >= 1,
        total <= page_count(total) * WORDS_PER_PAGE,
        total == 0 || (page_count(total) - 1) * WORDS_PER_PAGE < total,
{
}

/// The label of a status, in a language.
pub open spec fn status_label_text(status: WordStatus, language: Language) -> &'static str {
    match (status, language) {
        (WordStatus::Unfamiliar, Language::Zh) => "陌生",
        (WordStatus::Unfamiliar, Language::En) => "Unfamiliar",
        (WordStatus::Unfamiliar, Language::Ja) => "知らない",
        (WordStatus::Known, Language::Zh) => "了解",
        (WordStatus::Known, Language::En) => "Known",
        (WordStatus::Known, Language::Ja) => "知っている",
        (WordStatus::Familiar, Language::Zh) => "熟悉",
        (WordStatus::Familiar, Language::En) => "Familiar",
        (WordStatus::Familiar, Language::Ja) => "身についている",
    }
}

/// The label of a status, in a language.
pub fn status_label(status: &WordStatus, language: Language) -> (r: &'static str)
    ensures
        r == status_label_text(*status, language),
{
    match (status, language) {
        (WordStatus::Unfamiliar, Language::Zh) => "陌生",
        (WordStatus::Unfamiliar, Language::En) => "Unfamiliar",
        (WordStatus::Unfamiliar, Language::Ja) => "知らない",
        (WordStatus::Known, Language::Zh) => "了解",
        (WordStatus::Known, Language::En) => "Known",
        (WordStatus::Known, Language::Ja) => "知っている",
        (WordStatus::Familiar, Language::Zh) => "熟悉",
        (WordStatus::Familiar, Language::En) => "Familiar",
        (WordStatus::Familiar, Language::Ja) => "身についている",
    }
}

/// The heading of a filtered catalog, in a language.
pub open spec fn filter_heading_text(status: WordStatus, language: Language) -> &'static str {
    match (status, language) {
        (WordStatus::Unfamiliar, Language::Zh) => "陌生词汇",
        (WordStatus::Unfamiliar, Language::En) => "Unfamiliar words",
        (WordStatus::Unfamiliar, Language::Ja) => "知らない単語",
        (WordStatus::Known, Language::Zh) => "已有印象",
        (WordStatus::Known, Language::En) => "Known words",
        (WordStatus::Known, Language::Ja) => "見覚えのある単語",
        (WordStatus::Familiar, Language::Zh) => "熟悉词汇",
        (WordStatus::Familiar, Language::En) => "Familiar words",
        (WordStatus::Familiar, Language::Ja) => "身についている単語",
    }
}

/// `c` in upper case when it is a lower-case ASCII letter.
pub open spec fn ascii_upper(c: char) -> char {
    if 'a' <= c && c <= 'z' {
        ((c as u32) - 32) as char
    } else {
        c
    }
}

/// `s` with its first character in upper case.
pub open spec fn capitalized(s: Seq<char>) -> Seq<char> {
    if s.len() == 0 {
        s
    } else {
        seq![ascii_upper(s[0])] + s.drop_first()
    }
}

/// The English label of a status is the name under which the status is
/// stored, with a capital first letter; the English heading of a filtered
/// catalog is that label followed by " words". So each status is labelled by
/// its own name, and distinct statuses get distinct labels.
pub proof fn lemma_english_status_labels_name_the_status(status: WordStatus)
    ensures
        status_label_text(status, Language::En)@ == capitalized(status_text(status)),
        filter_heading_text(status, Language::En)@ == status_label_text(status, Language::En)@
            + " words"@,
{
    reveal_strlit("unfamiliar");
    reveal_strlit("known");
    reveal_strlit("familiar");
    reveal_strlit("Unfamiliar");
    reveal_strlit("Known");
    reveal_strlit("Familiar");
    reveal_strlit("Unfamiliar words");
    reveal_strlit("Known words");
    reveal_strlit("Familiar words");
    reveal_strlit(" words");
    match status {
        WordStatus::Unfamiliar => {
            assert(status_label_text(status, Language::En)@ =~= capitalized(status_text(status)));
            assert(filter_heading_text(status, Language::En)@ =~= status_label_text(
                status,
                Language::En,
            )@ + " words"@);
        },
        WordStatus::Known => {
            assert(status_label_text(status, Language::En)@ =~= capitalized(status_text(status)));
            assert(filter_heading_text(status, Language::En)@ =~= status_label_text(
                status,
                Language::En,
            )@ + " words"@);
        },
        WordStatus::Familiar => {
            assert(status_label_text(status, Language::En)@ =~= capitalized(status_text(status)));
            assert(filter_heading_text(status, Language::En)@ =~= status_label_text(
                status,
                Language::En,
            )@ + " words"@);
        },
    }
}

/// The catalog heading for a filter value: the status heading, or the "all"
/// label of the interface copy.
pub open spec fn filter_label_text(value: Seq<char>, language: Language) -> &'static str {
    match status_named(value) {
        Some(status) => filter_heading_text(status, language),
        None => text_of(language).all,
    }
}

/// The catalog heading for a filter value, in a language.
pub fn filter_label(value: &str, language: Language) -> (r: &'static str)
    ensures
        r == filter_label_text(value@, language),
{
    let ui = text(language);
    match (filter_to_status(value), language) {
        (Some(WordStatus::Unfamiliar), Language::Zh) => "陌生词汇",
        (Some(WordStatus::Unfamiliar), Language::En) => "Unfamiliar words",
        (Some(WordStatus::Unfamiliar), Language::Ja) => "知らない単語",
        (Some(WordStatus::Known), Language::Zh) => "已有印象",
        (Some(WordStatus::Known), Language::En) => "Known words",
        (Some(WordStatus::Known), Language::Ja) => "見覚えのある単語",
        (Some(WordStatus::Familiar), Language::Zh) => "熟悉词汇",
        (Some(WordStatus::Familiar), Language::En) => "Familiar words",
        (Some(WordStatus::Familiar), Language::Ja) => "身についている単語",
        (None, _) => ui.all,
    }
}

/// The character of a decimal digit.
fn digit(d: u32) -> (r: char)
    requires
        d < 10,
    ensures
        r == digit_char(d as nat),
{
    if d == 0 { '0' } else if d == 1 { '1' } else if d == 2 { '2' } else if d == 3 { '3' }
    else if d == 4 { '4' } else if d == 5 { '5' } else if d == 6 { '6' } else if d == 7 { '7' }
    else if d == 8 { '8' } else { '9' }
}

/// The decimal notation of `n`.
pub fn decimal_text(n: u32) -> (r: String)
    ensures
        r@ == decimal(n as nat),
    decreases n,
{
    if n < 10 {
        let mut s = String::new();
        push_char(&mut s, digit(n));
        s
    } else {
        let mut s = decimal_text(n / 10);
        push_char(&mut s, digit(n % 10));
        s
    }
}

/// The page line under a listing, in a language.
pub open spec fn page_summary_text(language: Language, total: nat, page: nat, pages: nat) -> Seq<char> {
    match language {
        Language::Zh => "共 "@ + decimal(total) + " 条 · 第 "@ + decimal(page) + " / "@ + decimal(pages)
            + " 页"@,
        Language::En => decimal(total) + " words · Page "@ + decimal(page) + " / "@ + decimal(pages),
        Language::Ja => "全 "@ + decimal(total) + " 語 · "@ + decimal(page) + " / "@ + decimal(pages)
            + " ページ"@,
    }
}

/// The page line under a listing: the number of cards, the page and the
/// number of pages.
pub fn page_summary(language: Language, total: u32, page: u32, pages: u32) -> (r: String)
    ensures
        r@ == page_summary_text(language, total as nat, page as nat, pages as nat),
{
    let total_text = decimal_text(total);
    let page_text = decimal_text(page);
    let pages_text = decimal_text(pages);
    let mut s = String::new();
    match language {
        Language::Zh => {
            s.append("共 ");
            s.append(total_text.as_str());
            s.append(" 条 · 第 ");
            s.append(page_text.as_str());
            s.append(" / ");
            s.append(pages_text.as_str());
            s.append(" 页");
        },
        Language::En => {
            s.append(total_text.as_str());
            s.append(" words · Page ");
            s.append(page_text.as_str());
            s.append(" / ");
            s.append(pages_text.as_str());
        },
        Language::Ja => {
            s.append("全 ");
            s.append(total_text.as_str());
            s.append(" 語 · ");
            s.append(page_text.as_str());
            s.append(" / ");
            s.append(pages_text.as_str());
            s.append(" ページ");
        },
    }
    assert(s@ =~= page_summary_text(language, total as nat, page as nat, pages as nat));
    s
}

/// What follows the first `//` of a text, if it holds one.
pub open spec fn after_double_slash(s: Seq<char>) -> Option<Seq<char>>
    decreases s.len(),
{
    if s.len() < 2 {
        None
    } else if s[0] == '/' && s[1] == '/' {
        Some(s.skip(2))
    } else {
        after_double_slash(s.drop_first())
    }
}

/// The part of a text before its first `/` (all of it when it has none).
pub open spec fn before_slash(s: Seq<char>) -> Seq<char>
    decreases s.len(),
{
    if s.len() == 0 {
        s
    } else if s[0] == '/' {
        seq![]
    } else {
        seq![s[0]] + before_slash(s.drop_first())
    }
}

/// The host shown for a source URL: what follows the first `//`, up to the
/// next `/`; for a text without `//`, the text up to its first `/`.
pub open spec fn host_label_text(value: Seq<char>) -> Seq<char> {
    before_slash(
        match after_double_slash(value) {
            Some(rest) => rest,
            None => value,
        },
    )
}

/// The index after the first `//` in `value`, if any.
fn find_after_double_slash(value: &str) -> (r: Option<usize>)
    ensures
        match r {
            Some(i) => i <= value@.len() && after_double_slash(value@) == Some(
                value@.skip(i as int),
            ),
            None => after_double_slash(value@) is None,
        },
{
    let n = value.unicode_len();
    let mut i: usize = 0;
    assert(value@.skip(0) =~= value@);
    while n >= 2 && i <= n - 2
        invariant
            n == value@.len(),
            i <= n,
            after_double_slash(value@) == after_double_slash(value@.skip(i as int)),
        decreases n - i,
    {
        let ghost rest = value@.skip(i as int);
        assert(rest[0] == value@[i as int] && rest[1] == value@[i + 1]);
        if value.get_char(i) == '/' && value.get_char(i + 1) == '/' {
            assert(rest.skip(2) =~= value@.skip(i + 2));
            return Some(i + 2);
        }
        assert(rest.drop_first() =~= value@.skip(i + 1));
        i = i + 1;
    }
    None
}

/// The index of the first `/` in `value` from `start` on, or its length.
fn find_slash(value: &str, start: usize) -> (r: usize)
    requires
        start <= value@.len(),
    ensures
        start <= r <= value@.len(),
        before_slash(value@.skip(start as int)) == value@.subrange(start as int, r as int),
{
    let n = value.unicode_len();
    let mut j: usize = start;
    assert(value@.subrange(start as int, start as int) =~= Seq::<char>::empty());
    while j < n
        invariant
            n == value@.len(),
            start <= j <= n,
            before_slash(value@.skip(start as int)) == value@.subrange(start as int, j as int)
                + before_slash(value@.skip(j as int)),
        decreases n - j,
    {
        let ghost rest = value@.skip(j as int);
        assert(rest[0] == value@[j as int]);
        if value.get_char(j) == '/' {
            assert(before_slash(rest) =~= Seq::<char>::empty());
            assert(value@.subrange(start as int, j as int) + Seq::<char>::empty() =~= value@.subrange(
                start as int,
                j as int,
            ));
            return j;
        }
        assert(rest.drop_first() =~= value@.skip(j + 1));
        assert(value@.subrange(start as int, j + 1) =~= value@.subrange(start as int, j as int)
            + seq![value@[j as int]]);
        j = j + 1;
    }
    assert(value@.skip(n as int) =~= Seq::<char>::empty());
    assert(value@.subrange(start as int, n as int) + Seq::<char>::empty() =~= value@.subrange(
        start as int,
        n as int,
    ));
    n
}

/// The host shown on a word card for its source URL.
pub fn host_label(value: &str) -> (r: String)
    ensures
        r@ == host_label_text(value@),
{
    let start = match find_after_double_slash(value) {
        Some(i) => i,
        None => 0,
    };
    assert(value@.skip(0) =~= value@);
    let end = find_slash(value, start);
    value.substring_char(start, end).to_owned()
}

} // verus!
