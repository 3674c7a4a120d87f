//! Pronunciation and parts of speech picked out of dictionary entries in the
//! shape of the Free Dictionary API's answers.
//!
//! The notebook sends no word off the machine, so nothing here asks a
//! dictionary service; given entries, what is picked out of them is decided
//! here.
use vstd::prelude::*;
use crate::text::{trim, trimmed, lemma_trimmed_idempotent};
use crate::parts::{normalize_parts_of_speech, normalized_parts};

verus! {

/// The dictionary data found for a word.
#[derive(Clone, Debug)]
pub struct Pronunciation {
    pub phonetic: Option<String>,
    pub parts_of_speech: Vec<String>,
}

/// One entry of the dictionary's answer.
#[derive(Clone, Debug)]
pub struct DictionaryEntry {
    pub phonetic: Option<String>,
    pub phonetics: Vec<DictionaryPhonetic>,
    pub meanings: Vec<DictionaryMeaning>,
}

/// One of the phonetic spellings of an entry.
#[derive(Clone, Debug)]
pub struct DictionaryPhonetic {
    pub text: Option<String>,
}

/// One of the meanings of an entry.
#[derive(Clone, Debug)]
pub struct DictionaryMeaning {
    pub part_of_speech: Option<String>,
}

/// The texts that are present, in order.
pub open spec fn present_texts(s: Seq<Option<String>>) -> Seq<Seq<char>>
    decreases s.len(),
{
    if s.len() == 0 {
        seq![]
    } else {
        present_texts(s.drop_last()) + match s.last() {
            Some(t) => seq![t@],
            None => seq![],
        }
    }
}

/// The `phonetic` field of each entry.
pub open spec fn entry_phonetic_fields(entries: Seq<DictionaryEntry>) -> Seq<Option<String>> {
    entries.map_values(|e: DictionaryEntry| e.phonetic)
}

/// The `text` field of each phonetic spelling.
pub open spec fn phonetic_text_fields(phonetics: Seq<DictionaryPhonetic>) -> Seq<Option<String>> {
    phonetics.map_values(|p: DictionaryPhonetic| p.text)
}

/// The `partOfSpeech` field of each meaning.
pub open spec fn meaning_part_fields(meanings: Seq<DictionaryMeaning>) -> Seq<Option<String>> {
    meanings.map_values(|m: DictionaryMeaning| m.part_of_speech)
}

/// The phonetic spellings of all entries, entry after entry.
pub open spec fn nested_phonetic_texts(entries: Seq<DictionaryEntry>) -> Seq<Seq<char>>
    decreases entries.len(),
{
    if entries.len() == 0 {
        seq![]
    } else {
        nested_phonetic_texts(entries.drop_last()) + present_texts(
            phonetic_text_fields(entries.last().phonetics@),
        )
    }
}

/// The parts of speech of all meanings of all entries, in order.
pub open spec fn meaning_parts(entries: Seq<DictionaryEntry>) -> Seq<Seq<char>>
    decreases entries.len(),
{
    if entries.len() == 0 {
        seq![]
    } else {
        meaning_parts(entries.drop_last()) + present_texts(
            meaning_part_fields(entries.last().meanings@),
        )
    }
}

/// The candidates for the phonetic spelling, in order of preference: the
/// `phonetic` field of each entry, then every spelling listed under
/// `phonetics`.
pub open spec fn phonetic_candidates(entries: Seq<DictionaryEntry>) -> Seq<Seq<char>> {
    present_texts(entry_phonetic_fields(entries)) + nested_phonetic_texts(entries)
}

/// The first candidate that is not blank, trimmed.
pub open spec fn first_nonblank(s: Seq<Seq<char>>) -> Option<Seq<char>>
    decreases s.len(),
{
    if s.len() == 0 {
        None
    } else if trimmed(s[0]).len() > 0 {
        Some(trimmed(s[0]))
    } else {
        first_nonblank(s.drop_first())
    }
}

/// The chosen spelling is never blank and is already trimmed.
pub proof fn lemma_first_nonblank_is_trimmed(s: Seq<Seq<char>>)
    ensures
        first_nonblank(s) matches Some(t) ==> t.len() > 0 && trimmed(t) == t,
    decreases s.len(),
{
    if s.len() > 0 {
        lemma_trimmed_idempotent(s[0]);
        lemma_first_nonblank_is_trimmed(s.drop_first());
    }
}

/// The texts present in two lists one after the other are those of the
/// first list, then those of the second.
proof fn lemma_present_texts_concat(a: Seq<Option<String>>, b: Seq<Option<String>>)
    ensures
        present_texts(a + b) == present_texts(a) + present_texts(b),
    decreases b.len(),
{
    if b.len() == 0 {
        assert(a + b =~= a);
        assert(present_texts(a) + present_texts(b) =~= present_texts(a));
    } else {
        assert((a + b).drop_last() =~= a + b.drop_last());
        assert((a + b).last() == b.last());
        lemma_present_texts_concat(a, b.drop_last());
        let tail: Seq<Seq<char>> = match b.last() {
            Some(t) => seq![t@],
            None => seq![],
        };
        assert(present_texts(a) + present_texts(b.drop_last()) + tail =~= present_texts(a) + (
        present_texts(b.drop_last()) + tail));
    }
}

/// When every present text of a list is blank, so is every text it yields.
proof fn lemma_present_texts_blank(s: Seq<Option<String>>)
    requires
        forall|j: int| 0 <= j < s.len() ==> (#[trigger] s[j] matches Some(t) ==> trimmed(t@).len() == 0),
    ensures
        forall|i: int|
            0 <= i < present_texts(s).len() ==> trimmed(#[trigger] present_texts(s)[i]).len() == 0,
    decreases s.len(),
{
    if s.len() > 0 {
        assert forall|j: int| 0 <= j < s.drop_last().len() implies (#[trigger] s.drop_last()[j] matches Some(t)
            ==> trimmed(t@).len() == 0) by {
            assert(s.drop_last()[j] == s[j]);
        }
        lemma_present_texts_blank(s.drop_last());
        assert(s[s.len() - 1] == s.last());
        let prefix = present_texts(s.drop_last());
        assert forall|i: int| 0 <= i < present_texts(s).len() implies trimmed(
            #[trigger] present_texts(s)[i],
        ).len() == 0 by {
            if i < prefix.len() {
                assert(present_texts(s)[i] == prefix[i]);
            } else {
                assert(present_texts(s)[i] == s.last()->Some_0@);
            }
        }
    }
}

/// Blank candidates in front change nothing of the choice.
proof fn lemma_first_nonblank_skips_blank(a: Seq<Seq<char>>, b: Seq<Seq<char>>)
    requires
        forall|i: int| 0 <= i < a.len() ==> trimmed(#[trigger] a[i]).len() == 0,
    ensures
        first_nonblank(a + b) == first_nonblank(b),
    decreases a.len(),
{
    if a.len() == 0 {
        assert(a + b =~= b);
    } else {
        assert((a + b)[0] == a[0]);
        assert((a + b).drop_first() =~= a.drop_first() + b);
        assert forall|i: int| 0 <= i < a.drop_first().len() implies trimmed(
            #[trigger] a.drop_first()[i],
        ).len() == 0 by {
            assert(a.drop_first()[i] == a[i + 1]);
        }
        lemma_first_nonblank_skips_blank(a.drop_first(), b);
    }
}

/// The spelling chosen for a word is that of the first entry whose `phonetic`
/// field is present and not blank, trimmed: the entries before it have none
/// to offer, and whatever follows it (later entries, the spellings listed
/// under `phonetics`) is not considered.
pub proof fn lemma_preferred_phonetic_is_the_first_entry_phonetic(
    entries: Seq<DictionaryEntry>,
    k: int,
)
    requires
        0 <= k < entries.len(),
        entries[k].phonetic matches Some(p) && trimmed(p@).len() > 0,
        forall|j: int|
            0 <= j < k ==> (#[trigger] entries[j].phonetic matches Some(p) ==> trimmed(p@).len()
                == 0),
    ensures
        first_nonblank(phonetic_candidates(entries)) == Some(trimmed(entries[k].phonetic->Some_0@)),
{
    let fields = entry_phonetic_fields(entries);
    let p = entries[k].phonetic->Some_0;
    let before = fields.take(k);
    let after = fields.skip(k + 1);
    assert(fields =~= before + seq![Some(p)] + after);
    lemma_present_texts_concat(before + seq![Some(p)], after);
    lemma_present_texts_concat(before, seq![Some(p)]);
    let single: Seq<Option<String>> = seq![Some(p)];
    assert(single.drop_last() =~= Seq::<Option<String>>::empty());
    assert(single.last() == Some(p));
    assert(present_texts(Seq::<Option<String>>::empty()) =~= Seq::<Seq<char>>::empty());
    assert(present_texts(single) =~= seq![p@]);
    assert forall|j: int| 0 <= j < before.len() implies (#[trigger] before[j] matches Some(t)
        ==> trimmed(t@).len() == 0) by {
        assert(before[j] == entries[j].phonetic);
    }
    lemma_present_texts_blank(before);
    let rest = seq![p@] + present_texts(after) + nested_phonetic_texts(entries);
    assert(phonetic_candidates(entries) =~= present_texts(before) + rest);
    lemma_first_nonblank_skips_blank(present_texts(before), rest);
    assert(rest[0] == p@);
}

/// Appends to `out` the `phonetic` texts that the entries carry.
fn push_entry_phonetics(out: &mut Vec<String>, entries: &[DictionaryEntry])
    ensures
        final(out).deep_view() == old(out).deep_view() + present_texts(
            entry_phonetic_fields(entries@),
        ),
{
    let ghost start = out.deep_view();
    let mut i: usize = 0;
    while i < entries.len()
        invariant
            i <= entries.len(),
            out.deep_view() == start + present_texts(entry_phonetic_fields(entries@.take(i as int))),
        decreases entries.len() - i,
    {
        let ghost fields = entry_phonetic_fields(entries@.take(i + 1));
        assert(fields.drop_last() =~= entry_phonetic_fields(entries@.take(i as int)));
        assert(fields.last() == entries@[i as int].phonetic);
        match &entries[i].phonetic {
            Some(text) => {
                let ghost before = out.deep_view();
                out.push(text.clone());
                assert(out.deep_view() =~= before.push(text@));
                assert(out.deep_view() =~= start + present_texts(fields));
            },
            None => {
                assert(out.deep_view() =~= start + present_texts(fields));
            },
        }
        i = i + 1;
    }
    assert(entries@.take(entries.len() as int) =~= entries@);
}

/// Appends to `out` the texts of the phonetic spellings that carry one.
fn push_phonetic_texts(out: &mut Vec<String>, phonetics: &[DictionaryPhonetic])
    ensures
        final(out).deep_view() == old(out).deep_view() + present_texts(
            phonetic_text_fields(phonetics@),
        ),
{
    let ghost start = out.deep_view();
    let mut i: usize = 0;
    while i < phonetics.len()
        invariant
            i <= phonetics.len(),
            out.deep_view() == start + present_texts(phonetic_text_fields(phonetics@.take(i as int))),
        decreases phonetics.len() - i,
    {
        let ghost fields = phonetic_text_fields(phonetics@.take(i + 1));
        assert(fields.drop_last() =~= phonetic_text_fields(phonetics@.take(i as int)));
        assert(fields.last() == phonetics@[i as int].text);
        match &phonetics[i].text {
            Some(text) => {
                let ghost before = out.deep_view();
                out.push(text.clone());
                assert(out.deep_view() =~= before.push(text@));
                assert(out.deep_view() =~= start + present_texts(fields));
            },
            None => {
                assert(out.deep_view() =~= start + present_texts(fields));
            },
        }
        i = i + 1;
    }
    assert(phonetics@.take(phonetics.len() as int) =~= phonetics@);
}

/// Appends to `out` the parts of speech of the meanings that carry one.
fn push_meaning_parts(out: &mut Vec<String>, meanings: &[DictionaryMeaning])
    ensures
        final(out).deep_view() == old(out).deep_view() + present_texts(
            meaning_part_fields(meanings@),
        ),
{
    let ghost start = out.deep_view();
    let mut i: usize = 0;
    while i < meanings.len()
        invariant
            i <= meanings.len(),
            out.deep_view() == start + present_texts(meaning_part_fields(meanings@.take(i as int))),
        decreases meanings.len() - i,
    {
        let ghost fields = meaning_part_fields(meanings@.take(i + 1));
        assert(fields.drop_last() =~= meaning_part_fields(meanings@.take(i as int)));
        assert(fields.last() == meanings@[i as int].part_of_speech);
        match &meanings[i].part_of_speech {
            Some(text) => {
                let ghost before = out.deep_view();
                out.push(text.clone());
                assert(out.deep_view() =~= before.push(text@));
                assert(out.deep_view() =~= start + present_texts(fields));
            },
            None => {
                assert(out.deep_view() =~= start + present_texts(fields));
            },
        }
        i = i + 1;
    }
    assert(meanings@.take(meanings.len() as int) =~= meanings@);
}

/// The candidate spellings of all entries, in order of preference.
fn phonetic_candidate_list(entries: &[DictionaryEntry]) -> (r: Vec<String>)
    ensures
        r.deep_view() == phonetic_candidates(entries@),
{
    let mut out: Vec<String> = Vec::new();
    push_entry_phonetics(&mut out, entries);
    assert(out.deep_view() =~= present_texts(entry_phonetic_fields(entries@)));
    let ghost head = out.deep_view();
    let mut j: usize = 0;
    while j < entries.len()
        invariant
            j <= entries.len(),
            head == present_texts(entry_phonetic_fields(entries@)),
            out.deep_view() == head + nested_phonetic_texts(entries@.take(j as int)),
        decreases entries.len() - j,
    {
        assert(entries@.take(j + 1).drop_last() =~= entries@.take(j as int));
        push_phonetic_texts(&mut out, entries[j].phonetics.as_slice());
        assert(out.deep_view() =~= head + nested_phonetic_texts(entries@.take(j + 1)));
        j = j + 1;
    }
    assert(entries@.take(entries.len() as int) =~= entries@);
    out
}

/// The parts of speech of all meanings of all entries, in order.
fn meaning_part_list(entries: &[DictionaryEntry]) -> (r: Vec<String>)
    ensures
        r.deep_view() == meaning_parts(entries@),
{
    let mut out: Vec<String> = Vec::new();
    let mut j: usize = 0;
    while j < entries.len()
        invariant
            j <= entries.len(),
            out.deep_view() == meaning_parts(entries@.take(j as int)),
        decreases entries.len() - j,
    {
        assert(entries@.take(j + 1).drop_last() =~= entries@.take(j as int));
        push_meaning_parts(&mut out, entries[j].meanings.as_slice());
        j = j + 1;
    }
    assert(entries@.take(entries.len() as int) =~= entries@);
    out
}

/// The first of `candidates` that is not blank, trimmed.
fn first_nonblank_text(candidates: &Vec<String>) -> (r: Option<String>)
    ensures
        r.deep_view() == first_nonblank(candidates.deep_view()),
{
    let ghost all = candidates.deep_view();
    assert(all.skip(0) =~= all);
    let mut i: usize = 0;
    while i < candidates.len()
        invariant
            i <= candidates.len(),
            all == candidates.deep_view(),
            first_nonblank(all) == first_nonblank(all.skip(i as int)),
        decreases candidates.len() - i,
    {
        let text = trim(candidates[i].as_str());
        assert(all.skip(i as int)[0] == all[i as int]);
        assert(all.skip(i as int).drop_first() =~= all.skip(i + 1));
        if !text.is_empty() {
            return Some(text.to_owned());
        }
        i = i + 1;
    }
    assert(all.skip(i as int) =~= Seq::<Seq<char>>::empty());
    None
}

/// The phonetic spelling to keep for a word: the first `phonetic` field of the
/// entries that is not blank, else the first spelling under `phonetics` that
/// is not blank; trimmed.
pub fn preferred_phonetic(entries: &[DictionaryEntry]) -> (r: Option<String>)
    ensures
        r.deep_view() == first_nonblank(phonetic_candidates(entries@)),
{
    let candidates = phonetic_candidate_list(entries);
    first_nonblank_text(&candidates)
}

/// The parts of speech of all meanings, trimmed, without blank ones and each
/// once, in order of first appearance.
pub fn preferred_parts_of_speech(entries: &[DictionaryEntry]) -> (r: Vec<String>)
    ensures
        r.deep_view() == normalized_parts(meaning_parts(entries@)),
{
    let parts = meaning_part_list(entries);
    normalize_parts_of_speech(parts)
}

/// The dictionary data that the entries of an answer provide.
pub fn pronunciation_from_entries(entries: &[DictionaryEntry]) -> (r: Pronunciation)
    ensures
        r.phonetic.deep_view() == first_nonblank(phonetic_candidates(entries@)),
        r.parts_of_speech.deep_view() == normalized_parts(meaning_parts(entries@)),
{
    Pronunciation {
        phonetic: preferred_phonetic(entries),
        parts_of_speech: preferred_parts_of_speech(entries),
    }
}

} // verus!
