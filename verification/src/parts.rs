//! Parts of speech as they are kept on a word card: trimmed, non-blank and
//! each one once, in the order of first appearance.
use vstd::prelude::*;
use crate::text::{trim, trimmed, lemma_trimmed_idempotent};

verus! {

/// The normalised list: each entry trimmed, blank entries dropped, and an entry
/// kept only the first time it appears.
pub open spec fn normalized_parts(s: Seq<Seq<char>>) -> Seq<Seq<char>>
    decreases s.len(),
{
    if s.len() == 0 {
        seq![]
    } else {
        let prev = normalized_parts(s.drop_last());
        let t = trimmed(s.last());
        if t.len() > 0 && !prev.contains(t) {
            prev.push(t)
        } else {
            prev
        }
    }
}

/// A list in normal form: no duplicates, no blank entries, every entry trimmed.
pub open spec fn is_normal_parts(s: Seq<Seq<char>>) -> bool {
    &&& forall|i: int, j: int| 0 <= i < j < s.len() ==> s[i] != s[j]
    &&& forall|i: int| 0 <= i < s.len() ==> (#[trigger] s[i]).len() > 0 && trimmed(s[i]) == s[i]
}

/// Whether `items` holds an entry equal to `value`.
pub fn contains_text(items: &Vec<String>, value: &str) -> (r: bool)
    ensures
        r == items.deep_view().contains(value@),
{
    let mut i: usize = 0;
    while i < items.len()
        invariant
            i <= items.len(),
            forall|j: int| 0 <= j < i ==> items.deep_view()[j] != value@,
        decreases items.len() - i,
    {
        if crate::text::text_equals(items[i].as_str(), value) {
            assert(items.deep_view()[i as int] == value@);
            return true;
        }
        i = i + 1;
    }
    proof {
        if items.deep_view().contains(value@) {
            let k = choose|k: int| 0 <= k < items.deep_view().len() && items.deep_view()[k] == value@;
            assert(items.deep_view()[k] != value@);
        }
    }
    false
}

/// Trims each part of speech, drops blank ones and keeps the first of
/// repeated ones.
pub fn normalize_parts_of_speech(parts_of_speech: Vec<String>) -> (r: Vec<String>)
    ensures
        r.deep_view() == normalized_parts(parts_of_speech.deep_view()),
{
    let ghost input = parts_of_speech.deep_view();
    let mut normalized: Vec<String> = Vec::new();
    let mut i: usize = 0;
    while i < parts_of_speech.len()
        invariant
            input == parts_of_speech.deep_view(),
            i <= parts_of_speech.len(),
            normalized.deep_view() == normalized_parts(input.take(i as int)),
        decreases parts_of_speech.len() - i,
    {
        let part = trim(parts_of_speech[i].as_str());
        proof {
            assert(input.take(i + 1).drop_last() =~= input.take(i as int));
            assert(input.take(i + 1).last() == parts_of_speech[i as int]@);
        }
        if !part.is_empty() && !contains_text(&normalized, part) {
            let ghost before = normalized.deep_view();
            normalized.push(part.to_owned());
            assert(normalized.deep_view() =~= before.push(part@));
        }
        i = i + 1;
    }
    assert(input.take(parts_of_speech.len() as int) =~= input);
    normalized
}

/// Every entry of the normalised list is the trimmed form of an input entry and
/// is not blank; every input entry that is not blank once trimmed appears in it.
pub proof fn lemma_normalized_parts_members(s: Seq<Seq<char>>, t: Seq<char>)
    ensures
        normalized_parts(s).contains(t) <==> (t.len() > 0 && exists|i: int|
            0 <= i < s.len() && trimmed(#[trigger] s[i]) == t),
    decreases s.len(),
{
    if s.len() > 0 {
        let p = s.drop_last();
        lemma_normalized_parts_members(p, t);
        let prev = normalized_parts(p);
        let last = trimmed(s.last());
        if t.len() > 0 && exists|i: int| 0 <= i < s.len() && trimmed(#[trigger] s[i]) == t {
            let i = choose|i: int| 0 <= i < s.len() && trimmed(#[trigger] s[i]) == t;
            if i < s.len() - 1 {
                assert(p[i] == s[i]);
                assert(prev.contains(t));
                if last.len() > 0 && !prev.contains(last) {
                    assert(prev.push(last)[prev.len() as int] == last);
                    let k = choose|k: int| 0 <= k < prev.len() && prev[k] == t;
                    assert(prev.push(last)[k] == t);
                }
            } else {
                assert(last == t);
                if !prev.contains(last) {
                    assert(prev.push(last)[prev.len() as int] == last);
                }
            }
        }
        if normalized_parts(s).contains(t) {
            if prev.contains(t) {
                let i = choose|i: int| 0 <= i < p.len() && trimmed(#[trigger] p[i]) == t;
                assert(s[i] == p[i]);
            } else {
                let k = choose|k: int| 0 <= k < normalized_parts(s).len() && normalized_parts(s)[k] == t;
                assert(last.len() > 0 && !prev.contains(last));
                if k < prev.len() {
                    assert(prev.push(last)[k] == prev[k]);
                    assert(prev.contains(t));
                }
                assert(t == last);
                assert(trimmed(s[s.len() - 1]) == t);
            }
        }
    } else {
        assert(normalized_parts(s) =~= Seq::<Seq<char>>::empty());
    }
}

/// The normalised list is in normal form: no duplicates, no blank entries and
/// every entry trimmed.
pub proof fn lemma_normalized_parts_is_normal(s: Seq<Seq<char>>)
    ensures
        is_normal_parts(normalized_parts(s)),
    decreases s.len(),
{
    if s.len() > 0 {
        let p = s.drop_last();
        lemma_normalized_parts_is_normal(p);
        let prev = normalized_parts(p);
        let last = trimmed(s.last());
        lemma_trimmed_idempotent(s.last());
        if last.len() > 0 && !prev.contains(last) {
            let r = prev.push(last);
            assert forall|i: int, j: int| 0 <= i < j < r.len() implies r[i] != r[j] by {
                if j == prev.len() {
                    assert(r[i] == prev[i]);
                    if r[i] == r[j] {
                        assert(prev.contains(last));
                    }
                } else {
                    assert(r[i] == prev[i] && r[j] == prev[j]);
                }
            }
            assert forall|i: int| 0 <= i < r.len() implies (#[trigger] r[i]).len() > 0 && trimmed(
                r[i],
            ) == r[i] by {
                if i < prev.len() {
                    assert(r[i] == prev[i]);
                }
            }
        }
    } else {
        assert(normalized_parts(s) =~= Seq::<Seq<char>>::empty());
    }
}

/// A list in normal form is its own normalisation.
pub proof fn lemma_normal_parts_fixed_point(s: Seq<Seq<char>>)
    requires
        is_normal_parts(s),
    ensures
        normalized_parts(s) == s,
    decreases s.len(),
{
    if s.len() > 0 {
        let p = s.drop_last();
        assert forall|i: int, j: int| 0 <= i < j < p.len() implies p[i] != p[j] by {
            assert(p[i] == s[i] && p[j] == s[j]);
        }
        assert forall|i: int| 0 <= i < p.len() implies (#[trigger] p[i]).len() > 0 && trimmed(p[i])
            == p[i] by {
            assert(p[i] == s[i]);
        }
        lemma_normal_parts_fixed_point(p);
        let last = s.last();
        assert(trimmed(s[s.len() - 1]) == s[s.len() - 1]);
        if p.contains(last) {
            let k = choose|k: int| 0 <= k < p.len() && p[k] == last;
            assert(s[k] == s[s.len() - 1]);
        }
        assert(p.push(last) =~= s);
    } else {
        assert(normalized_parts(s) =~= s);
    }
}

/// Normalising twice gives what normalising once gave.
pub proof fn lemma_normalized_parts_idempotent(s: Seq<Seq<char>>)
    ensures
        normalized_parts(normalized_parts(s)) == normalized_parts(s),
{
    lemma_normalized_parts_is_normal(s);
    lemma_normal_parts_fixed_point(normalized_parts(s));
}

/// A copy of a list of texts.
pub fn copy_texts(items: &Vec<String>) -> (r: Vec<String>)
    ensures
        r.deep_view() == items.deep_view(),
{
    let mut out: Vec<String> = Vec::new();
    let mut i: usize = 0;
    while i < items.len()
        invariant
            i <= items.len(),
            out.deep_view() == items.deep_view().take(i as int),
        decreases items.len() - i,
    {
        let ghost before = out.deep_view();
        let item = items[i].clone();
        out.push(item);
        assert(out.deep_view() =~= before.push(items.deep_view()[i as int]));
        assert(out.deep_view() =~= items.deep_view().take(i + 1));
        i = i + 1;
    }
    assert(items.deep_view().take(items.len() as int) =~= items.deep_view());
    out
}

} // verus!
