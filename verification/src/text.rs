//! Character-level text rules: Unicode trimming, search query normalisation,
//! escaping for SQL `LIKE` patterns and the normalisation of parts of speech.
use vstd::prelude::*;

verus! {

/// The characters with the Unicode `White_Space` property, the set that
/// `str::trim` removes.
pub open spec fn is_white_space(c: char) -> bool {
    let n = c as u32;
    ||| 0x9 <= n <= 0xD
    ||| n == 0x20
    ||| n == 0x85
    ||| n == 0xA0
    ||| n == 0x1680
    ||| 0x2000 <= n <= 0x200A
    ||| n == 0x2028
    ||| n == 0x2029
    ||| n == 0x202F
    ||| n == 0x205F
    ||| n == 0x3000
}

/// `s` without its leading white space.
pub open spec fn trim_start(s: Seq<char>) -> Seq<char>
    decreases s.len(),
{
    if s.len() > 0 && is_white_space(s[0]) {
        trim_start(s.drop_first())
    } else {
        s
    }
}

/// `s` without its trailing white space.
pub open spec fn trim_end(s: Seq<char>) -> Seq<char>
    decreases s.len(),
{
    if s.len() > 0 && is_white_space(s.last()) {
        trim_end(s.drop_last())
    } else {
        s
    }
}

/// `s` without leading and trailing white space.
pub open spec fn trimmed(s: Seq<char>) -> Seq<char> {
    trim_end(trim_start(s))
}

/// Whether `c` has the Unicode `White_Space` property.
fn white_space(c: char) -> (r: bool)
    ensures
        r == is_white_space(c),
{
    let n = c as u32;
    (0x9 <= n && n <= 0xD) || n == 0x20 || n == 0x85 || n == 0xA0 || n == 0x1680 || (0x2000 <= n
        && n <= 0x200A) || n == 0x2028 || n == 0x2029 || n == 0x202F || n == 0x205F || n == 0x3000
}

/// `s` without leading and trailing white space, as `str::trim` gives it.
pub(crate) fn trim<'a>(s: &'a str) -> (r: &'a str)
    ensures
        r@ == trimmed(s@),
{
    let len = s.unicode_len();
    let mut start: usize = 0;
    assert(s@.subrange(0, len as int) =~= s@);
    while start < len && white_space(s.get_char(start))
        invariant
            len == s@.len(),
            start <= len,
            trim_start(s@) == trim_start(s@.subrange(start as int, len as int)),
        decreases len - start,
    {
        assert(s@.subrange(start as int, len as int).drop_first() =~= s@.subrange(
            start + 1,
            len as int,
        ));
        start = start + 1;
    }
    assert(trim_start(s@) == s@.subrange(start as int, len as int));
    let mut end: usize = len;
    while end > start && white_space(s.get_char(end - 1))
        invariant
            len == s@.len(),
            start <= end <= len,
            trim_end(s@.subrange(start as int, len as int)) == trim_end(
                s@.subrange(start as int, end as int),
            ),
        decreases end - start,
    {
        assert(s@.subrange(start as int, end as int).drop_last() =~= s@.subrange(
            start as int,
            end - 1,
        ));
        end = end - 1;
    }
    assert(trim_end(s@.subrange(start as int, end as int)) == s@.subrange(start as int, end as int));
    s.substring_char(start, end)
}

/// `PartialEq` for `str`: two string slices are equal when they hold the same
/// characters.
#[verifier::external_body]
pub(crate) fn text_equals(a: &str, b: &str) -> (r: bool)
    ensures
        r == (a@ == b@),
{
    a == b
}

/// `String::push`: appends one character at the end.
#[verifier::external_body]
pub(crate) fn push_char(s: &mut String, c: char)
    ensures
        final(s)@ == old(s)@.push(c),
{
    s.push(c);
}

/// `trim_start` gives a suffix of its argument that is empty or starts with a
/// character that is not white space.
pub proof fn lemma_trim_start_shape(s: Seq<char>)
    ensures
        trim_start(s).len() <= s.len(),
        trim_start(s) == s.subrange(s.len() - trim_start(s).len(), s.len() as int),
        trim_start(s).len() > 0 ==> !is_white_space(trim_start(s)[0]),
    decreases s.len(),
{
    if s.len() > 0 && is_white_space(s[0]) {
        lemma_trim_start_shape(s.drop_first());
        assert(s.drop_first().subrange(
            s.drop_first().len() - trim_start(s).len(),
            s.drop_first().len() as int,
        ) =~= s.subrange(s.len() - trim_start(s).len(), s.len() as int));
    } else {
        assert(s.subrange(0, s.len() as int) =~= s);
    }
}

/// `trim_end` gives a prefix of its argument that is empty or ends with a
/// character that is not white space.
pub proof fn lemma_trim_end_shape(s: Seq<char>)
    ensures
        trim_end(s).len() <= s.len(),
        trim_end(s) == s.subrange(0, trim_end(s).len() as int),
        trim_end(s).len() > 0 ==> !is_white_space(trim_end(s).last()),
    decreases s.len(),
{
    if s.len() > 0 && is_white_space(s.last()) {
        lemma_trim_end_shape(s.drop_last());
        assert(s.drop_last().subrange(0, trim_end(s).len() as int) =~= s.subrange(
            0,
            trim_end(s).len() as int,
        ));
    } else {
        assert(s.subrange(0, s.len() as int) =~= s);
    }
}

/// A trimmed text is empty or starts and ends with characters that are not
/// white space.
pub proof fn lemma_trimmed_shape(s: Seq<char>)
    ensures
        trimmed(s).len() > 0 ==> !is_white_space(trimmed(s)[0]) && !is_white_space(
            trimmed(s).last(),
        ),
        trimmed(s).len() <= s.len(),
{
    let t = trim_start(s);
    lemma_trim_start_shape(s);
    lemma_trim_end_shape(t);
    let u = trim_end(t);
    if u.len() > 0 {
        assert(u[0] == t[0]);
    }
}

/// Trimming a trimmed text changes nothing.
pub proof fn lemma_trimmed_idempotent(s: Seq<char>)
    ensures
        trimmed(trimmed(s)) == trimmed(s),
{
    let u = trimmed(s);
    lemma_trimmed_shape(s);
    assert(trim_start(u) == u);
    assert(trim_end(u) == u);
}


/// The search text that a query stands for: its trimmed form, or nothing when
/// the query is absent or blank.
pub open spec fn normalized_query(query: Option<Seq<char>>) -> Option<Seq<char>> {
    match query {
        None => None,
        Some(q) => if trimmed(q).len() == 0 {
            None
        } else {
            Some(trimmed(q))
        },
    }
}

/// Normalising a normalised query changes nothing.
pub proof fn lemma_normalized_query_idempotent(query: Option<Seq<char>>)
    ensures
        normalized_query(normalized_query(query)) == normalized_query(query),
{
    if let Some(q) = query {
        lemma_trimmed_idempotent(q);
    }
}

/// Trims a search query; a missing or blank query means "no search".
pub fn normalize_search_query(query: Option<String>) -> (r: Option<String>)
    ensures
        r.deep_view() == normalized_query(query.deep_view()),
{
    match query {
        None => None,
        Some(value) => {
            let value = trim(value.as_str());
            if value.is_empty() {
                None
            } else {
                Some(value.to_owned())
            }
        },
    }
}

/// The `LIKE` escape character used by the search statements.
pub open spec fn like_escape_char() -> char {
    '\\'
}

/// Whether `c` has a meaning of its own inside a `LIKE` pattern.
pub open spec fn is_like_special(c: char) -> bool {
    c == '\\' || c == '%' || c == '_'
}

/// One character of a query, as it stands in a `LIKE` pattern.
pub open spec fn escape_like_char(c: char) -> Seq<char> {
    if is_like_special(c) {
        seq![like_escape_char(), c]
    } else {
        seq![c]
    }
}

/// A query with every `\`, `%` and `_` preceded by the escape character.
pub open spec fn escape_like(s: Seq<char>) -> Seq<char>
    decreases s.len(),
{
    if s.len() == 0 {
        seq![]
    } else {
        escape_like_char(s[0]) + escape_like(s.drop_first())
    }
}

/// The `LIKE` pattern that matches every text containing `query`.
pub open spec fn contains_pattern(query: Seq<char>) -> Seq<char> {
    seq!['%'] + escape_like(query) + seq!['%']
}

/// Reads a `LIKE` pattern with escape character `\` back into the literal text
/// it stands for (a wildcard stands for itself here).
pub open spec fn unescape_like(p: Seq<char>) -> Seq<char>
    decreases p.len(),
{
    if p.len() == 0 {
        seq![]
    } else if p[0] == like_escape_char() && p.len() >= 2 {
        seq![p[1]] + unescape_like(p.skip(2))
    } else {
        seq![p[0]] + unescape_like(p.skip(1))
    }
}

/// Whether a `LIKE` pattern holds a `%` or `_` that is not escaped, that is
/// one that acts as a wildcard.
pub open spec fn has_bare_wildcard(p: Seq<char>) -> bool
    decreases p.len(),
{
    if p.len() == 0 {
        false
    } else if p[0] == like_escape_char() && p.len() >= 2 {
        has_bare_wildcard(p.skip(2))
    } else if p[0] == '%' || p[0] == '_' {
        true
    } else {
        has_bare_wildcard(p.skip(1))
    }
}

proof fn lemma_escape_like_push(s: Seq<char>, c: char)
    ensures
        escape_like(s.push(c)) == escape_like(s) + escape_like_char(c),
    decreases s.len(),
{
    if s.len() == 0 {
        assert(s.push(c).drop_first() =~= Seq::<char>::empty());
        assert(escape_like(Seq::<char>::empty()) =~= Seq::<char>::empty());
        assert(escape_like(s.push(c)) =~= escape_like_char(c));
        assert(escape_like(s) =~= Seq::<char>::empty());
    } else {
        lemma_escape_like_push(s.drop_first(), c);
        assert(s.push(c).drop_first() =~= s.drop_first().push(c));
        assert(escape_like(s.push(c)) =~= escape_like(s) + escape_like_char(c));
    }
}

/// Escaping loses nothing: reading the escaped query as a `LIKE` pattern gives
/// the query back, character for character.
pub proof fn lemma_unescape_escape_like(s: Seq<char>)
    ensures
        unescape_like(escape_like(s)) == s,
    decreases s.len(),
{
    if s.len() == 0 {
        assert(escape_like(s) =~= Seq::<char>::empty());
        assert(unescape_like(Seq::<char>::empty()) =~= s);
    } else {
        let e = escape_like(s);
        let rest = escape_like(s.drop_first());
        lemma_unescape_escape_like(s.drop_first());
        if is_like_special(s[0]) {
            assert(e =~= seq![like_escape_char(), s[0]] + rest);
            assert(e.skip(2) =~= rest);
        } else {
            assert(e =~= seq![s[0]] + rest);
            assert(e.skip(1) =~= rest);
        }
        assert(unescape_like(e) =~= s);
    }
}

/// An escaped query holds no wildcard: every `%` and `_` in it is escaped, so
/// the pattern built from it matches the query's characters literally.
pub proof fn lemma_escape_like_has_no_bare_wildcard(s: Seq<char>)
    ensures
        !has_bare_wildcard(escape_like(s)),
    decreases s.len(),
{
    if s.len() > 0 {
        let e = escape_like(s);
        let rest = escape_like(s.drop_first());
        lemma_escape_like_has_no_bare_wildcard(s.drop_first());
        if is_like_special(s[0]) {
            assert(e =~= seq![like_escape_char(), s[0]] + rest);
            assert(e.skip(2) =~= rest);
        } else {
            assert(e =~= seq![s[0]] + rest);
            assert(e.skip(1) =~= rest);
        }
    } else {
        assert(escape_like(s) =~= Seq::<char>::empty());
    }
}

/// The `LIKE` pattern for a search query: the query with `\`, `%` and `_`
/// escaped, between two `%` wildcards.
pub fn search_pattern(query: &str) -> (r: String)
    ensures
        r@ == contains_pattern(query@),
{
    let mut pattern = String::new();
    push_char(&mut pattern, '%');
    let n = query.unicode_len();
    let mut i: usize = 0;
    while i < n
        invariant
            n == query@.len(),
            i <= n,
            pattern@ == seq!['%'] + escape_like(query@.take(i as int)),
        decreases n - i,
    {
        let c = query.get_char(i);
        proof {
            assert(query@.take(i + 1) =~= query@.take(i as int).push(c));
            lemma_escape_like_push(query@.take(i as int), c);
        }
        if c == '\\' || c == '%' || c == '_' {
            push_char(&mut pattern, '\\');
        }
        push_char(&mut pattern, c);
        assert(pattern@ =~= seq!['%'] + escape_like(query@.take(i + 1)));
        i = i + 1;
    }
    push_char(&mut pattern, '%');
    assert(query@.take(n as int) =~= query@);
    pattern
}


/// The character for a decimal digit.
pub open spec fn digit_char(d: nat) -> char {
    if d == 0 { '0' } else if d == 1 { '1' } else if d == 2 { '2' } else if d == 3 { '3' }
    else if d == 4 { '4' } else if d == 5 { '5' } else if d == 6 { '6' } else if d == 7 { '7' }
    else if d == 8 { '8' } else { '9' }
}

/// The decimal notation of a natural number, without leading zeros.
pub open spec fn decimal(n: nat) -> Seq<char>
    decreases n,
{
    if n < 10 {
        seq![digit_char(n)]
    } else {
        decimal(n / 10).push(digit_char(n % 10))
    }
}

} // verus!
