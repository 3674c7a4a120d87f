//! Lists of texts in JSON, the form in which a card's parts of speech are
//! stored, through `serde_json`.
use vstd::prelude::*;

verus! {

/// What `serde_json::from_str::<Vec<String>>` makes of a text: the list, or
/// the parser's error message.
pub uninterp spec fn json_text_list(text: Seq<char>) -> Result<Seq<Seq<char>>, Seq<char>>;

/// The lower-case hexadecimal digit of `n` (below 16).
pub open spec fn hex_digit(n: int) -> char {
    seq!['0', '1', '2', '3', '4', '5', '6', '7', '8', '9', 'a', 'b', 'c', 'd', 'e', 'f'][n]
}

/// How `serde_json` writes one character inside a JSON string: the quote and
/// the backslash behind a backslash, the five control characters with a short
/// form in it, the other control characters below U+0020 as `\u00` and two
/// lower-case hexadecimal digits, and every other character as itself.
pub open spec fn json_escaped_char(c: char) -> Seq<char> {
    if c == '"' {
        seq!['\\', '"']
    } else if c == '\\' {
        seq!['\\', '\\']
    } else if c == '\u{8}' {
        seq!['\\', 'b']
    } else if c == '\t' {
        seq!['\\', 't']
    } else if c == '\n' {
        seq!['\\', 'n']
    } else if c == '\u{c}' {
        seq!['\\', 'f']
    } else if c == '\r' {
        seq!['\\', 'r']
    } else if (c as u32) < 0x20 {
        seq!['\\', 'u', '0', '0', hex_digit((c as u32) as int / 16), hex_digit((c as u32) as int % 16)]
    } else {
        seq![c]
    }
}

/// The characters of a JSON string between its quotes.
pub open spec fn json_string_body(text: Seq<char>) -> Seq<char>
    decreases text.len(),
{
    if text.len() == 0 {
        seq![]
    } else {
        json_string_body(text.drop_last()) + json_escaped_char(text.last())
    }
}

/// A text written as a JSON string.
pub open spec fn json_string(text: Seq<char>) -> Seq<char> {
    seq!['"'] + json_string_body(text) + seq!['"']
}

/// The JSON strings of a list of texts, separated by commas.
pub open spec fn json_array_items(items: Seq<Seq<char>>) -> Seq<char>
    decreases items.len(),
{
    if items.len() == 0 {
        seq![]
    } else if items.len() == 1 {
        json_string(items[0])
    } else {
        json_array_items(items.drop_last()) + seq![','] + json_string(items.last())
    }
}

/// A list of texts written as a compact JSON array of strings, as
/// `serde_json::to_string` writes it.
pub open spec fn json_array(items: Seq<Seq<char>>) -> Seq<char> {
    seq!['['] + json_array_items(items) + seq![']']
}

/// `serde_json::from_str::<Vec<String>>`: reads a JSON array of strings. The
/// grammar of JSON is not restated; the outcome is named by `json_text_list`.
#[verifier::external_body]
pub(crate) fn parse_text_list(text: &str) -> (r: Result<Vec<String>, String>)
    ensures
        match r {
            Ok(items) => json_text_list(text@) == Ok::<Seq<Seq<char>>, Seq<char>>(
                items.deep_view(),
            ),
            Err(message) => json_text_list(text@) == Err::<Seq<Seq<char>>, Seq<char>>(message@),
        },
{
    serde_json::from_str::<Vec<String>>(text).map_err(|error| error.to_string())
}

/// `serde_json::to_string` on a list of texts: writes it as a compact JSON
/// array of strings (its `CompactFormatter` and escape table, `ser.rs`). The
/// writer is a `Vec<u8>` and every item is a string, so nothing in this call
/// can fail; the `Err` arm only passes on the crate's error type.
#[verifier::external_body]
pub(crate) fn text_list_json(items: &Vec<String>) -> (r: Result<String, String>)
    ensures
        r is Ok,
        match r {
            Ok(text) => text@ == json_array(items.deep_view()),
            Err(_) => true,
        },
{
    serde_json::to_string(items).map_err(|error| error.to_string())
}

} // verus!
