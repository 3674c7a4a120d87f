//! Checks on what the learner types in: the word and its source URL.
use vstd::prelude::*;
use crate::text::{trim, trimmed, text_equals, lemma_trimmed_idempotent};

verus! {

/// What `url::Url::parse` makes of a text: `None` when it is not a valid
/// URL, else the URL's scheme and, when it has one, its host.
pub uninterp spec fn url_parts(input: Seq<char>) -> Option<(Seq<char>, Option<Seq<char>>)>;

/// `url::Url::parse`, read through `Url::scheme` and `Url::host_str`: the
/// scheme and host of the URL that `input` spells, or `None` when the parser
/// rejects it. The parser's rules (the WHATWG URL standard) are not restated
/// here; the result is named by `url_parts`.
#[verifier::external_body]
fn parse_url_parts(input: &str) -> (r: Option<(String, Option<String>)>)
    ensures
        r.deep_view() == url_parts(input@),
{
    match url::Url::parse(input) {
        Ok(parsed) => Some((parsed.scheme().to_string(), parsed.host_str().map(|h| h.to_string()))),
        Err(_) => None,
    }
}

/// The longest word a card may hold, in characters.
pub const MAX_WORD_CHARS: usize = 120;

/// Whether parsed URL parts name a web page: an `http` or `https` URL with a
/// host.
pub open spec fn is_web_url(parts: (Seq<char>, Option<Seq<char>>)) -> bool {
    (parts.0 == "http"@ || parts.0 == "https"@) && parts.1 is Some
}

/// What `validate_input` decides: the trimmed word and URL, or the message of
/// the first rule they break.
pub open spec fn input_verdict(word: Seq<char>, url: Seq<char>) -> Result<
    (Seq<char>, Seq<char>),
    Seq<char>,
> {
    let w = trimmed(word);
    let u = trimmed(url);
    if w.len() == 0 {
        Err("A word is required."@)
    } else if w.len() > MAX_WORD_CHARS {
        Err("A word cannot exceed 120 characters."@)
    } else {
        match url_parts(u) {
            None => Err("A valid source URL is required."@),
            Some(parts) => if is_web_url(parts) {
                Ok((w, u))
            } else {
                Err("Source URL must start with http:// or https://."@)
            },
        }
    }
}

/// What the checks accept passes them again unchanged: a stored word and URL
/// are already trimmed and valid.
pub proof fn lemma_accepted_input_is_stable(word: Seq<char>, url: Seq<char>)
    ensures
        input_verdict(word, url) matches Ok((w, u)) ==> input_verdict(w, u) == Ok::<
            (Seq<char>, Seq<char>),
            Seq<char>,
        >((w, u)),
{
    lemma_trimmed_idempotent(word);
    lemma_trimmed_idempotent(url);
}

/// Whether the parsed parts of a URL name a web page with a host.
fn web_url_parts(parts: &(String, Option<String>)) -> (r: bool)
    ensures
        r == is_web_url(parts.deep_view()),
{
    (text_equals(parts.0.as_str(), "http") || text_equals(parts.0.as_str(), "https"))
        && parts.1.is_some()
}

/// Trims the word and the source URL of a card and checks them: the word must
/// not be blank nor longer than 120 characters, and the URL must be an `http`
/// or `https` URL with a host.
pub fn validate_input(word: String, url: String) -> (r: Result<(String, String), String>)
    ensures
        match r {
            Ok((w, u)) => input_verdict(word@, url@) == Ok::<(Seq<char>, Seq<char>), Seq<char>>(
                (w@, u@),
            ),
            Err(message) => input_verdict(word@, url@) == Err::<
                (Seq<char>, Seq<char>),
                Seq<char>,
            >(message@),
        },
{
    let word = trim(word.as_str());
    if word.is_empty() {
        return Err("A word is required.".to_string());
    }
    if word.unicode_len() > MAX_WORD_CHARS {
        return Err("A word cannot exceed 120 characters.".to_string());
    }
    let url = trim(url.as_str());
    match parse_url_parts(url) {
        None => Err("A valid source URL is required.".to_string()),
        Some(parts) => {
            if web_url_parts(&parts) {
                Ok((word.to_owned(), url.to_owned()))
            } else {
                Err("Source URL must start with http:// or https://.".to_string())
            }
        },
    }
}

/// What `parse_source_url` decides of a link before it is opened.
pub open spec fn source_url_verdict(value: Seq<char>) -> Result<(), Seq<char>> {
    match url_parts(value) {
        None => Err("来源链接无效。"@),
        Some(parts) => if is_web_url(parts) {
            Ok(())
        } else {
            Err("来源链接必须是 HTTP 或 HTTPS 地址。"@)
        },
    }
}

/// Checks a source link before it is handed to the system browser: it must
/// parse as a URL and be an `http` or `https` URL with a host.
pub fn parse_source_url(value: &str) -> (r: Result<(), String>)
    ensures
        match r {
            Ok(()) => source_url_verdict(value@) == Ok::<(), Seq<char>>(()),
            Err(message) => source_url_verdict(value@) == Err::<(), Seq<char>>(message@),
        },
{
    match parse_url_parts(value) {
        None => Err("来源链接无效。".to_string()),
        Some(parts) => {
            if web_url_parts(&parts) {
                Ok(())
            } else {
                Err("来源链接必须是 HTTP 或 HTTPS 地址。".to_string())
            }
        },
    }
}

} // verus!
