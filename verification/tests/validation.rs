use vocabulary_builder::validation::{parse_source_url, validate_input};

fn check(word: &str, url: &str) -> Result<(String, String), String> {
    validate_input(word.to_string(), url.to_string())
}

#[test]
fn accepts_and_trims_a_web_link() {
    assert_eq!(
        check("  word ", " https://example.com/page "),
        Ok(("word".to_string(), "https://example.com/page".to_string()))
    );
    assert!(check("word", "http://example.com").is_ok());
}

#[test]
fn each_rule_has_its_message() {
    assert_eq!(check("  ", "https://example.com").unwrap_err(), "A word is required.");
    assert_eq!(
        check(&"é".repeat(121), "https://example.com").unwrap_err(),
        "A word cannot exceed 120 characters."
    );
    assert!(check(&"é".repeat(120), "https://example.com").is_ok());
    assert_eq!(check("word", "not a url").unwrap_err(), "A valid source URL is required.");
    assert_eq!(
        check("word", "file:///local").unwrap_err(),
        "Source URL must start with http:// or https://."
    );
    assert_eq!(
        check("word", "ftp://example.com").unwrap_err(),
        "Source URL must start with http:// or https://."
    );
}

#[test]
fn source_links_are_checked_before_opening() {
    assert_eq!(parse_source_url("https://example.com"), Ok(()));
    assert_eq!(parse_source_url("nope").unwrap_err(), "来源链接无效。");
    assert_eq!(
        parse_source_url("mailto:someone@example.com").unwrap_err(),
        "来源链接必须是 HTTP 或 HTTPS 地址。"
    );
}

#[test]
fn accepted_input_passes_again_unchanged() {
    let (word, url) = check(" \u{3000}word\t", "  https://example.com/x ").unwrap();
    assert_eq!(check(&word, &url), Ok((word.clone(), url.clone())));
}
