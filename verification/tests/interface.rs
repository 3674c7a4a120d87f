use vocabulary_builder::model::WordStatus;
use vocabulary_builder::ui::copy::text;
use vocabulary_builder::ui::errors::localized_error;
use vocabulary_builder::ui::labels::{
    corrected_page, empty_listing, filter_label, submitted_query, EmptyListing, filter_to_status, host_label, normalized_search_query, page_summary,
    status_from_value, status_label, status_value, total_pages, Language,
};

#[test]
fn languages_round_trip_through_picker_values() {
    for language in [Language::Zh, Language::En, Language::Ja] {
        assert_eq!(Language::from_value(language.value()), language);
    }
    assert_eq!(Language::from_value("fr"), Language::Zh);
}

#[test]
fn page_counts() {
    assert_eq!(total_pages(0), 1);
    assert_eq!(total_pages(1), 1);
    assert_eq!(total_pages(10), 1);
    assert_eq!(total_pages(11), 2);
    assert_eq!(total_pages(u32::MAX), 429_496_730);
}

#[test]
fn page_summaries() {
    assert_eq!(page_summary(Language::Zh, 11, 2, 2), "共 11 条 · 第 2 / 2 页");
    assert_eq!(page_summary(Language::En, 0, 1, 1), "0 words · Page 1 / 1");
    assert_eq!(page_summary(Language::Ja, 105, 10, 11), "全 105 語 · 10 / 11 ページ");
}

#[test]
fn filters_and_statuses() {
    assert_eq!(filter_to_status("known"), Some(WordStatus::Known));
    assert_eq!(filter_to_status("all"), None);
    assert_eq!(status_from_value("bogus"), WordStatus::Unfamiliar);
    assert_eq!(status_value(&WordStatus::Familiar), "familiar");
    assert_eq!(status_label(&WordStatus::Known, Language::Ja), "知っている");
    assert_eq!(filter_label("familiar", Language::En), "Familiar words");
    assert_eq!(filter_label("all", Language::En), "All");
    assert_eq!(filter_label("anything", Language::Zh), "全部");
}

#[test]
fn search_drafts() {
    assert_eq!(normalized_search_query("  word ").as_deref(), Some("word"));
    assert_eq!(normalized_search_query(" "), None);
}

#[test]
fn host_labels() {
    assert_eq!(host_label("https://example.com/a/b"), "example.com");
    assert_eq!(host_label("https://example.com"), "example.com");
    assert_eq!(host_label("example.com/path"), "example.com");
    assert_eq!(host_label("a//b//c/d"), "b");
    assert_eq!(host_label(""), "");
}

#[test]
fn localized_errors() {
    assert_eq!(localized_error("A word is required.", Language::En), "Enter a word.");
    assert_eq!(
        localized_error("来源链接无效。", Language::Zh),
        "请输入有效的来源链接。"
    );
    assert_eq!(
        localized_error("Updated word was not found.", Language::Ja),
        "編集する単語が見つかりません。"
    );
    assert_eq!(
        localized_error("Data directory must be an absolute path.", Language::En),
        "Enter an absolute path, for example D:\\VocabularyBuilderData."
    );
    assert_eq!(
        localized_error("something else", Language::En),
        "The operation could not be completed. Please try again."
    );
}

#[test]
fn interface_copy() {
    assert_eq!(text(Language::Zh).app_title, "词汇标本室");
    assert_eq!(text(Language::En).all, "All");
    assert_eq!(text(Language::Ja).next, "次へ →");
}

#[test]
fn backend_refusals_have_their_own_messages() {
    let general = localized_error("?", Language::En);
    for message in [
        "A word is required.",
        "A word cannot exceed 120 characters.",
        "A valid source URL is required.",
        "Source URL must start with http:// or https://.",
        "来源链接无效。",
        "来源链接必须是 HTTP 或 HTTPS 地址。",
        "Page number must start at 1.",
        "Word to delete was not found.",
        "Failed to save the data directory setting.",
    ] {
        assert_ne!(localized_error(message, Language::En), general, "{message}");
    }
}

#[test]
fn a_page_past_the_end_moves_to_the_last_page() {
    assert_eq!(corrected_page(5, 21), Some(3));
    assert_eq!(corrected_page(3, 21), None);
    assert_eq!(corrected_page(1, 21), None);
    assert_eq!(corrected_page(4, 0), None);
    assert_eq!(corrected_page(2, 10), Some(1));
}

#[test]
fn a_submitted_draft_is_trimmed() {
    assert_eq!(submitted_query("  ice cream \u{3000}"), "ice cream");
    assert_eq!(submitted_query("   "), "");
}

#[test]
fn an_empty_listing_says_why() {
    assert_eq!(empty_listing(0, true, false), Some(EmptyListing::NoCards));
    assert_eq!(empty_listing(0, true, true), Some(EmptyListing::NoSearchMatch));
    assert_eq!(empty_listing(0, false, true), Some(EmptyListing::NoFilteredSearchMatch));
    assert_eq!(empty_listing(0, false, false), Some(EmptyListing::NoStatusMatch));
    assert_eq!(empty_listing(12, true, false), None);
    assert_eq!(empty_listing(12, false, false), None);
    assert_eq!(empty_listing(12, true, true), Some(EmptyListing::NoSearchMatch));
}
