//! Error messages as the interface shows them, in each language.
use vstd::prelude::*;
use super::labels::Language;
use crate::text::text_equals;
use crate::validation::{input_verdict, source_url_verdict};

verus! {

/// The kinds of error the interface tells apart.
#[derive(Clone, Copy, Debug, PartialEq, Eq, Structural)]
pub enum ErrorKind {
    /// The database is not available.
    DatabaseUnavailable,
    /// A page number below 1.
    PageStart,
    /// A page number out of range.
    PageOutOfRange,
    /// A blank word.
    WordRequired,
    /// A word over 120 characters.
    WordTooLong,
    /// A source URL that does not parse.
    InvalidSourceUrl,
    /// A source URL that is not http or https with a host.
    SourceUrlScheme,
    /// The card to edit is missing.
    EditTargetMissing,
    /// The card to delete is missing.
    DeleteTargetMissing,
    /// Too many cards to count.
    CountOutOfRange,
    /// The clock is set before the epoch.
    ClockBeforeEpoch,
    /// The backend cannot be reached.
    BackendUnreachable,
    /// A data directory that is not absolute.
    RelativeDataDirectory,
    /// A data directory that already holds a database.
    DataDirectoryTaken,
    /// A copied database that does not open.
    CopyUnusable,
    /// A data directory setting that was not written.
    SettingUnsaved,
    /// Any other error.
    Other,
}

/// The kind of an error message.
pub open spec fn error_kind(error: Seq<char>) -> ErrorKind {
    if error == "词汇数据库暂时不可用。"@ || error == "Vocabulary database is temporarily unavailable."@ {
        ErrorKind::DatabaseUnavailable
    } else if error == "Page number must start at 1."@ {
        ErrorKind::PageStart
    } else if error == "Page number is out of range."@ {
        ErrorKind::PageOutOfRange
    } else if error == "A word is required."@ {
        ErrorKind::WordRequired
    } else if error == "A word cannot exceed 120 characters."@ {
        ErrorKind::WordTooLong
    } else if error == "A valid source URL is required."@ || error == "来源链接无效。"@ {
        ErrorKind::InvalidSourceUrl
    } else if error == "Source URL must start with http:// or https://."@ || error == "来源链接必须是 HTTP 或 HTTPS 地址。"@ {
        ErrorKind::SourceUrlScheme
    } else if error == "Word to edit was not found."@ || error == "Updated word was not found."@ {
        ErrorKind::EditTargetMissing
    } else if error == "Word to delete was not found."@ {
        ErrorKind::DeleteTargetMissing
    } else if error == "Word count exceeds the supported range."@ {
        ErrorKind::CountOutOfRange
    } else if error == "System time is before the Unix epoch."@ {
        ErrorKind::ClockBeforeEpoch
    } else if error == "无法连接到 Tauri 后端，请完全重启应用。"@ {
        ErrorKind::BackendUnreachable
    } else if error == "Data directory must be an absolute path."@ {
        ErrorKind::RelativeDataDirectory
    } else if error == "The selected directory already contains vocabulary.db."@ {
        ErrorKind::DataDirectoryTaken
    } else if error == "The copied vocabulary database could not be opened."@ {
        ErrorKind::CopyUnusable
    } else if error == "Failed to save the data directory setting."@ {
        ErrorKind::SettingUnsaved
    } else {
        ErrorKind::Other
    }
}

/// The kind of an error message.
pub fn classify_error(error: &str) -> (r: ErrorKind)
    ensures
        r == error_kind(error@),
{
    if text_equals(error, "词汇数据库暂时不可用。") || text_equals(error, "Vocabulary database is temporarily unavailable.") {
        ErrorKind::DatabaseUnavailable
    } else if text_equals(error, "Page number must start at 1.") {
        ErrorKind::PageStart
    } else if text_equals(error, "Page number is out of range.") {
        ErrorKind::PageOutOfRange
    } else if text_equals(error, "A word is required.") {
        ErrorKind::WordRequired
    } else if text_equals(error, "A word cannot exceed 120 characters.") {
        ErrorKind::WordTooLong
    } else if text_equals(error, "A valid source URL is required.") || text_equals(error, "来源链接无效。") {
        ErrorKind::InvalidSourceUrl
    } else if text_equals(error, "Source URL must start with http:// or https://.") || text_equals(error, "来源链接必须是 HTTP 或 HTTPS 地址。") {
        ErrorKind::SourceUrlScheme
    } else if text_equals(error, "Word to edit was not found.") || text_equals(error, "Updated word was not found.") {
        ErrorKind::EditTargetMissing
    } else if text_equals(error, "Word to delete was not found.") {
        ErrorKind::DeleteTargetMissing
    } else if text_equals(error, "Word count exceeds the supported range.") {
        ErrorKind::CountOutOfRange
    } else if text_equals(error, "System time is before the Unix epoch.") {
        ErrorKind::ClockBeforeEpoch
    } else if text_equals(error, "无法连接到 Tauri 后端，请完全重启应用。") {
        ErrorKind::BackendUnreachable
    } else if text_equals(error, "Data directory must be an absolute path.") {
        ErrorKind::RelativeDataDirectory
    } else if text_equals(error, "The selected directory already contains vocabulary.db.") {
        ErrorKind::DataDirectoryTaken
    } else if text_equals(error, "The copied vocabulary database could not be opened.") {
        ErrorKind::CopyUnusable
    } else if text_equals(error, "Failed to save the data directory setting.") {
        ErrorKind::SettingUnsaved
    } else {
        ErrorKind::Other
    }
}

/// The message for a kind of error, in a language.
pub open spec fn error_message_text(kind: ErrorKind, language: Language) -> &'static str {
    match (kind, language) {
        (ErrorKind::DatabaseUnavailable, Language::Zh) => "词汇数据库暂时不可用。",
        (ErrorKind::DatabaseUnavailable, Language::En) => "The vocabulary database is temporarily unavailable.",
        (ErrorKind::DatabaseUnavailable, Language::Ja) => "単語データベースは一時的に利用できません。",
        (ErrorKind::PageStart, Language::Zh) => "页码必须从 1 开始。",
        (ErrorKind::PageStart, Language::En) => "The page number must start at 1.",
        (ErrorKind::PageStart, Language::Ja) => "ページ番号は 1 から指定してください。",
        (ErrorKind::PageOutOfRange, Language::Zh) => "页码超出范围。",
        (ErrorKind::PageOutOfRange, Language::En) => "The page number is out of range.",
        (ErrorKind::PageOutOfRange, Language::Ja) => "ページ番号が範囲外です。",
        (ErrorKind::WordRequired, Language::Zh) => "请输入单词。",
        (ErrorKind::WordRequired, Language::En) => "Enter a word.",
        (ErrorKind::WordRequired, Language::Ja) => "単語を入力してください。",
        (ErrorKind::WordTooLong, Language::Zh) => "单词不能超过 120 个字符。",
        (ErrorKind::WordTooLong, Language::En) => "A word cannot exceed 120 characters.",
        (ErrorKind::WordTooLong, Language::Ja) => "単語は 120 文字以内にしてください。",
        (ErrorKind::InvalidSourceUrl, Language::Zh) => "请输入有效的来源链接。",
        (ErrorKind::InvalidSourceUrl, Language::En) => "Enter a valid source URL.",
        (ErrorKind::InvalidSourceUrl, Language::Ja) => "有効な出典 URL を入力してください。",
        (ErrorKind::SourceUrlScheme, Language::Zh) => "来源链接必须以 http:// 或 https:// 开头。",
        (ErrorKind::SourceUrlScheme, Language::En) => "The source URL must start with http:// or https://.",
        (ErrorKind::SourceUrlScheme, Language::Ja) => "出典 URL は http:// または https:// で始まる必要があります。",
        (ErrorKind::EditTargetMissing, Language::Zh) => "找不到要编辑的单词。",
        (ErrorKind::EditTargetMissing, Language::En) => "The word to edit could not be found.",
        (ErrorKind::EditTargetMissing, Language::Ja) => "編集する単語が見つかりません。",
        (ErrorKind::DeleteTargetMissing, Language::Zh) => "找不到要删除的单词。",
        (ErrorKind::DeleteTargetMissing, Language::En) => "The word to delete could not be found.",
        (ErrorKind::DeleteTargetMissing, Language::Ja) => "削除する単語が見つかりません。",
        (ErrorKind::CountOutOfRange, Language::Zh) => "词汇数量超出支持范围。",
        (ErrorKind::CountOutOfRange, Language::En) => "The number of words exceeds the supported range.",
        (ErrorKind::CountOutOfRange, Language::Ja) => "単語数が対応範囲を超えています。",
        (ErrorKind::ClockBeforeEpoch, Language::Zh) => "系统时间设置无效。",
        (ErrorKind::ClockBeforeEpoch, Language::En) => "The system time is invalid.",
        (ErrorKind::ClockBeforeEpoch, Language::Ja) => "システム時刻が無効です。",
        (ErrorKind::BackendUnreachable, Language::Zh) => "无法连接到应用服务，请完全重启应用。",
        (ErrorKind::BackendUnreachable, Language::En) => "Cannot connect to the application service. Restart the app completely.",
        (ErrorKind::BackendUnreachable, Language::Ja) => "アプリサービスに接続できません。アプリを完全に再起動してください。",
        (ErrorKind::RelativeDataDirectory, Language::Zh) => "请输入绝对路径，例如 D:\\VocabularyBuilderData。",
        (ErrorKind::RelativeDataDirectory, Language::En) => "Enter an absolute path, for example D:\\VocabularyBuilderData.",
        (ErrorKind::RelativeDataDirectory, Language::Ja) => "D:\\VocabularyBuilderData のような絶対パスを入力してください。",
        (ErrorKind::DataDirectoryTaken, Language::Zh) => "该目录已包含 vocabulary.db，请选择新的空目录。",
        (ErrorKind::DataDirectoryTaken, Language::En) => "This directory already contains vocabulary.db. Choose a new empty directory.",
        (ErrorKind::DataDirectoryTaken, Language::Ja) => "このフォルダーには vocabulary.db が既にあります。新しい空のフォルダーを選択してください。",
        (ErrorKind::CopyUnusable, Language::Zh) => "无法验证复制后的词汇数据库，原数据库保持不变。",
        (ErrorKind::CopyUnusable, Language::En) => "The copied vocabulary database could not be verified. The original database was kept.",
        (ErrorKind::CopyUnusable, Language::Ja) => "コピーした単語データベースを確認できませんでした。元のデータベースは保持されています。",
        (ErrorKind::SettingUnsaved, Language::Zh) => "无法保存数据目录设置，原数据库保持不变。",
        (ErrorKind::SettingUnsaved, Language::En) => "The data directory setting could not be saved. The original database was kept.",
        (ErrorKind::SettingUnsaved, Language::Ja) => "データ保存先を保存できませんでした。元のデータベースは保持されています。",
        (ErrorKind::Other, Language::Zh) => "操作未完成，请稍后重试。",
        (ErrorKind::Other, Language::En) => "The operation could not be completed. Please try again.",
        (ErrorKind::Other, Language::Ja) => "操作を完了できませんでした。もう一度お試しください。",
    }
}

/// The message for a kind of error, in a language.
pub fn error_message(kind: ErrorKind, language: Language) -> (r: &'static str)
    ensures
        r == error_message_text(kind, language),
{
    match (kind, language) {
        (ErrorKind::DatabaseUnavailable, Language::Zh) => "词汇数据库暂时不可用。",
        (ErrorKind::DatabaseUnavailable, Language::En) => "The vocabulary database is temporarily unavailable.",
        (ErrorKind::DatabaseUnavailable, Language::Ja) => "単語データベースは一時的に利用できません。",
        (ErrorKind::PageStart, Language::Zh) => "页码必须从 1 开始。",
        (ErrorKind::PageStart, Language::En) => "The page number must start at 1.",
        (ErrorKind::PageStart, Language::Ja) => "ページ番号は 1 から指定してください。",
        (ErrorKind::PageOutOfRange, Language::Zh) => "页码超出范围。",
        (ErrorKind::PageOutOfRange, Language::En) => "The page number is out of range.",
        (ErrorKind::PageOutOfRange, Language::Ja) => "ページ番号が範囲外です。",
        (ErrorKind::WordRequired, Language::Zh) => "请输入单词。",
        (ErrorKind::WordRequired, Language::En) => "Enter a word.",
        (ErrorKind::WordRequired, Language::Ja) => "単語を入力してください。",
        (ErrorKind::WordTooLong, Language::Zh) => "单词不能超过 120 个字符。",
        (ErrorKind::WordTooLong, Language::En) => "A word cannot exceed 120 characters.",
        (ErrorKind::WordTooLong, Language::Ja) => "単語は 120 文字以内にしてください。",
        (ErrorKind::InvalidSourceUrl, Language::Zh) => "请输入有效的来源链接。",
        (ErrorKind::InvalidSourceUrl, Language::En) => "Enter a valid source URL.",
        (ErrorKind::InvalidSourceUrl, Language::Ja) => "有効な出典 URL を入力してください。",
        (ErrorKind::SourceUrlScheme, Language::Zh) => "来源链接必须以 http:// 或 https:// 开头。",
        (ErrorKind::SourceUrlScheme, Language::En) => "The source URL must start with http:// or https://.",
        (ErrorKind::SourceUrlScheme, Language::Ja) => "出典 URL は http:// または https:// で始まる必要があります。",
        (ErrorKind::EditTargetMissing, Language::Zh) => "找不到要编辑的单词。",
        (ErrorKind::EditTargetMissing, Language::En) => "The word to edit could not be found.",
        (ErrorKind::EditTargetMissing, Language::Ja) => "編集する単語が見つかりません。",
        (ErrorKind::DeleteTargetMissing, Language::Zh) => "找不到要删除的单词。",
        (ErrorKind::DeleteTargetMissing, Language::En) => "The word to delete could not be found.",
        (ErrorKind::DeleteTargetMissing, Language::Ja) => "削除する単語が見つかりません。",
        (ErrorKind::CountOutOfRange, Language::Zh) => "词汇数量超出支持范围。",
        (ErrorKind::CountOutOfRange, Language::En) => "The number of words exceeds the supported range.",
        (ErrorKind::CountOutOfRange, Language::Ja) => "単語数が対応範囲を超えています。",
        (ErrorKind::ClockBeforeEpoch, Language::Zh) => "系统时间设置无效。",
        (ErrorKind::ClockBeforeEpoch, Language::En) => "The system time is invalid.",
        (ErrorKind::ClockBeforeEpoch, Language::Ja) => "システム時刻が無効です。",
        (ErrorKind::BackendUnreachable, Language::Zh) => "无法连接到应用服务，请完全重启应用。",
        (ErrorKind::BackendUnreachable, Language::En) => "Cannot connect to the application service. Restart the app completely.",
        (ErrorKind::BackendUnreachable, Language::Ja) => "アプリサービスに接続できません。アプリを完全に再起動してください。",
        (ErrorKind::RelativeDataDirectory, Language::Zh) => "请输入绝对路径，例如 D:\\VocabularyBuilderData。",
        (ErrorKind::RelativeDataDirectory, Language::En) => "Enter an absolute path, for example D:\\VocabularyBuilderData.",
        (ErrorKind::RelativeDataDirectory, Language::Ja) => "D:\\VocabularyBuilderData のような絶対パスを入力してください。",
        (ErrorKind::DataDirectoryTaken, Language::Zh) => "该目录已包含 vocabulary.db，请选择新的空目录。",
        (ErrorKind::DataDirectoryTaken, Language::En) => "This directory already contains vocabulary.db. Choose a new empty directory.",
        (ErrorKind::DataDirectoryTaken, Language::Ja) => "このフォルダーには vocabulary.db が既にあります。新しい空のフォルダーを選択してください。",
        (ErrorKind::CopyUnusable, Language::Zh) => "无法验证复制后的词汇数据库，原数据库保持不变。",
        (ErrorKind::CopyUnusable, Language::En) => "The copied vocabulary database could not be verified. The original database was kept.",
        (ErrorKind::CopyUnusable, Language::Ja) => "コピーした単語データベースを確認できませんでした。元のデータベースは保持されています。",
        (ErrorKind::SettingUnsaved, Language::Zh) => "无法保存数据目录设置，原数据库保持不变。",
        (ErrorKind::SettingUnsaved, Language::En) => "The data directory setting could not be saved. The original database was kept.",
        (ErrorKind::SettingUnsaved, Language::Ja) => "データ保存先を保存できませんでした。元のデータベースは保持されています。",
        (ErrorKind::Other, Language::Zh) => "操作未完成，请稍后重试。",
        (ErrorKind::Other, Language::En) => "The operation could not be completed. Please try again.",
        (ErrorKind::Other, Language::Ja) => "操作を完了できませんでした。もう一度お試しください。",
    }
}

/// The message to show for an error reported by the backend, in the
/// interface language; errors it does not know get a general message.
pub fn localized_error(error: &str, language: Language) -> (r: String)
    ensures
        r@ == error_message_text(error_kind(error@), language)@,
{
    error_message(classify_error(error), language).to_string()
}

/// Every fixed message with which the backend refuses a request has a message
/// of its own in the interface: the checks on a card's input and on a source
/// link, page numbers, counts, the clock, missing cards, an unavailable
/// database and the refusals of a data directory change.
pub proof fn lemma_backend_refusals_are_localized(word: Seq<char>, url: Seq<char>, link: Seq<char>)
    ensures
        input_verdict(word, url) matches Err(m) ==> error_kind(m) != ErrorKind::Other,
        source_url_verdict(link) matches Err(m) ==> error_kind(m) != ErrorKind::Other,
        error_kind("Page number must start at 1."@) == ErrorKind::PageStart,
        error_kind("Word count exceeds the supported range."@) == ErrorKind::CountOutOfRange,
        error_kind("System time is before the Unix epoch."@) == ErrorKind::ClockBeforeEpoch,
        error_kind("Word to edit was not found."@) == ErrorKind::EditTargetMissing,
        error_kind("Updated word was not found."@) == ErrorKind::EditTargetMissing,
        error_kind("Word to delete was not found."@) == ErrorKind::DeleteTargetMissing,
        error_kind("Vocabulary database is temporarily unavailable."@) == ErrorKind::DatabaseUnavailable,
        error_kind("Data directory must be an absolute path."@) == ErrorKind::RelativeDataDirectory,
        error_kind("The selected directory already contains vocabulary.db."@) == ErrorKind::DataDirectoryTaken,
        error_kind("The copied vocabulary database could not be opened."@) == ErrorKind::CopyUnusable,
        error_kind("Failed to save the data directory setting."@) == ErrorKind::SettingUnsaved,
{
    reveal_strlit("词汇数据库暂时不可用。");
    assert("词汇数据库暂时不可用。"@.len() == 11);
    reveal_strlit("Vocabulary database is temporarily unavailable.");
    assert("Vocabulary database is temporarily unavailable."@.len() == 47);
    reveal_strlit("Page number must start at 1.");
    assert("Page number must start at 1."@.len() == 28);
    reveal_strlit("Page number is out of range.");
    assert("Page number is out of range."@.len() == 28);
    reveal_strlit("A word is required.");
    assert("A word is required."@.len() == 19);
    reveal_strlit("A word cannot exceed 120 characters.");
    assert("A word cannot exceed 120 characters."@.len() == 36);
    reveal_strlit("A valid source URL is required.");
    assert("A valid source URL is required."@.len() == 31);
    reveal_strlit("来源链接无效。");
    assert("来源链接无效。"@.len() == 7);
    reveal_strlit("Source URL must start with http:// or https://.");
    assert("Source URL must start with http:// or https://."@.len() == 47);
    reveal_strlit("来源链接必须是 HTTP 或 HTTPS 地址。");
    assert("来源链接必须是 HTTP 或 HTTPS 地址。"@.len() == 24);
    reveal_strlit("Word to edit was not found.");
    assert("Word to edit was not found."@.len() == 27);
    reveal_strlit("Updated word was not found.");
    assert("Updated word was not found."@.len() == 27);
    reveal_strlit("Word to delete was not found.");
    assert("Word to delete was not found."@.len() == 29);
    reveal_strlit("Word count exceeds the supported range.");
    assert("Word count exceeds the supported range."@.len() == 39);
    reveal_strlit("System time is before the Unix epoch.");
    assert("System time is before the Unix epoch."@.len() == 37);
    reveal_strlit("无法连接到 Tauri 后端，请完全重启应用。");
    assert("无法连接到 Tauri 后端，请完全重启应用。"@.len() == 23);
    reveal_strlit("Data directory must be an absolute path.");
    assert("Data directory must be an absolute path."@.len() == 40);
    reveal_strlit("The selected directory already contains vocabulary.db.");
    assert("The selected directory already contains vocabulary.db."@.len() == 54);
    reveal_strlit("The copied vocabulary database could not be opened.");
    assert("The copied vocabulary database could not be opened."@.len() == 51);
    reveal_strlit("Failed to save the data directory setting.");
    assert("Failed to save the data directory setting."@.len() == 42);
}

} // verus!
