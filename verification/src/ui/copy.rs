//! The interface copy in each language.
use vstd::prelude::*;
use super::labels::Language;

verus! {

/// Every piece of interface copy, in one language.
#[derive(Clone, Copy, Debug)]
pub struct Text {
    pub app_title: &'static str,
    pub archive_label: &'static str,
    pub headline: &'static str,
    pub subtitle: &'static str,
    pub current_catalog: &'static str,
    pub word_count_suffix: &'static str,
    pub language_label: &'static str,
    pub new_entry: &'static str,
    pub edit_entry: &'static str,
    pub new_card: &'static str,
    pub edit_card: &'static str,
    pub word: &'static str,
    pub source_url: &'static str,
    pub familiarity: &'static str,
    pub word_placeholder: &'static str,
    pub unfamiliar_option: &'static str,
    pub known_option: &'static str,
    pub familiar_option: &'static str,
    pub add: &'static str,
    pub save: &'static str,
    pub cancel: &'static str,
    pub catalog: &'static str,
    pub status_filter: &'static str,
    pub search: &'static str,
    pub search_placeholder: &'static str,
    pub clear_search: &'static str,
    pub all: &'static str,
    pub loading: &'static str,
    pub empty_title: &'static str,
    pub empty_copy: &'static str,
    pub filtered_empty_title: &'static str,
    pub filtered_empty_copy: &'static str,
    pub search_empty_title: &'static str,
    pub search_empty_copy: &'static str,
    pub search_filtered_empty_title: &'static str,
    pub search_filtered_empty_copy: &'static str,
    pub pagination: &'static str,
    pub previous: &'static str,
    pub next: &'static str,
    pub preview: &'static str,
    pub parts_of_speech: &'static str,
    pub phonetic: &'static str,
    pub edit: &'static str,
    pub delete: &'static str,
    pub delete_eyebrow: &'static str,
    pub delete_title: &'static str,
    pub delete_copy: &'static str,
    pub keep: &'static str,
    pub delete_success: &'static str,
    pub add_success: &'static str,
    pub save_success: &'static str,
    pub load_error: &'static str,
    pub added_at: &'static str,
    pub settings: &'static str,
    pub storage_eyebrow: &'static str,
    pub storage_title: &'static str,
    pub storage_copy: &'static str,
    pub storage_directory: &'static str,
    pub storage_choose: &'static str,
    pub storage_empty: &'static str,
    pub storage_hint: &'static str,
    pub storage_save: &'static str,
    pub storage_success: &'static str,
}

/// The interface copy in Chinese.
pub open spec fn chinese_text() -> Text {
    Text {
        app_title: "词汇标本室",
        archive_label: "词汇标本室 · LOCAL ARCHIVE",
        headline: "把生词，放进记忆。",
        subtitle: "记录来源、判断熟悉度；下一次遇见时不再陌生。",
        current_catalog: "当前目录",
        word_count_suffix: "个单词",
        language_label: "语言",
        new_entry: "新建词条",
        edit_entry: "编辑词条",
        new_card: "收下一张词卡",
        edit_card: "修订这张词卡",
        word: "单词",
        source_url: "来源链接",
        familiarity: "此刻的熟悉度",
        word_placeholder: "例如 ephemeral",
        unfamiliar_option: "陌生 · 还需要认识",
        known_option: "了解 · 已有印象",
        familiar_option: "熟悉 · 可以复述",
        add: "加入档案",
        save: "保存修改",
        cancel: "取消",
        catalog: "词汇目录",
        status_filter: "按熟悉度筛选",
        search: "检索词条",
        search_placeholder: "输入单词后按 Enter",
        clear_search: "清除搜索",
        all: "全部",
        loading: "正在翻阅档案…",
        empty_title: "这里还没有词卡",
        empty_copy: "从左侧记下今天遇到的第一个陌生单词。",
        filtered_empty_title: "这个状态下还没有词卡",
        filtered_empty_copy: "切换状态筛选，或在左侧新增一张词卡。",
        search_empty_title: "没有找到匹配的单词",
        search_empty_copy: "换一个单词，或清除搜索后查看全部词卡。",
        search_filtered_empty_title: "当前筛选下没有匹配的单词",
        search_filtered_empty_copy: "调整熟悉度筛选，或清除搜索后继续浏览。",
        pagination: "词汇分页",
        previous: "← 上一页",
        next: "下一页 →",
        preview: "预览",
        parts_of_speech: "词性",
        phonetic: "音标",
        edit: "编辑",
        delete: "删除",
        delete_eyebrow: "删除词卡",
        delete_title: "确认移除这张词卡？",
        delete_copy: "删除后无法恢复，但不会影响来源网页。",
        keep: "保留词卡",
        delete_success: "词卡已删除。",
        add_success: "已加入词汇档案。",
        save_success: "已保存修改。",
        load_error: "无法读取单词：",
        added_at: "添加于",
        settings: "数据目录设置",
        storage_eyebrow: "本地存储",
        storage_title: "词汇数据库保存位置",
        storage_copy: "保存后会复制现有词汇到新目录，并立即使用新数据库。",
        storage_directory: "数据目录",
        storage_choose: "选择文件夹",
        storage_empty: "尚未选择目录",
        storage_hint: "请选择可写入的文件夹；目录中不能已有 vocabulary.db。",
        storage_save: "保存并迁移",
        storage_success: "词汇数据库已迁移到新目录。",
    }
}

/// The interface copy in English.
pub open spec fn english_text() -> Text {
    Text {
        app_title: "Vocabulary Archive",
        archive_label: "VOCABULARY ARCHIVE · LOCAL",
        headline: "Make new words familiar.",
        subtitle: "Keep their source and track how well you know them.",
        current_catalog: "Current catalog",
        word_count_suffix: "words",
        language_label: "Language",
        new_entry: "New entry",
        edit_entry: "Edit entry",
        new_card: "Add a word card",
        edit_card: "Revise this card",
        word: "Word",
        source_url: "Source URL",
        familiarity: "Familiarity",
        word_placeholder: "e.g. ephemeral",
        unfamiliar_option: "Unfamiliar · still learning",
        known_option: "Known · rings a bell",
        familiar_option: "Familiar · can recall it",
        add: "Add to archive",
        save: "Save changes",
        cancel: "Cancel",
        catalog: "Word catalog",
        status_filter: "Filter by familiarity",
        search: "Find a word",
        search_placeholder: "Type a word and press Enter",
        clear_search: "Clear search",
        all: "All",
        loading: "Opening the archive…",
        empty_title: "No word cards yet",
        empty_copy: "Add the first new word from the panel on the left.",
        filtered_empty_title: "No cards in this status",
        filtered_empty_copy: "Change the filter or add a word card from the left.",
        search_empty_title: "No matching words",
        search_empty_copy: "Try another word or clear the search to see every card.",
        search_filtered_empty_title: "No matching words in this status",
        search_filtered_empty_copy: "Change the familiarity filter or clear the search.",
        pagination: "Word pagination",
        previous: "← Previous",
        next: "Next →",
        preview: "Open",
        parts_of_speech: "Part of speech",
        phonetic: "IPA",
        edit: "Edit",
        delete: "Delete",
        delete_eyebrow: "Delete word card",
        delete_title: "Remove this word card?",
        delete_copy: "This cannot be undone and will not affect the source page.",
        keep: "Keep card",
        delete_success: "Word card deleted.",
        add_success: "Added to the archive.",
        save_success: "Changes saved.",
        load_error: "Could not load words: ",
        added_at: "Added",
        settings: "Data directory settings",
        storage_eyebrow: "LOCAL STORAGE",
        storage_title: "Vocabulary database location",
        storage_copy: "Saving copies existing words to the new directory and switches to it immediately.",
        storage_directory: "Data directory",
        storage_choose: "Choose folder",
        storage_empty: "No folder selected",
        storage_hint: "Choose a writable folder. It cannot already contain vocabulary.db.",
        storage_save: "Save and migrate",
        storage_success: "The vocabulary database has moved to the new directory.",
    }
}

/// The interface copy in Japanese.
pub open spec fn japanese_text() -> Text {
    Text {
        app_title: "単語アーカイブ",
        archive_label: "単語アーカイブ · LOCAL ARCHIVE",
        headline: "知らない単語を、覚えていく。",
        subtitle: "出典を記録し、理解度を整理します。",
        current_catalog: "現在の一覧",
        word_count_suffix: "語",
        language_label: "言語",
        new_entry: "新しい単語",
        edit_entry: "単語を編集",
        new_card: "単語カードを追加",
        edit_card: "このカードを修正",
        word: "単語",
        source_url: "出典 URL",
        familiarity: "現在の理解度",
        word_placeholder: "例：ephemeral",
        unfamiliar_option: "知らない · これから覚える",
        known_option: "知っている · 見覚えがある",
        familiar_option: "身についている · 思い出せる",
        add: "アーカイブに追加",
        save: "変更を保存",
        cancel: "キャンセル",
        catalog: "単語一覧",
        status_filter: "理解度で絞り込む",
        search: "単語を検索",
        search_placeholder: "単語を入力して Enter",
        clear_search: "検索をクリア",
        all: "すべて",
        loading: "アーカイブを開いています…",
        empty_title: "単語カードはまだありません",
        empty_copy: "左側から最初の単語を記録しましょう。",
        filtered_empty_title: "この状態のカードはありません",
        filtered_empty_copy: "絞り込みを変更するか、左側から単語を追加してください。",
        search_empty_title: "一致する単語がありません",
        search_empty_copy: "別の単語で検索するか、検索をクリアしてすべてのカードを表示してください。",
        search_filtered_empty_title: "この状態に一致する単語はありません",
        search_filtered_empty_copy: "理解度の絞り込みを変更するか、検索をクリアしてください。",
        pagination: "単語ページ送り",
        previous: "← 前へ",
        next: "次へ →",
        preview: "開く",
        parts_of_speech: "品詞",
        phonetic: "発音記号",
        edit: "編集",
        delete: "削除",
        delete_eyebrow: "単語カードを削除",
        delete_title: "この単語カードを削除しますか？",
        delete_copy: "削除すると元に戻せません。出典ページには影響しません。",
        keep: "カードを残す",
        delete_success: "単語カードを削除しました。",
        add_success: "アーカイブに追加しました。",
        save_success: "変更を保存しました。",
        load_error: "単語を読み込めません：",
        added_at: "追加日時",
        settings: "データ保存先の設定",
        storage_eyebrow: "LOCAL STORAGE",
        storage_title: "単語データベースの保存先",
        storage_copy: "保存すると既存の単語を新しいフォルダーにコピーし、すぐに切り替えます。",
        storage_directory: "データフォルダー",
        storage_choose: "フォルダーを選択",
        storage_empty: "フォルダーが選択されていません",
        storage_hint: "書き込み可能なフォルダーを選択してください。vocabulary.db があるフォルダーは選べません。",
        storage_save: "保存して移行",
        storage_success: "単語データベースを新しいフォルダーへ移行しました。",
    }
}

/// The interface copy of a language.
pub open spec fn text_of(language: Language) -> Text {
    match language {
        Language::Zh => chinese_text(),
        Language::En => english_text(),
        Language::Ja => japanese_text(),
    }
}

/// The interface copy in `language`.
pub fn text(language: Language) -> (r: Text)
    ensures
        r == text_of(language),
{
    match language {
        Language::Zh => Text {
            app_title: "词汇标本室",
            archive_label: "词汇标本室 · LOCAL ARCHIVE",
            headline: "把生词，放进记忆。",
            subtitle: "记录来源、判断熟悉度；下一次遇见时不再陌生。",
            current_catalog: "当前目录",
            word_count_suffix: "个单词",
            language_label: "语言",
            new_entry: "新建词条",
            edit_entry: "编辑词条",
            new_card: "收下一张词卡",
            edit_card: "修订这张词卡",
            word: "单词",
            source_url: "来源链接",
            familiarity: "此刻的熟悉度",
            word_placeholder: "例如 ephemeral",
            unfamiliar_option: "陌生 · 还需要认识",
            known_option: "了解 · 已有印象",
            familiar_option: "熟悉 · 可以复述",
            add: "加入档案",
            save: "保存修改",
            cancel: "取消",
            catalog: "词汇目录",
            status_filter: "按熟悉度筛选",
            search: "检索词条",
            search_placeholder: "输入单词后按 Enter",
            clear_search: "清除搜索",
            all: "全部",
            loading: "正在翻阅档案…",
            empty_title: "这里还没有词卡",
            empty_copy: "从左侧记下今天遇到的第一个陌生单词。",
            filtered_empty_title: "这个状态下还没有词卡",
            filtered_empty_copy: "切换状态筛选，或在左侧新增一张词卡。",
            search_empty_title: "没有找到匹配的单词",
            search_empty_copy: "换一个单词，或清除搜索后查看全部词卡。",
            search_filtered_empty_title: "当前筛选下没有匹配的单词",
            search_filtered_empty_copy: "调整熟悉度筛选，或清除搜索后继续浏览。",
            pagination: "词汇分页",
            previous: "← 上一页",
            next: "下一页 →",
            preview: "预览",
            parts_of_speech: "词性",
            phonetic: "音标",
            edit: "编辑",
            delete: "删除",
            delete_eyebrow: "删除词卡",
            delete_title: "确认移除这张词卡？",
            delete_copy: "删除后无法恢复，但不会影响来源网页。",
            keep: "保留词卡",
            delete_success: "词卡已删除。",
            add_success: "已加入词汇档案。",
            save_success: "已保存修改。",
            load_error: "无法读取单词：",
            added_at: "添加于",
            settings: "数据目录设置",
            storage_eyebrow: "本地存储",
            storage_title: "词汇数据库保存位置",
            storage_copy: "保存后会复制现有词汇到新目录，并立即使用新数据库。",
            storage_directory: "数据目录",
            storage_choose: "选择文件夹",
            storage_empty: "尚未选择目录",
            storage_hint: "请选择可写入的文件夹；目录中不能已有 vocabulary.db。",
            storage_save: "保存并迁移",
            storage_success: "词汇数据库已迁移到新目录。",
        },
        Language::En => Text {
            app_title: "Vocabulary Archive",
            archive_label: "VOCABULARY ARCHIVE · LOCAL",
            headline: "Make new words familiar.",
            subtitle: "Keep their source and track how well you know them.",
            current_catalog: "Current catalog",
            word_count_suffix: "words",
            language_label: "Language",
            new_entry: "New entry",
            edit_entry: "Edit entry",
            new_card: "Add a word card",
            edit_card: "Revise this card",
            word: "Word",
            source_url: "Source URL",
            familiarity: "Familiarity",
            word_placeholder: "e.g. ephemeral",
            unfamiliar_option: "Unfamiliar · still learning",
            known_option: "Known · rings a bell",
            familiar_option: "Familiar · can recall it",
            add: "Add to archive",
            save: "Save changes",
            cancel: "Cancel",
            catalog: "Word catalog",
            status_filter: "Filter by familiarity",
            search: "Find a word",
            search_placeholder: "Type a word and press Enter",
            clear_search: "Clear search",
            all: "All",
            loading: "Opening the archive…",
            empty_title: "No word cards yet",
            empty_copy: "Add the first new word from the panel on the left.",
            filtered_empty_title: "No cards in this status",
            filtered_empty_copy: "Change the filter or add a word card from the left.",
            search_empty_title: "No matching words",
            search_empty_copy: "Try another word or clear the search to see every card.",
            search_filtered_empty_title: "No matching words in this status",
            search_filtered_empty_copy: "Change the familiarity filter or clear the search.",
            pagination: "Word pagination",
            previous: "← Previous",
            next: "Next →",
            preview: "Open",
            parts_of_speech: "Part of speech",
            phonetic: "IPA",
            edit: "Edit",
            delete: "Delete",
            delete_eyebrow: "Delete word card",
            delete_title: "Remove this word card?",
            delete_copy: "This cannot be undone and will not affect the source page.",
            keep: "Keep card",
            delete_success: "Word card deleted.",
            add_success: "Added to the archive.",
            save_success: "Changes saved.",
            load_error: "Could not load words: ",
            added_at: "Added",
            settings: "Data directory settings",
            storage_eyebrow: "LOCAL STORAGE",
            storage_title: "Vocabulary database location",
            storage_copy: "Saving copies existing words to the new directory and switches to it immediately.",
            storage_directory: "Data directory",
            storage_choose: "Choose folder",
            storage_empty: "No folder selected",
            storage_hint: "Choose a writable folder. It cannot already contain vocabulary.db.",
            storage_save: "Save and migrate",
            storage_success: "The vocabulary database has moved to the new directory.",
        },
        Language::Ja => Text {
            app_title: "単語アーカイブ",
            archive_label: "単語アーカイブ · LOCAL ARCHIVE",
            headline: "知らない単語を、覚えていく。",
            subtitle: "出典を記録し、理解度を整理します。",
            current_catalog: "現在の一覧",
            word_count_suffix: "語",
            language_label: "言語",
            new_entry: "新しい単語",
            edit_entry: "単語を編集",
            new_card: "単語カードを追加",
            edit_card: "このカードを修正",
            word: "単語",
            source_url: "出典 URL",
            familiarity: "現在の理解度",
            word_placeholder: "例：ephemeral",
            unfamiliar_option: "知らない · これから覚える",
            known_option: "知っている · 見覚えがある",
            familiar_option: "身についている · 思い出せる",
            add: "アーカイブに追加",
            save: "変更を保存",
            cancel: "キャンセル",
            catalog: "単語一覧",
            status_filter: "理解度で絞り込む",
            search: "単語を検索",
            search_placeholder: "単語を入力して Enter",
            clear_search: "検索をクリア",
            all: "すべて",
            loading: "アーカイブを開いています…",
            empty_title: "単語カードはまだありません",
            empty_copy: "左側から最初の単語を記録しましょう。",
            filtered_empty_title: "この状態のカードはありません",
            filtered_empty_copy: "絞り込みを変更するか、左側から単語を追加してください。",
            search_empty_title: "一致する単語がありません",
            search_empty_copy: "別の単語で検索するか、検索をクリアしてすべてのカードを表示してください。",
            search_filtered_empty_title: "この状態に一致する単語はありません",
            search_filtered_empty_copy: "理解度の絞り込みを変更するか、検索をクリアしてください。",
            pagination: "単語ページ送り",
            previous: "← 前へ",
            next: "次へ →",
            preview: "開く",
            parts_of_speech: "品詞",
            phonetic: "発音記号",
            edit: "編集",
            delete: "削除",
            delete_eyebrow: "単語カードを削除",
            delete_title: "この単語カードを削除しますか？",
            delete_copy: "削除すると元に戻せません。出典ページには影響しません。",
            keep: "カードを残す",
            delete_success: "単語カードを削除しました。",
            add_success: "アーカイブに追加しました。",
            save_success: "変更を保存しました。",
            load_error: "単語を読み込めません：",
            added_at: "追加日時",
            settings: "データ保存先の設定",
            storage_eyebrow: "LOCAL STORAGE",
            storage_title: "単語データベースの保存先",
            storage_copy: "保存すると既存の単語を新しいフォルダーにコピーし、すぐに切り替えます。",
            storage_directory: "データフォルダー",
            storage_choose: "フォルダーを選択",
            storage_empty: "フォルダーが選択されていません",
            storage_hint: "書き込み可能なフォルダーを選択してください。vocabulary.db があるフォルダーは選べません。",
            storage_save: "保存して移行",
            storage_success: "単語データベースを新しいフォルダーへ移行しました。",
        },
    }
}

} // verus!
