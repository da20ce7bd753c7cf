//! Interface languages and the names under which they are stored.

use vstd::prelude::*;
use crate::config::str_equal;

verus! {

/// A language the interface can be shown in.
#[derive(Debug, Clone, Copy, PartialEq, Eq, Structural)]
pub enum Language {
    English,
    Chinese,
}

impl Language {
    /// The language a code stands for: Chinese for `zh`, `zh-CN` and
    /// `chinese`, written exactly so; English for everything else.
    pub open spec fn spec_from_code(code: Seq<char>) -> Language {
        if code == "zh"@ || code == "zh-CN"@ || code == "chinese"@ {
            Language::Chinese
        } else {
            Language::English
        }
    }

    pub fn from_code(code: &str) -> (language: Self)
        ensures
            language == Self::spec_from_code(code@),
    {
        if str_equal(code, "zh") || str_equal(code, "zh-CN") || str_equal(code, "chinese") {
            Language::Chinese
        } else {
            Language::English
        }
    }

    /// The two-letter code of this language.
    pub open spec fn spec_code(self) -> Seq<char> {
        match self {
            Language::English => "en"@,
            Language::Chinese => "zh"@,
        }
    }

    pub fn to_code(&self) -> (code: &'static str)
        ensures
            code@ == self.spec_code(),
    {
        match self {
            Language::English => "en",
            Language::Chinese => "zh",
        }
    }

    /// The name of this language, written in the language itself.
    pub open spec fn spec_display_name(self) -> Seq<char> {
        match self {
            Language::English => "English"@,
            Language::Chinese => "中文"@,
        }
    }

    pub fn display_name(&self) -> (name: &'static str)
        ensures
            name@ == self.spec_display_name(),
    {
        match self {
            Language::English => "English",
            Language::Chinese => "中文",
        }
    }

    /// The file that holds the translations of this language.
    pub open spec fn spec_file_name(self) -> Seq<char> {
        match self {
            Language::English => "en.lang"@,
            Language::Chinese => "zh.lang"@,
        }
    }

    pub fn file_name(&self) -> (name: &'static str)
        ensures
            name@ == self.spec_file_name(),
    {
        match self {
            Language::English => "en.lang",
            Language::Chinese => "zh.lang",
        }
    }
}

/// The code of a language is one that decodes to that language again.
pub proof fn lemma_code_round_trip(language: Language)
    ensures
        Language::spec_from_code(language.spec_code()) == language,
{
    reveal_strlit("en");
    reveal_strlit("zh");
    reveal_strlit("zh-CN");
    reveal_strlit("chinese");
    match language {
        Language::English => {
            assert("en"@.len() == 2);
            assert("en"@[0] == 'e');
            assert("zh"@[0] == 'z');
            assert("zh-CN"@.len() == 5);
            assert("chinese"@.len() == 7);
        },
        Language::Chinese => {},
    }
}

/// Every text the interface shows, in one language.
#[derive(Clone, Debug)]
pub struct LanguageStrings {
    // Menu items
    pub menu_view: String,
    pub menu_columns: String,
    pub menu_thumbnail_options: String,
    pub menu_thumbnail_background: String,
    pub menu_language: String,
    pub menu_file: String,
    // View modes
    pub view_details: String,
    pub view_medium_icons: String,
    pub view_large_icons: String,
    pub view_extra_large_icons: String,
    // Column names
    pub column_name: String,
    pub column_size: String,
    pub column_type: String,
    pub column_date_modified: String,
    pub column_path: String,
    // Thumbnail options
    pub thumb_default: String,
    pub thumb_visible: String,
    pub thumb_visible_plus_500: String,
    // Thumbnail backgrounds
    pub bg_transparent: String,
    pub bg_checkerboard: String,
    pub bg_black: String,
    pub bg_white: String,
    pub bg_gray: String,
    pub bg_light_gray: String,
    pub bg_dark_gray: String,
    // Context menu
    pub ctx_open: String,
    pub ctx_open_location: String,
    pub ctx_copy_path: String,
    pub ctx_copy_name: String,
    // Status bar
    pub status_objects: String,
    pub status_selected: String,
    // Time formats
    pub time_today: String,
    pub time_yesterday: String,
    pub time_days_ago: String,
    pub time_weeks_ago: String,
    pub time_months_ago: String,
    // Dialog messages
    pub warning_title: String,
    pub warning_thumbnail_mode: String,
    pub warning_continue: String,
    // Languages
    pub lang_english: String,
    pub lang_chinese: String,
    // File operations
    pub file_open_list: String,
    pub file_save_list: String,
    pub file_export_list: String,
    pub file_close_list: String,
    // Sort menu
    pub menu_sort: String,
    pub sort_name: String,
    pub sort_size: String,
    pub sort_type: String,
    pub sort_date: String,
    pub sort_path: String,
    pub sort_ascending: String,
    pub sort_descending: String,
    // File filters
    pub file_filter_lists: String,
    pub file_filter_text: String,
    pub file_filter_all: String,
    // Confirm dialogs
    pub confirm_close_list: String,
    pub confirm_title: String,
    pub confirm_clear_index: String,
}

impl Default for LanguageStrings {
    /// The English texts.
    fn default() -> (strings: Self)
        ensures
            strings.menu_view@ == "View"@,
            strings.menu_columns@ == "Columns"@,
            strings.menu_thumbnail_options@ == "Thumbnail Options"@,
            strings.menu_thumbnail_background@ == "Thumbnail Background"@,
            strings.menu_language@ == "Language"@,
            strings.menu_file@ == "File"@,
            strings.view_details@ == "Details"@,
            strings.view_medium_icons@ == "Medium Icons"@,
            strings.view_large_icons@ == "Large Icons"@,
            strings.view_extra_large_icons@ == "Extra Large Icons"@,
            strings.column_name@ == "Name"@,
            strings.column_size@ == "Size"@,
            strings.column_type@ == "Type"@,
            strings.column_date_modified@ == "Date Modified"@,
            strings.column_path@ == "Path"@,
            strings.thumb_default@ == "Default (Top-to-Bottom)"@,
            strings.thumb_visible@ == "Only Load Visible Thumbnails"@,
            strings.thumb_visible_plus_500@ == "Load Visible + Next 500"@,
            strings.bg_transparent@ == "Transparent"@,
            strings.bg_checkerboard@ == "Checkerboard"@,
            strings.bg_black@ == "Black"@,
            strings.bg_white@ == "White"@,
            strings.bg_gray@ == "Gray"@,
            strings.bg_light_gray@ == "Light Gray"@,
            strings.bg_dark_gray@ == "Dark Gray"@,
            strings.ctx_open@ == "Open"@,
            strings.ctx_open_location@ == "Open file location"@,
            strings.ctx_copy_path@ == "Copy path"@,
            strings.ctx_copy_name@ == "Copy name"@,
            strings.status_objects@ == "objects"@,
            strings.status_selected@ == "Selected"@,
            strings.time_today@ == "Today"@,
            strings.time_yesterday@ == "Yesterday"@,
            strings.time_days_ago@ == "days ago"@,
            strings.time_weeks_ago@ == "weeks ago"@,
            strings.time_months_ago@ == "months ago"@,
            strings.warning_title@ == "Warning"@,
            strings.warning_thumbnail_mode@ == "Loading thumbnails from top to bottom may be very slow and block the UI.\nThis strategy is not recommended.\r\n\r\nDo you want to continue?"@,
            strings.warning_continue@ == "Continue"@,
            strings.lang_english@ == "English"@,
            strings.lang_chinese@ == "中文"@,
            strings.file_open_list@ == "Open File List"@,
            strings.file_save_list@ == "Save File List"@,
            strings.file_export_list@ == "Export Simple List"@,
            strings.file_close_list@ == "Close List"@,
            strings.menu_sort@ == "Sort"@,
            strings.sort_name@ == "Sort by Name"@,
            strings.sort_size@ == "Sort by Size"@,
            strings.sort_type@ == "Sort by Type"@,
            strings.sort_date@ == "Sort by Date Modified"@,
            strings.sort_path@ == "Sort by Path"@,
            strings.sort_ascending@ == "Ascending"@,
            strings.sort_descending@ == "Descending"@,
            strings.file_filter_lists@ == "File Lists (*.txt;*.csv;*.efu)"@,
            strings.file_filter_text@ == "Text"@,
            strings.file_filter_all@ == "All"@,
            strings.confirm_close_list@ == "Are you sure you want to close the current file list?"@,
            strings.confirm_title@ == "Confirm"@,
            strings.confirm_clear_index@ == "Are you sure you want to clear the search index? This will remove all indexed file metadata."@,
    {
        LanguageStrings {
            menu_view: "View".to_owned(),
            menu_columns: "Columns".to_owned(),
            menu_thumbnail_options: "Thumbnail Options".to_owned(),
            menu_thumbnail_background: "Thumbnail Background".to_owned(),
            menu_language: "Language".to_owned(),
            menu_file: "File".to_owned(),
            view_details: "Details".to_owned(),
            view_medium_icons: "Medium Icons".to_owned(),
            view_large_icons: "Large Icons".to_owned(),
            view_extra_large_icons: "Extra Large Icons".to_owned(),
            column_name: "Name".to_owned(),
            column_size: "Size".to_owned(),
            column_type: "Type".to_owned(),
            column_date_modified: "Date Modified".to_owned(),
            column_path: "Path".to_owned(),
            thumb_default: "Default (Top-to-Bottom)".to_owned(),
            thumb_visible: "Only Load Visible Thumbnails".to_owned(),
            thumb_visible_plus_500: "Load Visible + Next 500".to_owned(),
            bg_transparent: "Transparent".to_owned(),
            bg_checkerboard: "Checkerboard".to_owned(),
            bg_black: "Black".to_owned(),
            bg_white: "White".to_owned(),
            bg_gray: "Gray".to_owned(),
            bg_light_gray: "Light Gray".to_owned(),
            bg_dark_gray: "Dark Gray".to_owned(),
            ctx_open: "Open".to_owned(),
            ctx_open_location: "Open file location".to_owned(),
            ctx_copy_path: "Copy path".to_owned(),
            ctx_copy_name: "Copy name".to_owned(),
            status_objects: "objects".to_owned(),
            status_selected: "Selected".to_owned(),
            time_today: "Today".to_owned(),
            time_yesterday: "Yesterday".to_owned(),
            time_days_ago: "days ago".to_owned(),
            time_weeks_ago: "weeks ago".to_owned(),
            time_months_ago: "months ago".to_owned(),
            warning_title: "Warning".to_owned(),
            warning_thumbnail_mode: "Loading thumbnails from top to bottom may be very slow and block the UI.\nThis strategy is not recommended.\r\n\r\nDo you want to continue?".to_owned(),
            warning_continue: "Continue".to_owned(),
            lang_english: "English".to_owned(),
            lang_chinese: "中文".to_owned(),
            file_open_list: "Open File List".to_owned(),
            file_save_list: "Save File List".to_owned(),
            file_export_list: "Export Simple List".to_owned(),
            file_close_list: "Close List".to_owned(),
            menu_sort: "Sort".to_owned(),
            sort_name: "Sort by Name".to_owned(),
            sort_size: "Sort by Size".to_owned(),
            sort_type: "Sort by Type".to_owned(),
            sort_date: "Sort by Date Modified".to_owned(),
            sort_path: "Sort by Path".to_owned(),
            sort_ascending: "Ascending".to_owned(),
            sort_descending: "Descending".to_owned(),
            file_filter_lists: "File Lists (*.txt;*.csv;*.efu)".to_owned(),
            file_filter_text: "Text".to_owned(),
            file_filter_all: "All".to_owned(),
            confirm_close_list: "Are you sure you want to close the current file list?".to_owned(),
            confirm_title: "Confirm".to_owned(),
            confirm_clear_index: "Are you sure you want to clear the search index? This will remove all indexed file metadata.".to_owned(),
        }
    }
}

/// The text stored under a key in a list of translations. Of two entries
/// with the same key the later one counts.
pub open spec fn lookup_text(entries: Seq<(String, String)>, key: Seq<char>) -> Option<Seq<char>>
    decreases entries.len(),
{
    if entries.len() == 0 {
        None
    } else if entries.last().0@ == key {
        Some(entries.last().1@)
    } else {
        lookup_text(entries.drop_last(), key)
    }
}

/// The current language, its loaded translations and the English texts to
/// fall back on.
pub struct LanguageManager {
    pub current_language: Language,
    pub default_strings: LanguageStrings,
    pub loaded_strings: Vec<(String, String)>,
    pub lang_dir: String,
}

impl LanguageManager {
    /// The text shown for a key: the loaded translation, or the fallback
    /// where none is loaded.
    pub open spec fn text_of(&self, key: Seq<char>, fallback: Seq<char>) -> Seq<char> {
        match lookup_text(self.loaded_strings@, key) {
            Some(text) => text,
            None => fallback,
        }
    }

    /// A manager for the language files of a directory. It starts in
    /// English with nothing loaded.
    pub fn new(lang_dir: &str) -> (manager: Self)
        ensures
            manager.current_language == Language::English,
            manager.loaded_strings@.len() == 0,
            manager.lang_dir@ == lang_dir@,
    {
        LanguageManager {
            current_language: Language::English,
            default_strings: LanguageStrings::default(),
            loaded_strings: Vec::new(),
            lang_dir: lang_dir.to_owned(),
        }
    }

    /// Switches the language. The translations read from its file are
    /// taken over; where the file could not be read, `loaded` is `None` and
    /// the English texts show. The switch succeeds either way.
    pub fn set_language(&mut self, language: Language, loaded: Option<Vec<(String, String)>>) -> (done:
        Result<(), String>)
        ensures
            done is Ok,
            final(self).current_language == language,
            final(self).loaded_strings@ == (match loaded {
                Some(entries) => entries@,
                None => Seq::<(String, String)>::empty(),
            }),
            final(self).default_strings == old(self).default_strings,
            final(self).lang_dir == old(self).lang_dir,
    {
        self.current_language = language;
        match loaded {
            Some(entries) => {
                self.loaded_strings = entries;
            },
            None => {
                self.loaded_strings = Vec::new();
            },
        }
        Ok(())
    }

    pub fn get_current_language(&self) -> (language: Language)
        ensures
            language == self.current_language,
    {
        self.current_language
    }

    /// The text shown for a key, with the fallback to use where no
    /// translation is loaded.
    pub fn get_string(&self, key: &str, default: &str) -> (text: String)
        ensures
            text@ == self.text_of(key@, default@),
    {
        let mut i: usize = self.loaded_strings.len();
        proof {
            assert(self.loaded_strings@.subrange(0, i as int) =~= self.loaded_strings@);
        }
        while i > 0
            invariant
                i <= self.loaded_strings@.len(),
                lookup_text(self.loaded_strings@, key@) == lookup_text(
                    self.loaded_strings@.subrange(0, i as int),
                    key@,
                ),
            decreases i,
        {
            let ghost prefix = self.loaded_strings@.subrange(0, i as int);
            i = i - 1;
            proof {
                assert(prefix.last() == self.loaded_strings@[i as int]);
                assert(prefix.drop_last() =~= self.loaded_strings@.subrange(0, i as int));
            }
            if str_equal(self.loaded_strings[i].0.as_str(), key) {
                return self.loaded_strings[i].1.clone();
            }
        }
        proof {
            assert(self.loaded_strings@.subrange(0, 0).len() == 0);
        }
        default.to_owned()
    }

    /// The texts of the current language: for each key the loaded
    /// translation, or the English text where none is loaded.
    pub fn get_strings(&self) -> (strings: LanguageStrings)
        ensures
            strings.menu_view@ == self.text_of("menu_view"@, self.default_strings.menu_view@),
            strings.menu_columns@ == self.text_of("menu_columns"@, self.default_strings.menu_columns@),
            strings.menu_thumbnail_options@ == self.text_of("menu_thumbnail_options"@, self.default_strings.menu_thumbnail_options@),
            strings.menu_thumbnail_background@ == self.text_of("menu_thumbnail_background"@, self.default_strings.menu_thumbnail_background@),
            strings.menu_language@ == self.text_of("menu_language"@, self.default_strings.menu_language@),
            strings.menu_file@ == self.text_of("menu_file"@, self.default_strings.menu_file@),
            strings.view_details@ == self.text_of("view_details"@, self.default_strings.view_details@),
            strings.view_medium_icons@ == self.text_of("view_medium_icons"@, self.default_strings.view_medium_icons@),
            strings.view_large_icons@ == self.text_of("view_large_icons"@, self.default_strings.view_large_icons@),
            strings.view_extra_large_icons@ == self.text_of("view_extra_large_icons"@, self.default_strings.view_extra_large_icons@),
            strings.column_name@ == self.text_of("column_name"@, self.default_strings.column_name@),
            strings.column_size@ == self.text_of("column_size"@, self.default_strings.column_size@),
            strings.column_type@ == self.text_of("column_type"@, self.default_strings.column_type@),
            strings.column_date_modified@ == self.text_of("column_date_modified"@, self.default_strings.column_date_modified@),
            strings.column_path@ == self.text_of("column_path"@, self.default_strings.column_path@),
            strings.thumb_default@ == self.text_of("thumb_default"@, self.default_strings.thumb_default@),
            strings.thumb_visible@ == self.text_of("thumb_visible"@, self.default_strings.thumb_visible@),
            strings.thumb_visible_plus_500@ == self.text_of("thumb_visible_plus_500"@, self.default_strings.thumb_visible_plus_500@),
            strings.bg_transparent@ == self.text_of("bg_transparent"@, self.default_strings.bg_transparent@),
            strings.bg_checkerboard@ == self.text_of("bg_checkerboard"@, self.default_strings.bg_checkerboard@),
            strings.bg_black@ == self.text_of("bg_black"@, self.default_strings.bg_black@),
            strings.bg_white@ == self.text_of("bg_white"@, self.default_strings.bg_white@),
            strings.bg_gray@ == self.text_of("bg_gray"@, self.default_strings.bg_gray@),
            strings.bg_light_gray@ == self.text_of("bg_light_gray"@, self.default_strings.bg_light_gray@),
            strings.bg_dark_gray@ == self.text_of("bg_dark_gray"@, self.default_strings.bg_dark_gray@),
            strings.ctx_open@ == self.text_of("ctx_open"@, self.default_strings.ctx_open@),
            strings.ctx_open_location@ == self.text_of("ctx_open_location"@, self.default_strings.ctx_open_location@),
            strings.ctx_copy_path@ == self.text_of("ctx_copy_path"@, self.default_strings.ctx_copy_path@),
            strings.ctx_copy_name@ == self.text_of("ctx_copy_name"@, self.default_strings.ctx_copy_name@),
            strings.status_objects@ == self.text_of("status_objects"@, self.default_strings.status_objects@),
            strings.status_selected@ == self.text_of("status_selected"@, self.default_strings.status_selected@),
            strings.time_today@ == self.text_of("time_today"@, self.default_strings.time_today@),
            strings.time_yesterday@ == self.text_of("time_yesterday"@, self.default_strings.time_yesterday@),
            strings.time_days_ago@ == self.text_of("time_days_ago"@, self.default_strings.time_days_ago@),
            strings.time_weeks_ago@ == self.text_of("time_weeks_ago"@, self.default_strings.time_weeks_ago@),
            strings.time_months_ago@ == self.text_of("time_months_ago"@, self.default_strings.time_months_ago@),
            strings.warning_title@ == self.text_of("warning_title"@, self.default_strings.warning_title@),
            strings.warning_thumbnail_mode@ == self.text_of("warning_thumbnail_mode"@, self.default_strings.warning_thumbnail_mode@),
            strings.warning_continue@ == self.text_of("warning_continue"@, self.default_strings.warning_continue@),
            strings.lang_english@ == self.text_of("lang_english"@, self.default_strings.lang_english@),
            strings.lang_chinese@ == self.text_of("lang_chinese"@, self.default_strings.lang_chinese@),
            strings.file_open_list@ == self.text_of("file_open_list"@, self.default_strings.file_open_list@),
            strings.file_save_list@ == self.text_of("file_save_list"@, self.default_strings.file_save_list@),
            strings.file_export_list@ == self.text_of("file_export_list"@, self.default_strings.file_export_list@),
            strings.file_close_list@ == self.text_of("file_close_list"@, self.default_strings.file_close_list@),
            strings.menu_sort@ == self.text_of("menu_sort"@, self.default_strings.menu_sort@),
            strings.sort_name@ == self.text_of("sort_name"@, self.default_strings.sort_name@),
            strings.sort_size@ == self.text_of("sort_size"@, self.default_strings.sort_size@),
            strings.sort_type@ == self.text_of("sort_type"@, self.default_strings.sort_type@),
            strings.sort_date@ == self.text_of("sort_date"@, self.default_strings.sort_date@),
            strings.sort_path@ == self.text_of("sort_path"@, self.default_strings.sort_path@),
            strings.sort_ascending@ == self.text_of("sort_ascending"@, self.default_strings.sort_ascending@),
            strings.sort_descending@ == self.text_of("sort_descending"@, self.default_strings.sort_descending@),
            strings.file_filter_lists@ == self.text_of("file_filter_lists"@, self.default_strings.file_filter_lists@),
            strings.file_filter_text@ == self.text_of("file_filter_text"@, self.default_strings.file_filter_text@),
            strings.file_filter_all@ == self.text_of("file_filter_all"@, self.default_strings.file_filter_all@),
            strings.confirm_close_list@ == self.text_of("confirm_close_list"@, self.default_strings.confirm_close_list@),
            strings.confirm_title@ == self.text_of("confirm_title"@, self.default_strings.confirm_title@),
            strings.confirm_clear_index@ == self.text_of("confirm_clear_index"@, self.default_strings.confirm_clear_index@),
    {
        LanguageStrings {
            menu_view: self.get_string("menu_view", self.default_strings.menu_view.as_str()),
            menu_columns: self.get_string("menu_columns", self.default_strings.menu_columns.as_str()),
            menu_thumbnail_options: self.get_string("menu_thumbnail_options", self.default_strings.menu_thumbnail_options.as_str()),
            menu_thumbnail_background: self.get_string("menu_thumbnail_background", self.default_strings.menu_thumbnail_background.as_str()),
            menu_language: self.get_string("menu_language", self.default_strings.menu_language.as_str()),
            menu_file: self.get_string("menu_file", self.default_strings.menu_file.as_str()),
            view_details: self.get_string("view_details", self.default_strings.view_details.as_str()),
            view_medium_icons: self.get_string("view_medium_icons", self.default_strings.view_medium_icons.as_str()),
            view_large_icons: self.get_string("view_large_icons", self.default_strings.view_large_icons.as_str()),
            view_extra_large_icons: self.get_string("view_extra_large_icons", self.default_strings.view_extra_large_icons.as_str()),
            column_name: self.get_string("column_name", self.default_strings.column_name.as_str()),
            column_size: self.get_string("column_size", self.default_strings.column_size.as_str()),
            column_type: self.get_string("column_type", self.default_strings.column_type.as_str()),
            column_date_modified: self.get_string("column_date_modified", self.default_strings.column_date_modified.as_str()),
            column_path: self.get_string("column_path", self.default_strings.column_path.as_str()),
            thumb_default: self.get_string("thumb_default", self.default_strings.thumb_default.as_str()),
            thumb_visible: self.get_string("thumb_visible", self.default_strings.thumb_visible.as_str()),
            thumb_visible_plus_500: self.get_string("thumb_visible_plus_500", self.default_strings.thumb_visible_plus_500.as_str()),
            bg_transparent: self.get_string("bg_transparent", self.default_strings.bg_transparent.as_str()),
            bg_checkerboard: self.get_string("bg_checkerboard", self.default_strings.bg_checkerboard.as_str()),
            bg_black: self.get_string("bg_black", self.default_strings.bg_black.as_str()),
            bg_white: self.get_string("bg_white", self.default_strings.bg_white.as_str()),
            bg_gray: self.get_string("bg_gray", self.default_strings.bg_gray.as_str()),
            bg_light_gray: self.get_string("bg_light_gray", self.default_strings.bg_light_gray.as_str()),
            bg_dark_gray: self.get_string("bg_dark_gray", self.default_strings.bg_dark_gray.as_str()),
            ctx_open: self.get_string("ctx_open", self.default_strings.ctx_open.as_str()),
            ctx_open_location: self.get_string("ctx_open_location", self.default_strings.ctx_open_location.as_str()),
            ctx_copy_path: self.get_string("ctx_copy_path", self.default_strings.ctx_copy_path.as_str()),
            ctx_copy_name: self.get_string("ctx_copy_name", self.default_strings.ctx_copy_name.as_str()),
            status_objects: self.get_string("status_objects", self.default_strings.status_objects.as_str()),
            status_selected: self.get_string("status_selected", self.default_strings.status_selected.as_str()),
            time_today: self.get_string("time_today", self.default_strings.time_today.as_str()),
            time_yesterday: self.get_string("time_yesterday", self.default_strings.time_yesterday.as_str()),
            time_days_ago: self.get_string("time_days_ago", self.default_strings.time_days_ago.as_str()),
            time_weeks_ago: self.get_string("time_weeks_ago", self.default_strings.time_weeks_ago.as_str()),
            time_months_ago: self.get_string("time_months_ago", self.default_strings.time_months_ago.as_str()),
            warning_title: self.get_string("warning_title", self.default_strings.warning_title.as_str()),
            warning_thumbnail_mode: self.get_string("warning_thumbnail_mode", self.default_strings.warning_thumbnail_mode.as_str()),
            warning_continue: self.get_string("warning_continue", self.default_strings.warning_continue.as_str()),
            lang_english: self.get_string("lang_english", self.default_strings.lang_english.as_str()),
            lang_chinese: self.get_string("lang_chinese", self.default_strings.lang_chinese.as_str()),
            file_open_list: self.get_string("file_open_list", self.default_strings.file_open_list.as_str()),
            file_save_list: self.get_string("file_save_list", self.default_strings.file_save_list.as_str()),
            file_export_list: self.get_string("file_export_list", self.default_strings.file_export_list.as_str()),
            file_close_list: self.get_string("file_close_list", self.default_strings.file_close_list.as_str()),
            menu_sort: self.get_string("menu_sort", self.default_strings.menu_sort.as_str()),
            sort_name: self.get_string("sort_name", self.default_strings.sort_name.as_str()),
            sort_size: self.get_string("sort_size", self.default_strings.sort_size.as_str()),
            sort_type: self.get_string("sort_type", self.default_strings.sort_type.as_str()),
            sort_date: self.get_string("sort_date", self.default_strings.sort_date.as_str()),
            sort_path: self.get_string("sort_path", self.default_strings.sort_path.as_str()),
            sort_ascending: self.get_string("sort_ascending", self.default_strings.sort_ascending.as_str()),
            sort_descending: self.get_string("sort_descending", self.default_strings.sort_descending.as_str()),
            file_filter_lists: self.get_string("file_filter_lists", self.default_strings.file_filter_lists.as_str()),
            file_filter_text: self.get_string("file_filter_text", self.default_strings.file_filter_text.as_str()),
            file_filter_all: self.get_string("file_filter_all", self.default_strings.file_filter_all.as_str()),
            confirm_close_list: self.get_string("confirm_close_list", self.default_strings.confirm_close_list.as_str()),
            confirm_title: self.get_string("confirm_title", self.default_strings.confirm_title.as_str()),
            confirm_clear_index: self.get_string("confirm_clear_index", self.default_strings.confirm_clear_index.as_str()),
        }
    }

    /// The English translations: each key with its English text.
    #[verifier::rlimit(80)]
    pub fn get_english_translations(&self) -> (table: Vec<(String, String)>)
        ensures
            table@.len() == 59,
            table@[0].0@ == "menu_view"@ && table@[0].1@ == "View"@,
            table@[1].0@ == "menu_columns"@ && table@[1].1@ == "Columns"@,
            table@[2].0@ == "menu_thumbnail_options"@ && table@[2].1@ == "Thumbnail Options"@,
            table@[3].0@ == "menu_thumbnail_background"@ && table@[3].1@ == "Thumbnail Background"@,
            table@[4].0@ == "menu_language"@ && table@[4].1@ == "Language"@,
            table@[5].0@ == "menu_file"@ && table@[5].1@ == "File"@,
            table@[6].0@ == "view_details"@ && table@[6].1@ == "Details"@,
            table@[7].0@ == "view_medium_icons"@ && table@[7].1@ == "Medium Icons"@,
            table@[8].0@ == "view_large_icons"@ && table@[8].1@ == "Large Icons"@,
            table@[9].0@ == "view_extra_large_icons"@ && table@[9].1@ == "Extra Large Icons"@,
            table@[10].0@ == "column_name"@ && table@[10].1@ == "Name"@,
            table@[11].0@ == "column_size"@ && table@[11].1@ == "Size"@,
            table@[12].0@ == "column_type"@ && table@[12].1@ == "Type"@,
            table@[13].0@ == "column_date_modified"@ && table@[13].1@ == "Date Modified"@,
            table@[14].0@ == "column_path"@ && table@[14].1@ == "Path"@,
            table@[15].0@ == "thumb_default"@ && table@[15].1@ == "Default (Top-to-Bottom)"@,
            table@[16].0@ == "thumb_visible"@ && table@[16].1@ == "Only Load Visible Thumbnails"@,
            table@[17].0@ == "thumb_visible_plus_500"@ && table@[17].1@ == "Load Visible + Next 500"@,
            table@[18].0@ == "bg_transparent"@ && table@[18].1@ == "Transparent"@,
            table@[19].0@ == "bg_checkerboard"@ && table@[19].1@ == "Checkerboard"@,
            table@[20].0@ == "bg_black"@ && table@[20].1@ == "Black"@,
            table@[21].0@ == "bg_white"@ && table@[21].1@ == "White"@,
            table@[22].0@ == "bg_gray"@ && table@[22].1@ == "Gray"@,
            table@[23].0@ == "bg_light_gray"@ && table@[23].1@ == "Light Gray"@,
            table@[24].0@ == "bg_dark_gray"@ && table@[24].1@ == "Dark Gray"@,
            table@[25].0@ == "ctx_open"@ && table@[25].1@ == "Open"@,
            table@[26].0@ == "ctx_open_location"@ && table@[26].1@ == "Open file location"@,
            table@[27].0@ == "ctx_copy_path"@ && table@[27].1@ == "Copy path"@,
            table@[28].0@ == "ctx_copy_name"@ && table@[28].1@ == "Copy name"@,
            table@[29].0@ == "status_objects"@ && table@[29].1@ == "objects"@,
            table@[30].0@ == "status_selected"@ && table@[30].1@ == "Selected"@,
            table@[31].0@ == "time_today"@ && table@[31].1@ == "Today"@,
            table@[32].0@ == "time_yesterday"@ && table@[32].1@ == "Yesterday"@,
            table@[33].0@ == "time_days_ago"@ && table@[33].1@ == "days ago"@,
            table@[34].0@ == "time_weeks_ago"@ && table@[34].1@ == "weeks ago"@,
            table@[35].0@ == "time_months_ago"@ && table@[35].1@ == "months ago"@,
            table@[36].0@ == "warning_title"@ && table@[36].1@ == "Warning"@,
            table@[37].0@ == "warning_thumbnail_mode"@ && table@[37].1@ == "Loading thumbnails from top to bottom may be very slow and block the UI.\nThis strategy is not recommended.\r\n\r\nDo you want to continue?"@,
            table@[38].0@ == "warning_continue"@ && table@[38].1@ == "Continue"@,
            table@[39].0@ == "lang_english"@ && table@[39].1@ == "English"@,
            table@[40].0@ == "lang_chinese"@ && table@[40].1@ == "中文"@,
            table@[41].0@ == "file_open_list"@ && table@[41].1@ == "Open File List"@,
            table@[42].0@ == "file_save_list"@ && table@[42].1@ == "Save File List"@,
            table@[43].0@ == "file_export_list"@ && table@[43].1@ == "Export Simple List"@,
            table@[44].0@ == "file_close_list"@ && table@[44].1@ == "Close List"@,
            table@[45].0@ == "menu_sort"@ && table@[45].1@ == "Sort"@,
            table@[46].0@ == "sort_name"@ && table@[46].1@ == "Sort by Name"@,
            table@[47].0@ == "sort_size"@ && table@[47].1@ == "Sort by Size"@,
            table@[48].0@ == "sort_type"@ && table@[48].1@ == "Sort by Type"@,
            table@[49].0@ == "sort_date"@ && table@[49].1@ == "Sort by Date Modified"@,
            table@[50].0@ == "sort_path"@ && table@[50].1@ == "Sort by Path"@,
            table@[51].0@ == "sort_ascending"@ && table@[51].1@ == "Ascending"@,
            table@[52].0@ == "sort_descending"@ && table@[52].1@ == "Descending"@,
            table@[53].0@ == "file_filter_lists"@ && table@[53].1@ == "File Lists (*.txt;*.csv;*.efu)"@,
            table@[54].0@ == "file_filter_text"@ && table@[54].1@ == "Text"@,
            table@[55].0@ == "file_filter_all"@ && table@[55].1@ == "All"@,
            table@[56].0@ == "confirm_close_list"@ && table@[56].1@ == "Are you sure you want to close the current file list?"@,
            table@[57].0@ == "confirm_title"@ && table@[57].1@ == "Confirm"@,
            table@[58].0@ == "confirm_clear_index"@ && table@[58].1@ == "Are you sure you want to clear the search index? This will remove all indexed file metadata."@,
    {
        let default = LanguageStrings::default();
        let mut table: Vec<(String, String)> = Vec::new();
        table.push(("menu_view".to_owned(), default.menu_view));
        table.push(("menu_columns".to_owned(), default.menu_columns));
        table.push(("menu_thumbnail_options".to_owned(), default.menu_thumbnail_options));
        table.push(("menu_thumbnail_background".to_owned(), default.menu_thumbnail_background));
        table.push(("menu_language".to_owned(), default.menu_language));
        table.push(("menu_file".to_owned(), default.menu_file));
        table.push(("view_details".to_owned(), default.view_details));
        table.push(("view_medium_icons".to_owned(), default.view_medium_icons));
        table.push(("view_large_icons".to_owned(), default.view_large_icons));
        table.push(("view_extra_large_icons".to_owned(), default.view_extra_large_icons));
        table.push(("column_name".to_owned(), default.column_name));
        table.push(("column_size".to_owned(), default.column_size));
        table.push(("column_type".to_owned(), default.column_type));
        table.push(("column_date_modified".to_owned(), default.column_date_modified));
        table.push(("column_path".to_owned(), default.column_path));
        table.push(("thumb_default".to_owned(), default.thumb_default));
        table.push(("thumb_visible".to_owned(), default.thumb_visible));
        table.push(("thumb_visible_plus_500".to_owned(), default.thumb_visible_plus_500));
        table.push(("bg_transparent".to_owned(), default.bg_transparent));
        table.push(("bg_checkerboard".to_owned(), default.bg_checkerboard));
        table.push(("bg_black".to_owned(), default.bg_black));
        table.push(("bg_white".to_owned(), default.bg_white));
        table.push(("bg_gray".to_owned(), default.bg_gray));
        table.push(("bg_light_gray".to_owned(), default.bg_light_gray));
        table.push(("bg_dark_gray".to_owned(), default.bg_dark_gray));
        table.push(("ctx_open".to_owned(), default.ctx_open));
        table.push(("ctx_open_location".to_owned(), default.ctx_open_location));
        table.push(("ctx_copy_path".to_owned(), default.ctx_copy_path));
        table.push(("ctx_copy_name".to_owned(), default.ctx_copy_name));
        table.push(("status_objects".to_owned(), default.status_objects));
        table.push(("status_selected".to_owned(), default.status_selected));
        table.push(("time_today".to_owned(), default.time_today));
        table.push(("time_yesterday".to_owned(), default.time_yesterday));
        table.push(("time_days_ago".to_owned(), default.time_days_ago));
        table.push(("time_weeks_ago".to_owned(), default.time_weeks_ago));
        table.push(("time_months_ago".to_owned(), default.time_months_ago));
        table.push(("warning_title".to_owned(), default.warning_title));
        table.push(("warning_thumbnail_mode".to_owned(), default.warning_thumbnail_mode));
        table.push(("warning_continue".to_owned(), default.warning_continue));
        table.push(("lang_english".to_owned(), default.lang_english));
        table.push(("lang_chinese".to_owned(), default.lang_chinese));
        table.push(("file_open_list".to_owned(), default.file_open_list));
        table.push(("file_save_list".to_owned(), default.file_save_list));
        table.push(("file_export_list".to_owned(), default.file_export_list));
        table.push(("file_close_list".to_owned(), default.file_close_list));
        table.push(("menu_sort".to_owned(), default.menu_sort));
        table.push(("sort_name".to_owned(), default.sort_name));
        table.push(("sort_size".to_owned(), default.sort_size));
        table.push(("sort_type".to_owned(), default.sort_type));
        table.push(("sort_date".to_owned(), default.sort_date));
        table.push(("sort_path".to_owned(), default.sort_path));
        table.push(("sort_ascending".to_owned(), default.sort_ascending));
        table.push(("sort_descending".to_owned(), default.sort_descending));
        table.push(("file_filter_lists".to_owned(), default.file_filter_lists));
        table.push(("file_filter_text".to_owned(), default.file_filter_text));
        table.push(("file_filter_all".to_owned(), default.file_filter_all));
        table.push(("confirm_close_list".to_owned(), default.confirm_close_list));
        table.push(("confirm_title".to_owned(), default.confirm_title));
        table.push(("confirm_clear_index".to_owned(), default.confirm_clear_index));
        table
    }

    /// The Chinese translations: each key with its Chinese text.
    #[verifier::rlimit(80)]
    pub fn get_chinese_translations(&self) -> (table: Vec<(String, String)>)
        ensures
            table@.len() == 59,
            table@[0].0@ == "menu_view"@ && table@[0].1@ == "查看"@,
            table@[1].0@ == "menu_columns"@ && table@[1].1@ == "列"@,
            table@[2].0@ == "menu_thumbnail_options"@ && table@[2].1@ == "缩略图选项"@,
            table@[3].0@ == "menu_thumbnail_background"@ && table@[3].1@ == "缩略图背景"@,
            table@[4].0@ == "menu_language"@ && table@[4].1@ == "语言"@,
            table@[5].0@ == "menu_file"@ && table@[5].1@ == "文件"@,
            table@[6].0@ == "view_details"@ && table@[6].1@ == "详细信息"@,
            table@[7].0@ == "view_medium_icons"@ && table@[7].1@ == "中等图标"@,
            table@[8].0@ == "view_large_icons"@ && table@[8].1@ == "大图标"@,
            table@[9].0@ == "view_extra_large_icons"@ && table@[9].1@ == "超大图标"@,
            table@[10].0@ == "column_name"@ && table@[10].1@ == "名称"@,
            table@[11].0@ == "column_size"@ && table@[11].1@ == "大小"@,
            table@[12].0@ == "column_type"@ && table@[12].1@ == "类型"@,
            table@[13].0@ == "column_date_modified"@ && table@[13].1@ == "修改时间"@,
            table@[14].0@ == "column_path"@ && table@[14].1@ == "路径"@,
            table@[15].0@ == "thumb_default"@ && table@[15].1@ == "默认 (从上到下)"@,
            table@[16].0@ == "thumb_visible"@ && table@[16].1@ == "仅加载可见缩略图"@,
            table@[17].0@ == "thumb_visible_plus_500"@ && table@[17].1@ == "加载可见 + 后续500个"@,
            table@[18].0@ == "bg_transparent"@ && table@[18].1@ == "透明"@,
            table@[19].0@ == "bg_checkerboard"@ && table@[19].1@ == "棋盘格"@,
            table@[20].0@ == "bg_black"@ && table@[20].1@ == "黑色"@,
            table@[21].0@ == "bg_white"@ && table@[21].1@ == "白色"@,
            table@[22].0@ == "bg_gray"@ && table@[22].1@ == "灰色"@,
            table@[23].0@ == "bg_light_gray"@ && table@[23].1@ == "浅灰色"@,
            table@[24].0@ == "bg_dark_gray"@ && table@[24].1@ == "深灰色"@,
            table@[25].0@ == "ctx_open"@ && table@[25].1@ == "打开"@,
            table@[26].0@ == "ctx_open_location"@ && table@[26].1@ == "打开文件位置"@,
            table@[27].0@ == "ctx_copy_path"@ && table@[27].1@ == "复制路径"@,
            table@[28].0@ == "ctx_copy_name"@ && table@[28].1@ == "复制名称"@,
            table@[29].0@ == "status_objects"@ && table@[29].1@ == "个对象"@,
            table@[30].0@ == "status_selected"@ && table@[30].1@ == "已选择"@,
            table@[31].0@ == "time_today"@ && table@[31].1@ == "今天"@,
            table@[32].0@ == "time_yesterday"@ && table@[32].1@ == "昨天"@,
            table@[33].0@ == "time_days_ago"@ && table@[33].1@ == "天前"@,
            table@[34].0@ == "time_weeks_ago"@ && table@[34].1@ == "周前"@,
            table@[35].0@ == "time_months_ago"@ && table@[35].1@ == "个月前"@,
            table@[36].0@ == "warning_title"@ && table@[36].1@ == "警告"@,
            table@[37].0@ == "warning_thumbnail_mode"@ && table@[37].1@ == "从上到下加载缩略图可能非常缓慢并阻塞界面。\\n不推荐使用此策略。\\r\\n\\r\\n您要继续吗？"@,
            table@[38].0@ == "warning_continue"@ && table@[38].1@ == "继续"@,
            table@[39].0@ == "lang_english"@ && table@[39].1@ == "English"@,
            table@[40].0@ == "lang_chinese"@ && table@[40].1@ == "中文"@,
            table@[41].0@ == "file_open_list"@ && table@[41].1@ == "打开文件列表"@,
            table@[42].0@ == "file_save_list"@ && table@[42].1@ == "保存文件列表"@,
            table@[43].0@ == "file_export_list"@ && table@[43].1@ == "导出简单列表"@,
            table@[44].0@ == "file_close_list"@ && table@[44].1@ == "关闭列表"@,
            table@[45].0@ == "menu_sort"@ && table@[45].1@ == "排序"@,
            table@[46].0@ == "sort_name"@ && table@[46].1@ == "按名称排序"@,
            table@[47].0@ == "sort_size"@ && table@[47].1@ == "按大小排序"@,
            table@[48].0@ == "sort_type"@ && table@[48].1@ == "按类型排序"@,
            table@[49].0@ == "sort_date"@ && table@[49].1@ == "按修改时间排序"@,
            table@[50].0@ == "sort_path"@ && table@[50].1@ == "按路径排序"@,
            table@[51].0@ == "sort_ascending"@ && table@[51].1@ == "升序"@,
            table@[52].0@ == "sort_descending"@ && table@[52].1@ == "降序"@,
            table@[53].0@ == "file_filter_lists"@ && table@[53].1@ == "文件列表 (*.txt;*.csv;*.efu)"@,
            table@[54].0@ == "file_filter_text"@ && table@[54].1@ == "文本"@,
            table@[55].0@ == "file_filter_all"@ && table@[55].1@ == "全部"@,
            table@[56].0@ == "confirm_close_list"@ && table@[56].1@ == "确定要关闭当前文件列表吗？"@,
            table@[57].0@ == "confirm_title"@ && table@[57].1@ == "确认"@,
            table@[58].0@ == "confirm_clear_index"@ && table@[58].1@ == "确定要清除搜索索引吗？这将删除所有已索引的文件元数据。"@,
    {
        let mut table: Vec<(String, String)> = Vec::new();
        table.push(("menu_view".to_owned(), "查看".to_owned()));
        table.push(("menu_columns".to_owned(), "列".to_owned()));
        table.push(("menu_thumbnail_options".to_owned(), "缩略图选项".to_owned()));
        table.push(("menu_thumbnail_background".to_owned(), "缩略图背景".to_owned()));
        table.push(("menu_language".to_owned(), "语言".to_owned()));
        table.push(("menu_file".to_owned(), "文件".to_owned()));
        table.push(("view_details".to_owned(), "详细信息".to_owned()));
        table.push(("view_medium_icons".to_owned(), "中等图标".to_owned()));
        table.push(("view_large_icons".to_owned(), "大图标".to_owned()));
        table.push(("view_extra_large_icons".to_owned(), "超大图标".to_owned()));
        table.push(("column_name".to_owned(), "名称".to_owned()));
        table.push(("column_size".to_owned(), "大小".to_owned()));
        table.push(("column_type".to_owned(), "类型".to_owned()));
        table.push(("column_date_modified".to_owned(), "修改时间".to_owned()));
        table.push(("column_path".to_owned(), "路径".to_owned()));
        table.push(("thumb_default".to_owned(), "默认 (从上到下)".to_owned()));
        table.push(("thumb_visible".to_owned(), "仅加载可见缩略图".to_owned()));
        table.push(("thumb_visible_plus_500".to_owned(), "加载可见 + 后续500个".to_owned()));
        table.push(("bg_transparent".to_owned(), "透明".to_owned()));
        table.push(("bg_checkerboard".to_owned(), "棋盘格".to_owned()));
        table.push(("bg_black".to_owned(), "黑色".to_owned()));
        table.push(("bg_white".to_owned(), "白色".to_owned()));
        table.push(("bg_gray".to_owned(), "灰色".to_owned()));
        table.push(("bg_light_gray".to_owned(), "浅灰色".to_owned()));
        table.push(("bg_dark_gray".to_owned(), "深灰色".to_owned()));
        table.push(("ctx_open".to_owned(), "打开".to_owned()));
        table.push(("ctx_open_location".to_owned(), "打开文件位置".to_owned()));
        table.push(("ctx_copy_path".to_owned(), "复制路径".to_owned()));
        table.push(("ctx_copy_name".to_owned(), "复制名称".to_owned()));
        table.push(("status_objects".to_owned(), "个对象".to_owned()));
        table.push(("status_selected".to_owned(), "已选择".to_owned()));
        table.push(("time_today".to_owned(), "今天".to_owned()));
        table.push(("time_yesterday".to_owned(), "昨天".to_owned()));
        table.push(("time_days_ago".to_owned(), "天前".to_owned()));
        table.push(("time_weeks_ago".to_owned(), "周前".to_owned()));
        table.push(("time_months_ago".to_owned(), "个月前".to_owned()));
        table.push(("warning_title".to_owned(), "警告".to_owned()));
        table.push(("warning_thumbnail_mode".to_owned(), "从上到下加载缩略图可能非常缓慢并阻塞界面。\\n不推荐使用此策略。\\r\\n\\r\\n您要继续吗？".to_owned()));
        table.push(("warning_continue".to_owned(), "继续".to_owned()));
        table.push(("lang_english".to_owned(), "English".to_owned()));
        table.push(("lang_chinese".to_owned(), "中文".to_owned()));
        table.push(("file_open_list".to_owned(), "打开文件列表".to_owned()));
        table.push(("file_save_list".to_owned(), "保存文件列表".to_owned()));
        table.push(("file_export_list".to_owned(), "导出简单列表".to_owned()));
        table.push(("file_close_list".to_owned(), "关闭列表".to_owned()));
        table.push(("menu_sort".to_owned(), "排序".to_owned()));
        table.push(("sort_name".to_owned(), "按名称排序".to_owned()));
        table.push(("sort_size".to_owned(), "按大小排序".to_owned()));
        table.push(("sort_type".to_owned(), "按类型排序".to_owned()));
        table.push(("sort_date".to_owned(), "按修改时间排序".to_owned()));
        table.push(("sort_path".to_owned(), "按路径排序".to_owned()));
        table.push(("sort_ascending".to_owned(), "升序".to_owned()));
        table.push(("sort_descending".to_owned(), "降序".to_owned()));
        table.push(("file_filter_lists".to_owned(), "文件列表 (*.txt;*.csv;*.efu)".to_owned()));
        table.push(("file_filter_text".to_owned(), "文本".to_owned()));
        table.push(("file_filter_all".to_owned(), "全部".to_owned()));
        table.push(("confirm_close_list".to_owned(), "确定要关闭当前文件列表吗？".to_owned()));
        table.push(("confirm_title".to_owned(), "确认".to_owned()));
        table.push(("confirm_clear_index".to_owned(), "确定要清除搜索索引吗？这将删除所有已索引的文件元数据。".to_owned()));
        table
    }
}

} // verus!
