use everything_browser::config::{
    str_equal, AppConfig, LanguageCode, ThumbnailBackground, ThumbnailStrategy,
};
use everything_browser::lang::Language;

#[test]
fn strategy_default_is_only_visible() {
    assert_eq!(ThumbnailStrategy::default(), ThumbnailStrategy::OnlyLoadVisible);
}

#[test]
fn strategy_display_names() {
    assert_eq!(ThumbnailStrategy::DefaultTopToBottom.display_name(), "Default (Top-to-Bottom)");
    assert_eq!(ThumbnailStrategy::OnlyLoadVisible.display_name(), "Only Load Visible Thumbnails");
    assert_eq!(ThumbnailStrategy::LoadVisiblePlus500.display_name(), "Load Visible + Next 500");
}

#[test]
fn background_default_is_transparent() {
    assert_eq!(ThumbnailBackground::default(), ThumbnailBackground::Transparent);
}

#[test]
fn background_color_refs() {
    assert_eq!(ThumbnailBackground::Transparent.to_color_ref(), 0x0000_0000);
    assert_eq!(ThumbnailBackground::Checkerboard.to_color_ref(), 0x0000_0000);
    assert_eq!(ThumbnailBackground::Black.to_color_ref(), 0x0000_0000);
    assert_eq!(ThumbnailBackground::White.to_color_ref(), 0x00FF_FFFF);
    assert_eq!(ThumbnailBackground::Gray.to_color_ref(), 0x0080_8080);
    assert_eq!(ThumbnailBackground::LightGray.to_color_ref(), 0x00C0_C0C0);
    assert_eq!(ThumbnailBackground::DarkGray.to_color_ref(), 0x0040_4040);
}

#[test]
fn background_display_names() {
    assert_eq!(ThumbnailBackground::Transparent.display_name(), "Transparent");
    assert_eq!(ThumbnailBackground::Checkerboard.display_name(), "Checkerboard");
    assert_eq!(ThumbnailBackground::Black.display_name(), "Black");
    assert_eq!(ThumbnailBackground::White.display_name(), "White");
    assert_eq!(ThumbnailBackground::Gray.display_name(), "Gray");
    assert_eq!(ThumbnailBackground::LightGray.display_name(), "Light Gray");
    assert_eq!(ThumbnailBackground::DarkGray.display_name(), "Dark Gray");
}

#[test]
fn language_code_to_string() {
    assert_eq!(LanguageCode::English.to_string(), "en");
    assert_eq!(LanguageCode::Chinese.to_string(), "zh");
}

#[test]
fn language_code_from_string_ignores_case() {
    assert_eq!(LanguageCode::from_string("zh"), LanguageCode::Chinese);
    assert_eq!(LanguageCode::from_string("ZH"), LanguageCode::Chinese);
    assert_eq!(LanguageCode::from_string("zh-CN"), LanguageCode::Chinese);
    assert_eq!(LanguageCode::from_string("Chinese"), LanguageCode::Chinese);
    assert_eq!(LanguageCode::from_string("CHINESE"), LanguageCode::Chinese);
}

#[test]
fn language_code_from_string_falls_back_to_english() {
    assert_eq!(LanguageCode::from_string("en"), LanguageCode::English);
    assert_eq!(LanguageCode::from_string(""), LanguageCode::English);
    assert_eq!(LanguageCode::from_string("fr"), LanguageCode::English);
    assert_eq!(LanguageCode::from_string("zh_cn"), LanguageCode::English);
}

#[test]
fn language_code_from_lowercase_is_exact() {
    assert_eq!(LanguageCode::from_lowercase("zh-cn"), LanguageCode::Chinese);
    assert_eq!(LanguageCode::from_lowercase("ZH"), LanguageCode::English);
    assert_eq!(LanguageCode::from_lowercase("chinese"), LanguageCode::Chinese);
}

#[test]
fn language_code_default_is_english() {
    assert_eq!(LanguageCode::default(), LanguageCode::English);
}

#[test]
fn app_config_default() {
    let config = AppConfig::default();
    assert_eq!(config.thumbnail_strategy, ThumbnailStrategy::OnlyLoadVisible);
    assert_eq!(config.thumbnail_background, ThumbnailBackground::Transparent);
    assert_eq!(config.language, LanguageCode::English);
}

#[test]
fn str_equal_compares_contents() {
    assert!(str_equal("abc", "abc"));
    assert!(!str_equal("abc", "abd"));
    assert!(!str_equal("abc", "ab"));
    assert!(str_equal("", ""));
}

#[test]
fn language_from_code_is_case_sensitive() {
    assert_eq!(Language::from_code("zh"), Language::Chinese);
    assert_eq!(Language::from_code("zh-CN"), Language::Chinese);
    assert_eq!(Language::from_code("chinese"), Language::Chinese);
    assert_eq!(Language::from_code("zh-cn"), Language::English);
    assert_eq!(Language::from_code("ZH"), Language::English);
    assert_eq!(Language::from_code("en"), Language::English);
    assert_eq!(Language::from_code(""), Language::English);
}

#[test]
fn language_codes_names_and_files() {
    assert_eq!(Language::English.to_code(), "en");
    assert_eq!(Language::Chinese.to_code(), "zh");
    assert_eq!(Language::English.display_name(), "English");
    assert_eq!(Language::Chinese.display_name(), "中文");
    assert_eq!(Language::English.file_name(), "en.lang");
    assert_eq!(Language::Chinese.file_name(), "zh.lang");
}

#[test]
fn language_code_round_trip() {
    assert_eq!(Language::from_code(Language::English.to_code()), Language::English);
    assert_eq!(Language::from_code(Language::Chinese.to_code()), Language::Chinese);
}

#[test]
fn only_loading_everything_needs_confirmation() {
    assert!(ThumbnailStrategy::DefaultTopToBottom.needs_confirmation());
    assert!(!ThumbnailStrategy::OnlyLoadVisible.needs_confirmation());
    assert!(!ThumbnailStrategy::LoadVisiblePlus500.needs_confirmation());
}
