//! User-selectable settings: thumbnail loading strategy, thumbnail
//! background, and interface language.

use vstd::prelude::*;

verus! {

/// Policy selecting which list indices should have thumbnails loading.
#[derive(Debug, Clone, Copy, PartialEq, Eq, Structural)]
pub enum ThumbnailStrategy {
    /// Every item, from the first to the last.
    DefaultTopToBottom,
    /// Only the items inside the visible window.
    OnlyLoadVisible,
    /// The visible window and the 500 items after it.
    LoadVisiblePlus500,
}

impl Default for ThumbnailStrategy {
    fn default() -> (strategy: Self)
        ensures
            strategy == ThumbnailStrategy::OnlyLoadVisible,
    {
        ThumbnailStrategy::OnlyLoadVisible
    }
}

impl ThumbnailStrategy {
    /// Whether the user is asked before this strategy is used: loading
    /// every thumbnail floods the worker pool.
    pub fn needs_confirmation(self) -> (ask: bool)
        ensures
            ask == (self == ThumbnailStrategy::DefaultTopToBottom),
    {
        match self {
            ThumbnailStrategy::DefaultTopToBottom => true,
            _ => false,
        }
    }

    /// The English label of this strategy.
    pub open spec fn spec_display_name(self) -> Seq<char> {
        match self {
            ThumbnailStrategy::DefaultTopToBottom => "Default (Top-to-Bottom)"@,
            ThumbnailStrategy::OnlyLoadVisible => "Only Load Visible Thumbnails"@,
            ThumbnailStrategy::LoadVisiblePlus500 => "Load Visible + Next 500"@,
        }
    }

    pub fn display_name(self) -> (name: &'static str)
        ensures
            name@ == self.spec_display_name(),
    {
        match self {
            ThumbnailStrategy::DefaultTopToBottom => "Default (Top-to-Bottom)",
            ThumbnailStrategy::OnlyLoadVisible => "Only Load Visible Thumbnails",
            ThumbnailStrategy::LoadVisiblePlus500 => "Load Visible + Next 500",
        }
    }
}

/// What is painted behind a thumbnail.
#[derive(Debug, Clone, Copy, PartialEq, Eq, Structural)]
pub enum ThumbnailBackground {
    Transparent,
    Checkerboard,
    Black,
    White,
    Gray,
    LightGray,
    DarkGray,
}

impl Default for ThumbnailBackground {
    fn default() -> (background: Self)
        ensures
            background == ThumbnailBackground::Transparent,
    {
        ThumbnailBackground::Transparent
    }
}

impl ThumbnailBackground {
    /// The fill colour as `0x00BBGGRR`. Transparent and checkerboard have no
    /// single colour and map to zero, as black does.
    pub open spec fn spec_color_ref(self) -> u32 {
        match self {
            ThumbnailBackground::Transparent => 0x0000_0000u32,
            ThumbnailBackground::Checkerboard => 0x0000_0000u32,
            ThumbnailBackground::Black => 0x0000_0000u32,
            ThumbnailBackground::White => 0x00FF_FFFFu32,
            ThumbnailBackground::Gray => 0x0080_8080u32,
            ThumbnailBackground::LightGray => 0x00C0_C0C0u32,
            ThumbnailBackground::DarkGray => 0x0040_4040u32,
        }
    }

    pub fn to_color_ref(self) -> (color: u32)
        ensures
            color == self.spec_color_ref(),
    {
        match self {
            ThumbnailBackground::Transparent => 0x0000_0000,
            ThumbnailBackground::Checkerboard => 0x0000_0000,
            ThumbnailBackground::Black => 0x0000_0000,
            ThumbnailBackground::White => 0x00FF_FFFF,
            ThumbnailBackground::Gray => 0x0080_8080,
            ThumbnailBackground::LightGray => 0x00C0_C0C0,
            ThumbnailBackground::DarkGray => 0x0040_4040,
        }
    }

    /// The English label of this background.
    pub open spec fn spec_display_name(self) -> Seq<char> {
        match self {
            ThumbnailBackground::Transparent => "Transparent"@,
            ThumbnailBackground::Checkerboard => "Checkerboard"@,
            ThumbnailBackground::Black => "Black"@,
            ThumbnailBackground::White => "White"@,
            ThumbnailBackground::Gray => "Gray"@,
            ThumbnailBackground::LightGray => "Light Gray"@,
            ThumbnailBackground::DarkGray => "Dark Gray"@,
        }
    }

    pub fn display_name(self) -> (name: &'static str)
        ensures
            name@ == self.spec_display_name(),
    {
        match self {
            ThumbnailBackground::Transparent => "Transparent",
            ThumbnailBackground::Checkerboard => "Checkerboard",
            ThumbnailBackground::Black => "Black",
            ThumbnailBackground::White => "White",
            ThumbnailBackground::Gray => "Gray",
            ThumbnailBackground::LightGray => "Light Gray",
            ThumbnailBackground::DarkGray => "Dark Gray",
        }
    }
}

/// Interface language as it is persisted.
#[derive(Debug, Clone, Copy, PartialEq, Eq, Structural)]
pub enum LanguageCode {
    English,
    Chinese,
}

impl Default for LanguageCode {
    fn default() -> (code: Self)
        ensures
            code == LanguageCode::English,
    {
        LanguageCode::English
    }
}

/// The lowercase form of a text as `str::to_lowercase` computes it.
pub uninterp spec fn lowercase_of(text: Seq<char>) -> Seq<char>;

/// Calls `str::to_lowercase`. The result is the lowercase form of the
/// argument, which depends on the argument alone.
#[verifier::external_body]
pub(crate) fn lowercase(text: &str) -> (lower: String)
    ensures
        lower@ == lowercase_of(text@),
{
    text.to_lowercase()
}

impl LanguageCode {
    /// The two-letter code of this language.
    pub open spec fn spec_code(self) -> Seq<char> {
        match self {
            LanguageCode::English => "en"@,
            LanguageCode::Chinese => "zh"@,
        }
    }

    pub fn to_string(&self) -> (code: String)
        ensures
            code@ == self.spec_code(),
    {
        match self {
            LanguageCode::English => "en".to_owned(),
            LanguageCode::Chinese => "zh".to_owned(),
        }
    }

    /// The language that an already lowercased name stands for: Chinese for
    /// `zh`, `zh-cn` and `chinese`, English for everything else.
    pub open spec fn spec_from_lowercase(lower: Seq<char>) -> LanguageCode {
        if lower == "zh"@ || lower == "zh-cn"@ || lower == "chinese"@ {
            LanguageCode::Chinese
        } else {
            LanguageCode::English
        }
    }

    /// Decodes a name that is already in lowercase.
    pub fn from_lowercase(lower: &str) -> (code: Self)
        ensures
            code == Self::spec_from_lowercase(lower@),
    {
        if str_equal(lower, "zh") || str_equal(lower, "zh-cn") || str_equal(lower, "chinese") {
            LanguageCode::Chinese
        } else {
            LanguageCode::English
        }
    }

    /// Decodes a name regardless of letter case.
    pub fn from_string(s: &str) -> (code: Self)
        ensures
            code == Self::spec_from_lowercase(lowercase_of(s@)),
    {
        let lower = lowercase(s);
        Self::from_lowercase(lower.as_str())
    }
}

/// Whether two texts hold the same characters.
pub fn str_equal(a: &str, b: &str) -> (same: bool)
    ensures
        same == (a@ == b@),
{
    let left = a.to_owned();
    let right = b.to_owned();
    left == right
}

/// The persisted choices of the user.
#[derive(Debug, Clone, Copy, PartialEq, Eq, Structural)]
pub struct AppConfig {
    pub thumbnail_strategy: ThumbnailStrategy,
    pub thumbnail_background: ThumbnailBackground,
    pub language: LanguageCode,
}

impl Default for AppConfig {
    fn default() -> (config: Self)
        ensures
            config.thumbnail_strategy == ThumbnailStrategy::OnlyLoadVisible,
            config.thumbnail_background == ThumbnailBackground::Transparent,
            config.language == LanguageCode::English,
    {
        AppConfig {
            thumbnail_strategy: ThumbnailStrategy::OnlyLoadVisible,
            thumbnail_background: ThumbnailBackground::Transparent,
            language: LanguageCode::English,
        }
    }
}

} // verus!
