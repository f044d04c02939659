//! Configuration values and their normalisation.
//!
//! A configuration document may hold anything; whatever is not an allowed
//! value is replaced by its default, so that a configuration always loads.

use crate::text::str_eq;
use vstd::prelude::*;

verus! {

/// Reminder interval used when the configured one is not allowed.
pub const DEFAULT_INTERVAL_MINUTES: u64 = 50;

/// Whether `minutes` is one of the selectable reminder intervals.
pub open spec fn is_allowed_interval(minutes: int) -> bool {
    minutes == 5 || minutes == 10 || minutes == 20 || minutes == 30 || minutes == 50
}

/// The interval that takes the place of `minutes`: itself when allowed, the default otherwise.
pub open spec fn sanitized_interval(minutes: int) -> int {
    if is_allowed_interval(minutes) {
        minutes
    } else {
        DEFAULT_INTERVAL_MINUTES as int
    }
}

/// The language that takes the place of `language`: Chinese when asked for by its tag,
/// English for anything else.
pub open spec fn normalized_language(language: Seq<char>) -> Seq<char> {
    if language == "zh-CN"@ {
        "zh-CN"@
    } else {
        "en"@
    }
}

/// The theme that takes the place of `theme`: day when asked for, night for anything else.
pub open spec fn normalized_theme(theme: Seq<char>) -> Seq<char> {
    if theme == "day"@ {
        "day"@
    } else {
        "night"@
    }
}

/// Whether `language` is one of the two supported language tags.
pub open spec fn is_language(language: Seq<char>) -> bool {
    language == "en"@ || language == "zh-CN"@
}

/// Whether `theme` is one of the two themes.
pub open spec fn is_theme(theme: Seq<char>) -> bool {
    theme == "day"@ || theme == "night"@
}

/// Replaces an interval outside the allowed set by the default.
pub fn sanitize_interval_minutes(value: u64) -> (minutes: u64)
    ensures
        minutes == sanitized_interval(value as int),
        is_allowed_interval(minutes as int),
{
    if value == 5 || value == 10 || value == 20 || value == 30 || value == 50 {
        value
    } else {
        DEFAULT_INTERVAL_MINUTES
    }
}

/// The interface language of a fresh installation.
pub fn default_language() -> (language: String)
    ensures
        language@ == "en"@,
{
    "en".to_owned()
}

/// The language of the reminder texts of a fresh installation.
pub fn default_reminder_language() -> (language: String)
    ensures
        language@ == "en"@,
{
    "en".to_owned()
}

/// The theme of a fresh installation.
pub fn default_theme() -> (theme: String)
    ensures
        theme@ == "night"@,
{
    "night".to_owned()
}

/// Maps any text to a supported language tag.
pub fn normalize_language(language: &str) -> (normalized: String)
    ensures
        normalized@ == normalized_language(language@),
        is_language(normalized@),
{
    if str_eq(language, "zh-CN") {
        "zh-CN".to_owned()
    } else {
        "en".to_owned()
    }
}

/// Maps any text to a theme.
pub fn normalize_theme(theme: &str) -> (normalized: String)
    ensures
        normalized@ == normalized_theme(theme@),
        is_theme(normalized@),
{
    if str_eq(theme, "day") {
        "day".to_owned()
    } else {
        "night".to_owned()
    }
}

/// Picks the Chinese or the English wording of a label by the language tag.
pub fn tray_label(lang: &str, en: &str, zh: &str) -> (label: String)
    ensures
        label@ == if lang@ == "zh-CN"@ {
            zh@
        } else {
            en@
        },
{
    if str_eq(lang, "zh-CN") {
        zh.to_owned()
    } else {
        en.to_owned()
    }
}

/// A configuration document as it is stored: nothing in it is checked yet.
pub struct AppConfigFile {
    pub interval_minutes: u64,
    pub language: String,
    pub reminder_language: String,
    pub theme: String,
}

/// What an [`AppConfigFile`] holds, as plain values.
pub struct ConfigView {
    pub interval_minutes: int,
    pub language: Seq<char>,
    pub reminder_language: Seq<char>,
    pub theme: Seq<char>,
}

impl View for AppConfigFile {
    type V = ConfigView;

    open spec fn view(&self) -> ConfigView {
        ConfigView {
            interval_minutes: self.interval_minutes as int,
            language: self.language@,
            reminder_language: self.reminder_language@,
            theme: self.theme@,
        }
    }
}

impl ConfigView {
    /// The configuration of a fresh installation.
    pub open spec fn defaults() -> ConfigView {
        ConfigView {
            interval_minutes: DEFAULT_INTERVAL_MINUTES as int,
            language: "en"@,
            reminder_language: "en"@,
            theme: "night"@,
        }
    }

    /// Every field holds an allowed value.
    pub open spec fn is_valid(self) -> bool {
        &&& is_allowed_interval(self.interval_minutes)
        &&& is_language(self.language)
        &&& is_language(self.reminder_language)
        &&& is_theme(self.theme)
    }

    /// The configuration with every field replaced by its normal form.
    pub open spec fn normalized(self) -> ConfigView {
        ConfigView {
            interval_minutes: sanitized_interval(self.interval_minutes),
            language: normalized_language(self.language),
            reminder_language: normalized_language(self.reminder_language),
            theme: normalized_theme(self.theme),
        }
    }

    /// The document that is loaded: the primary one if it could be read, else the one of
    /// the former installation, else the defaults.
    pub open spec fn chosen(primary: Option<ConfigView>, legacy: Option<ConfigView>) -> ConfigView {
        match primary {
            Some(cfg) => cfg,
            None => match legacy {
                Some(cfg) => cfg,
                None => ConfigView::defaults(),
            },
        }
    }
}

/// The view of a document that may be missing.
pub open spec fn config_view_of(cfg: Option<AppConfigFile>) -> Option<ConfigView> {
    match cfg {
        Some(c) => Some(c@),
        None => None,
    }
}

impl AppConfigFile {
    /// The configuration of a fresh installation.
    pub fn defaults() -> (cfg: AppConfigFile)
        ensures
            cfg@ == ConfigView::defaults(),
    {
        AppConfigFile {
            interval_minutes: DEFAULT_INTERVAL_MINUTES,
            language: default_language(),
            reminder_language: default_reminder_language(),
            theme: default_theme(),
        }
    }

    /// Normalises every field; the result is always valid, and a valid document is unchanged.
    pub fn normalize(&self) -> (cfg: AppConfigFile)
        ensures
            cfg@ == self@.normalized(),
            cfg@.is_valid(),
    {
        AppConfigFile {
            interval_minutes: sanitize_interval_minutes(self.interval_minutes),
            language: normalize_language(self.language.as_str()),
            reminder_language: normalize_language(self.reminder_language.as_str()),
            theme: normalize_theme(self.theme.as_str()),
        }
    }
}

/// Chooses the configuration document to load.
///
/// `primary` is the document at the current location and `legacy` the one of the former
/// installation; each is `None` when it is missing or cannot be parsed.
pub fn read_config(primary: Option<AppConfigFile>, legacy: Option<AppConfigFile>) -> (cfg:
    AppConfigFile)
    ensures
        cfg@ == ConfigView::chosen(config_view_of(primary), config_view_of(legacy)),
{
    match primary {
        Some(cfg) => cfg,
        None => match legacy {
            Some(cfg) => cfg,
            None => AppConfigFile::defaults(),
        },
    }
}

/// Normalising is idempotent: a normalised configuration is valid and normalises to itself.
pub proof fn lemma_normalized_is_fixed_point(cfg: ConfigView)
    ensures
        cfg.normalized().is_valid(),
        cfg.normalized().normalized() == cfg.normalized(),
        cfg.is_valid() ==> cfg.normalized() == cfg,
{
    reveal_strlit("en");
    reveal_strlit("zh-CN");
    reveal_strlit("day");
    reveal_strlit("night");
}

} // verus!
