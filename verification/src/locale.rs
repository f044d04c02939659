//! The language that the host system suggests.

use crate::config::is_language;
use crate::text::{has_prefix, starts_with};
use vstd::prelude::*;

verus! {

/// The locale that is assumed where the system names none.
pub open spec fn fallback_locale() -> Seq<char> {
    "en-US"@
}

/// The lower-case form of a text, as `str::to_lowercase` gives it.
pub uninterp spec fn lowercased(text: Seq<char>) -> Seq<char>;

/// The language for a system locale: Chinese where the locale's tag, in lower case,
/// starts with `zh`; English for every other locale and where there is none.
pub open spec fn language_for_locale(locale: Option<Seq<char>>) -> Seq<char> {
    let tag = match locale {
        Some(tag) => tag,
        None => fallback_locale(),
    };
    if has_prefix(lowercased(tag), "zh"@) {
        "zh-CN"@
    } else {
        "en"@
    }
}

/// The language for a Windows language identifier: Chinese where its primary language,
/// the low ten bits, is 4; English otherwise.
pub open spec fn language_for_lang_id(lang_id: u16) -> Seq<char> {
    if lang_id & 0x03ff == 0x04 {
        "zh-CN"@
    } else {
        "en"@
    }
}

/// `sys_locale::get_locale`: the system's preferred locale as a BCP 47 tag, or `None`
/// where it cannot be had. It depends on the machine, so nothing is claimed of it.
#[verifier::external_body]
fn system_locale() -> (locale: Option<String>) {
    sys_locale::get_locale()
}

/// `str::to_lowercase`: the text in lower case.
#[verifier::external_body]
fn to_lowercase(text: &str) -> (lower: String)
    ensures
        lower@ == lowercased(text@),
{
    text.to_lowercase()
}

/// Whether a locale tag that is already in lower case names Chinese.
pub fn is_chinese_tag(lower: &str) -> (chinese: bool)
    ensures
        chinese == has_prefix(lower@, "zh"@),
{
    starts_with(lower, "zh")
}

/// The interface language for the locale that the system reports.
pub fn language_of_locale(locale: Option<String>) -> (language: String)
    ensures
        language@ == language_for_locale(
            match locale {
                Some(tag) => Some(tag@),
                None => None,
            },
        ),
        is_language(language@),
{
    let lower = match locale {
        Some(tag) => to_lowercase(tag.as_str()),
        None => to_lowercase("en-US"),
    };
    if is_chinese_tag(lower.as_str()) {
        "zh-CN".to_owned()
    } else {
        "en".to_owned()
    }
}

/// The interface language for the language identifier that Windows reports.
pub fn language_of_lang_id(lang_id: u16) -> (language: String)
    ensures
        language@ == language_for_lang_id(lang_id),
        is_language(language@),
{
    if lang_id & 0x03ff == 0x04 {
        "zh-CN".to_owned()
    } else {
        "en".to_owned()
    }
}

/// The interface language that the host system suggests: the language for the locale
/// that the system reports, whichever that is.
pub fn get_system_language() -> (language: String)
    ensures
        is_language(language@),
        exists|locale: Option<Seq<char>>| language@ == #[trigger] language_for_locale(locale),
{
    language_of_locale(system_locale())
}

} // verus!
