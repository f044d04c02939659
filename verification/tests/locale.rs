use standby::locale::{get_system_language, is_chinese_tag, language_of_lang_id, language_of_locale};

#[test]
fn chinese_locales_give_chinese() {
    assert_eq!(language_of_locale(Some("zh-CN".to_string())), "zh-CN");
    assert_eq!(language_of_locale(Some("zh-Hans-CN".to_string())), "zh-CN");
    assert_eq!(language_of_locale(Some("zh".to_string())), "zh-CN");
    assert_eq!(language_of_locale(Some("zh_TW".to_string())), "zh-CN");
}

#[test]
fn locale_is_compared_in_lower_case() {
    assert_eq!(language_of_locale(Some("ZH-TW".to_string())), "zh-CN");
    assert_eq!(language_of_locale(Some("Zh-hk".to_string())), "zh-CN");
    assert_eq!(language_of_locale(Some("zH".to_string())), "zh-CN");
}

#[test]
fn other_locales_give_english() {
    assert_eq!(language_of_locale(Some("en-US".to_string())), "en");
    assert_eq!(language_of_locale(Some("fr-FR".to_string())), "en");
    assert_eq!(language_of_locale(Some("z".to_string())), "en");
    assert_eq!(language_of_locale(Some("".to_string())), "en");
    assert_eq!(language_of_locale(Some("en-zh".to_string())), "en");
    assert_eq!(language_of_locale(None), "en");
}

#[test]
fn lower_case_tag_names_chinese_by_its_start() {
    assert!(is_chinese_tag("zh-cn"));
    assert!(!is_chinese_tag("ZH-CN"));
    assert!(!is_chinese_tag("en"));
}

#[test]
fn primary_language_four_is_chinese() {
    assert_eq!(language_of_lang_id(0x0804), "zh-CN");
    assert_eq!(language_of_lang_id(0x0404), "zh-CN");
    assert_eq!(language_of_lang_id(0x0004), "zh-CN");
    assert_eq!(language_of_lang_id(0x7c04), "zh-CN");
    assert_eq!(language_of_lang_id(0x0409), "en");
    assert_eq!(language_of_lang_id(0x0411), "en");
    assert_eq!(language_of_lang_id(0), "en");
    assert_eq!(language_of_lang_id(0x0c04), "zh-CN");
    assert_eq!(language_of_lang_id(0x0005), "en");
}

#[test]
fn system_language_is_one_of_the_two() {
    let language = get_system_language();
    assert!(language == "en" || language == "zh-CN");
}
