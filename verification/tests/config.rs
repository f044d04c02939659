use standby::commands::{
    get_active_reminder, get_language, get_reminder_interval, get_reminder_language, get_theme,
    set_language, set_reminder_interval, set_reminder_language, set_theme,
};
use standby::config::{
    default_language, default_reminder_language, default_theme, normalize_language,
    normalize_theme, read_config, sanitize_interval_minutes, tray_label, AppConfigFile,
    DEFAULT_INTERVAL_MINUTES,
};
use standby::state::{load_config, save_config, AppState};

fn document(minutes: u64, language: &str, reminder_language: &str, theme: &str) -> AppConfigFile {
    AppConfigFile {
        interval_minutes: minutes,
        language: language.to_string(),
        reminder_language: reminder_language.to_string(),
        theme: theme.to_string(),
    }
}

#[test]
fn allowed_intervals_stay() {
    for minutes in [5u64, 10, 20, 30, 50] {
        assert_eq!(sanitize_interval_minutes(minutes), minutes);
    }
}

#[test]
fn other_intervals_become_fifty() {
    assert_eq!(DEFAULT_INTERVAL_MINUTES, 50);
    for minutes in [0u64, 1, 4, 6, 15, 25, 49, 51, 60, 300, u64::MAX] {
        assert_eq!(sanitize_interval_minutes(minutes), 50);
    }
}

#[test]
fn defaults_are_english_and_night() {
    assert_eq!(default_language(), "en");
    assert_eq!(default_reminder_language(), "en");
    assert_eq!(default_theme(), "night");
}

#[test]
fn theme_is_day_only_when_asked_for() {
    assert_eq!(normalize_theme("day"), "day");
    assert_eq!(normalize_theme("night"), "night");
    assert_eq!(normalize_theme("Day"), "night");
    assert_eq!(normalize_theme(""), "night");
    assert_eq!(normalize_theme("days"), "night");
    assert_eq!(normalize_theme("da"), "night");
    assert_eq!(normalize_theme("dax"), "night");
}

#[test]
fn language_is_chinese_only_by_its_tag() {
    assert_eq!(normalize_language("zh-CN"), "zh-CN");
    assert_eq!(normalize_language("en"), "en");
    assert_eq!(normalize_language("zh-cn"), "en");
    assert_eq!(normalize_language("zh"), "en");
    assert_eq!(normalize_language("fr"), "en");
    assert_eq!(normalize_language(""), "en");
}

#[test]
fn tray_label_follows_the_language() {
    assert_eq!(tray_label("zh-CN", "Quit", "退出"), "退出");
    assert_eq!(tray_label("en", "Quit", "退出"), "Quit");
    assert_eq!(tray_label("zh", "Open Settings", "打开设置"), "Open Settings");
    assert_eq!(tray_label("", "Open Settings", "打开设置"), "Open Settings");
}

#[test]
fn primary_document_wins() {
    let cfg = read_config(Some(document(10, "zh-CN", "en", "day")), Some(document(20, "en", "en", "night")));
    assert_eq!(cfg.interval_minutes, 10);
    assert_eq!(cfg.language, "zh-CN");
    assert_eq!(cfg.theme, "day");
}

#[test]
fn legacy_document_is_the_fallback() {
    let cfg = read_config(None, Some(document(20, "fr", "zh-CN", "dusk")));
    assert_eq!(cfg.interval_minutes, 20);
    assert_eq!(cfg.language, "fr");
    assert_eq!(cfg.reminder_language, "zh-CN");
    assert_eq!(cfg.theme, "dusk");
}

#[test]
fn missing_documents_give_the_defaults() {
    let cfg = read_config(None, None);
    assert_eq!(cfg.interval_minutes, 50);
    assert_eq!(cfg.language, "en");
    assert_eq!(cfg.reminder_language, "en");
    assert_eq!(cfg.theme, "night");
}

#[test]
fn normalizing_heals_every_field() {
    let cfg = document(7, "de", "zh-CN", "dark").normalize();
    assert_eq!(cfg.interval_minutes, 50);
    assert_eq!(cfg.language, "en");
    assert_eq!(cfg.reminder_language, "zh-CN");
    assert_eq!(cfg.theme, "night");
    let again = cfg.normalize();
    assert_eq!(again.interval_minutes, 50);
    assert_eq!(again.language, "en");
    assert_eq!(again.reminder_language, "zh-CN");
    assert_eq!(again.theme, "night");
}

#[test]
fn loading_sets_the_state_and_returns_what_to_store() {
    let mut state = AppState::new();
    state.elapsed = 120;
    let stored = load_config(&mut state, &document(20, "zh-CN", "xx", "day"));
    assert_eq!(state.interval, 1200);
    assert_eq!(state.language, "zh-CN");
    assert_eq!(state.reminder_language, "en");
    assert_eq!(state.theme, "day");
    assert_eq!(state.elapsed, 120);
    assert_eq!(stored.interval_minutes, 20);
    assert_eq!(stored.language, "zh-CN");
    assert_eq!(stored.reminder_language, "en");
    assert_eq!(stored.theme, "day");
    let saved = save_config(&state);
    assert_eq!(saved.interval_minutes, 20);
    assert_eq!(saved.language, "zh-CN");
    assert_eq!(saved.reminder_language, "en");
    assert_eq!(saved.theme, "day");
}

#[test]
fn loading_a_bad_interval_gives_fifty_minutes() {
    let mut state = AppState::new();
    state.interval = 300;
    load_config(&mut state, &document(45, "en", "en", "night"));
    assert_eq!(state.interval, 3000);
}

#[test]
fn setting_the_interval_resets_the_countdown() {
    let mut state = AppState::new();
    state.elapsed = 1234;
    let message = set_reminder_interval(&mut state, 10, 77);
    assert_eq!(message, "Interval set to 10 minutes");
    assert_eq!(state.interval, 600);
    assert_eq!(state.elapsed, 0);
    assert_eq!(state.last_interval_change, 77);
    assert_eq!(get_reminder_interval(&state), 10);
}

#[test]
fn setting_an_interval_that_is_not_allowed_sets_fifty() {
    for minutes in [0u64, 7, 45, 55, 1000, u64::MAX] {
        let mut state = AppState::new();
        state.interval = 300;
        let message = set_reminder_interval(&mut state, minutes, 1);
        assert_eq!(message, "Interval set to 50 minutes");
        assert_eq!(state.interval, 3000);
        assert_eq!(get_reminder_interval(&state), 50);
    }
}

#[test]
fn languages_and_theme_are_normalized_when_set() {
    let mut state = AppState::new();
    assert_eq!(set_language(&mut state, "zh-CN"), "zh-CN");
    assert_eq!(get_language(&state), "zh-CN");
    assert_eq!(set_language(&mut state, "ja"), "en");
    assert_eq!(get_language(&state), "en");
    assert_eq!(set_reminder_language(&mut state, "zh-CN"), "zh-CN");
    assert_eq!(get_reminder_language(&state), "zh-CN");
    assert_eq!(get_language(&state), "en");
    assert_eq!(set_reminder_language(&mut state, "zh_CN"), "en");
    assert_eq!(set_theme(&mut state, "day"), "day");
    assert_eq!(get_theme(&state), "day");
    assert_eq!(set_theme(&mut state, "light"), "night");
    assert_eq!(get_theme(&state), "night");
}

#[test]
fn active_reminder_is_a_snapshot_of_the_state() {
    let mut state = AppState::new();
    let payload = get_active_reminder(&state);
    assert_eq!(payload.id, 0);
    assert_eq!(payload.text, "Time to stand up and stretch.");
    assert_eq!(payload.theme, "night");
    assert!(!payload.visible);
    state.active_reminder_id = 9;
    state.reminder_visible = true;
    state.active_reminder_tip = "Move!".to_string();
    set_theme(&mut state, "day");
    let payload = get_active_reminder(&state);
    assert_eq!(payload.id, 9);
    assert_eq!(payload.text, "Move!");
    assert_eq!(payload.theme, "day");
    assert!(payload.visible);
}
