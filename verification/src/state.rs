//! The runtime state: countdown, settings, event log and the reminder session.

use crate::config::{
    is_allowed_interval, is_language, is_theme, AppConfigFile, ConfigView, DEFAULT_INTERVAL_MINUTES,
};
use crate::events::ReminderRecord;
use vstd::prelude::*;

verus! {

/// Everything the reminder keeps while it runs.
///
/// Times come in two kinds: `*_ts` fields are wall-clock seconds since the Unix epoch,
/// `last_interval_change` and `active_reminder_shown_at` are readings of a monotonic
/// clock in nanoseconds.
pub struct AppState {
    /// The reminder interval, in seconds.
    pub interval: u64,
    /// Seconds sat since the countdown was last reset.
    pub elapsed: u64,
    /// When the interval was last set.
    pub last_interval_change: u64,
    pub reminder_events: Vec<ReminderRecord>,
    pub standup_events: Vec<i64>,
    /// Whether a reminder is on screen and waits for an answer.
    pub reminder_visible: bool,
    pub language: String,
    pub reminder_language: String,
    pub theme: String,
    /// The prompt that was shown last.
    pub last_tip_index: Option<usize>,
    /// Number of the current reminder session; it only grows.
    pub active_reminder_id: u64,
    pub active_reminder_start_ts: Option<i64>,
    pub active_reminder_shown_at: Option<u64>,
    /// The interval that was in force when the session began.
    pub active_reminder_interval_secs: u64,
    /// Whether the session's sedentary record has been written.
    pub active_reminder_logged_sedentary: bool,
    pub active_reminder_tip: String,
}

/// The state as plain values.
pub struct StateView {
    pub interval: nat,
    pub elapsed: nat,
    pub last_interval_change: nat,
    pub reminder_events: Seq<ReminderRecord>,
    pub standup_events: Seq<i64>,
    pub reminder_visible: bool,
    pub language: Seq<char>,
    pub reminder_language: Seq<char>,
    pub theme: Seq<char>,
    pub last_tip_index: Option<usize>,
    pub active_reminder_id: nat,
    pub active_reminder_start_ts: Option<i64>,
    pub active_reminder_shown_at: Option<u64>,
    pub active_reminder_interval_secs: u64,
    pub active_reminder_logged_sedentary: bool,
    pub active_reminder_tip: Seq<char>,
}

impl View for AppState {
    type V = StateView;

    open spec fn view(&self) -> StateView {
        StateView {
            interval: self.interval as nat,
            elapsed: self.elapsed as nat,
            last_interval_change: self.last_interval_change as nat,
            reminder_events: self.reminder_events@,
            standup_events: self.standup_events@,
            reminder_visible: self.reminder_visible,
            language: self.language@,
            reminder_language: self.reminder_language@,
            theme: self.theme@,
            last_tip_index: self.last_tip_index,
            active_reminder_id: self.active_reminder_id as nat,
            active_reminder_start_ts: self.active_reminder_start_ts,
            active_reminder_shown_at: self.active_reminder_shown_at,
            active_reminder_interval_secs: self.active_reminder_interval_secs,
            active_reminder_logged_sedentary: self.active_reminder_logged_sedentary,
            active_reminder_tip: self.active_reminder_tip@,
        }
    }
}

/// The longest countdown there is, in seconds.
pub open spec fn longest_interval_secs() -> nat {
    (DEFAULT_INTERVAL_MINUTES * 60) as nat
}

impl StateView {
    /// The state of a fresh start: idle, nothing counted, nothing logged, default settings.
    pub open spec fn initial() -> StateView {
        StateView {
            interval: (DEFAULT_INTERVAL_MINUTES * 60) as nat,
            elapsed: 0,
            last_interval_change: 0,
            reminder_events: Seq::empty(),
            standup_events: Seq::empty(),
            reminder_visible: false,
            language: "en"@,
            reminder_language: "en"@,
            theme: "night"@,
            last_tip_index: None,
            active_reminder_id: 0,
            active_reminder_start_ts: None,
            active_reminder_shown_at: None,
            active_reminder_interval_secs: (DEFAULT_INTERVAL_MINUTES * 60) as u64,
            active_reminder_logged_sedentary: false,
            active_reminder_tip: "Time to stand up and stretch."@,
        }
    }

    /// The settings hold allowed values and the countdown is below the longest interval.
    pub open spec fn wf(self) -> bool {
        &&& self.interval % 60 == 0
        &&& is_allowed_interval(self.interval as int / 60)
        &&& self.elapsed < longest_interval_secs()
        &&& is_language(self.language)
        &&& is_language(self.reminder_language)
        &&& is_theme(self.theme)
    }

    /// The settings as they are written to the configuration document.
    pub open spec fn config(self) -> ConfigView {
        ConfigView {
            interval_minutes: self.interval as int / 60,
            language: self.language,
            reminder_language: self.reminder_language,
            theme: self.theme,
        }
    }

    /// The state with the settings of `cfg`, normalised, in place of its own.
    pub open spec fn with_config(self, cfg: ConfigView) -> StateView {
        StateView {
            interval: (cfg.normalized().interval_minutes * 60) as nat,
            language: cfg.normalized().language,
            reminder_language: cfg.normalized().reminder_language,
            theme: cfg.normalized().theme,
            ..self
        }
    }
}

impl AppState {
    /// The state of a fresh start.
    pub fn new() -> (state: AppState)
        ensures
            state@ == StateView::initial(),
            state@.wf(),
    {
        AppState {
            interval: DEFAULT_INTERVAL_MINUTES * 60,
            elapsed: 0,
            last_interval_change: 0,
            reminder_events: Vec::new(),
            standup_events: Vec::new(),
            reminder_visible: false,
            language: "en".to_owned(),
            reminder_language: "en".to_owned(),
            theme: "night".to_owned(),
            last_tip_index: None,
            active_reminder_id: 0,
            active_reminder_start_ts: None,
            active_reminder_shown_at: None,
            active_reminder_interval_secs: DEFAULT_INTERVAL_MINUTES * 60,
            active_reminder_logged_sedentary: false,
            active_reminder_tip: "Time to stand up and stretch.".to_owned(),
        }
    }
}

/// Takes over a configuration document: every field is normalised on the way in.
///
/// Returns the normalised document, which is what gets written back to storage.
pub fn load_config(state: &mut AppState, cfg: &AppConfigFile) -> (normalized: AppConfigFile)
    ensures
        final(state)@ == old(state)@.with_config(cfg@),
        normalized@ == cfg@.normalized(),
        normalized@.is_valid(),
        old(state)@.elapsed < longest_interval_secs() ==> final(state)@.wf(),
{
    let normalized = cfg.normalize();
    state.interval = normalized.interval_minutes * 60;
    state.language = normalized.language.clone();
    state.reminder_language = normalized.reminder_language.clone();
    state.theme = normalized.theme.clone();
    normalized
}

/// The settings as they are written to the configuration document.
pub fn save_config(state: &AppState) -> (cfg: AppConfigFile)
    ensures
        cfg@ == state@.config(),
{
    AppConfigFile {
        interval_minutes: state.interval / 60,
        language: state.language.clone(),
        reminder_language: state.reminder_language.clone(),
        theme: state.theme.clone(),
    }
}

} // verus!
