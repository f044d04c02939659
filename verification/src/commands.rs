//! The operations that the user interface calls on the state: settings, prompts and
//! the reminder on screen.

use crate::config::{
    is_allowed_interval, normalize_language, normalize_theme, normalized_language,
    normalized_theme, sanitize_interval_minutes, sanitized_interval, DEFAULT_INTERVAL_MINUTES,
};
use crate::state::{AppState, StateView};
use crate::text::{decimal_digits, push_decimal};
use crate::tips::{next_tip_index, reminder_tip, tip_text, REMINDER_PROMPT_COUNT};
use vstd::prelude::*;

verus! {

/// What the reminder window shows.
pub struct ActiveReminderPayload {
    pub id: u64,
    pub text: String,
    pub theme: String,
    pub visible: bool,
}

/// The words that confirm a new interval.
pub open spec fn interval_message(minutes: nat) -> Seq<char> {
    "Interval set to "@ + decimal_digits(minutes) + " minutes"@
}

/// The state after the interval was set to `minutes` at the monotonic time `mono_now`:
/// the interval is the normalised one and the countdown starts over.
pub open spec fn with_interval(s: StateView, minutes: u64, mono_now: u64) -> StateView {
    StateView {
        interval: (sanitized_interval(minutes as int) * 60) as nat,
        elapsed: 0,
        last_interval_change: mono_now as nat,
        ..s
    }
}

/// Sets the reminder interval, in minutes. An interval that is not among the allowed
/// ones becomes 50 minutes. Returns the words that confirm the interval now in force.
pub fn set_reminder_interval(state: &mut AppState, minutes: u64, mono_now: u64) -> (message: String)
    ensures
        final(state)@ == with_interval(old(state)@, minutes, mono_now),
        message@ == interval_message(sanitized_interval(minutes as int) as nat),
        !is_allowed_interval(minutes as int) ==> final(state)@.interval
            == DEFAULT_INTERVAL_MINUTES * 60,
        is_allowed_interval(minutes as int) ==> final(state)@.interval == minutes * 60,
        old(state)@.wf() ==> final(state)@.wf(),
{
    let normalized = sanitize_interval_minutes(minutes);
    state.interval = normalized * 60;
    state.elapsed = 0;
    state.last_interval_change = mono_now;
    let mut message = "Interval set to ".to_owned();
    push_decimal(&mut message, normalized);
    message.append(" minutes");
    message
}

/// The reminder interval, in minutes.
pub fn get_reminder_interval(state: &AppState) -> (minutes: u64)
    ensures
        minutes == state@.interval / 60,
{
    state.interval / 60
}

/// Sets the interface language; anything but the Chinese tag means English. Returns the
/// language now in force.
pub fn set_language(state: &mut AppState, language: &str) -> (normalized: String)
    ensures
        final(state)@ == (StateView { language: normalized_language(language@), ..old(state)@ }),
        normalized@ == normalized_language(language@),
        old(state)@.wf() ==> final(state)@.wf(),
{
    let normalized = normalize_language(language);
    state.language = normalized.clone();
    normalized
}

/// The interface language.
pub fn get_language(state: &AppState) -> (language: String)
    ensures
        language@ == state@.language,
{
    state.language.clone()
}

/// Sets the language of the reminder texts; anything but the Chinese tag means English.
/// Returns the language now in force.
pub fn set_reminder_language(state: &mut AppState, language: &str) -> (normalized: String)
    ensures
        final(state)@ == (StateView {
            reminder_language: normalized_language(language@),
            ..old(state)@
        }),
        normalized@ == normalized_language(language@),
        old(state)@.wf() ==> final(state)@.wf(),
{
    let normalized = normalize_language(language);
    state.reminder_language = normalized.clone();
    normalized
}

/// The language of the reminder texts.
pub fn get_reminder_language(state: &AppState) -> (language: String)
    ensures
        language@ == state@.reminder_language,
{
    state.reminder_language.clone()
}

/// Sets the theme; anything but day means night. Returns the theme now in force.
pub fn set_theme(state: &mut AppState, theme: &str) -> (normalized: String)
    ensures
        final(state)@ == (StateView { theme: normalized_theme(theme@), ..old(state)@ }),
        normalized@ == normalized_theme(theme@),
        old(state)@.wf() ==> final(state)@.wf(),
{
    let normalized = normalize_theme(theme);
    state.theme = normalized.clone();
    normalized
}

/// The theme.
pub fn get_theme(state: &AppState) -> (theme: String)
    ensures
        theme@ == state@.theme,
{
    state.theme.clone()
}

/// Draws the next prompt at random and remembers it: never the one drawn last.
pub fn next_tip_index_from_state(state: &mut AppState) -> (index: usize)
    ensures
        final(state)@ == (StateView { last_tip_index: Some(index), ..old(state)@ }),
        index < REMINDER_PROMPT_COUNT,
        old(state)@.last_tip_index != Some(index),
{
    next_tip_index(&mut state.last_tip_index, REMINDER_PROMPT_COUNT)
}

/// Draws the next prompt and returns its number.
pub fn next_reminder_tip_index(state: &mut AppState) -> (index: u32)
    ensures
        final(state)@ == (StateView { last_tip_index: Some(index as usize), ..old(state)@ }),
        index < REMINDER_PROMPT_COUNT,
        old(state)@.last_tip_index != Some(index as usize),
{
    next_tip_index_from_state(state) as u32
}

/// Draws the next prompt and returns its text.
pub fn next_reminder_tip_text(state: &mut AppState) -> (tip: String)
    ensures
        final(state)@.last_tip_index is Some,
        final(state)@ == (StateView {
            last_tip_index: final(state)@.last_tip_index,
            ..old(state)@
        }),
        final(state)@.last_tip_index != old(state)@.last_tip_index,
        final(state)@.last_tip_index->0 < REMINDER_PROMPT_COUNT,
        tip@ == tip_text(final(state)@.last_tip_index->0 as int),
{
    let index = next_tip_index_from_state(state);
    reminder_tip(index).to_owned()
}

/// The reminder as the window shows it: its number, its text, the theme, and whether it
/// is on screen.
pub fn get_active_reminder(state: &AppState) -> (payload: ActiveReminderPayload)
    ensures
        payload.id == state@.active_reminder_id,
        payload.text@ == state@.active_reminder_tip,
        payload.theme@ == state@.theme,
        payload.visible == state@.reminder_visible,
{
    ActiveReminderPayload {
        id: state.active_reminder_id,
        text: state.active_reminder_tip.clone(),
        theme: state.theme.clone(),
        visible: state.reminder_visible,
    }
}

} // verus!
