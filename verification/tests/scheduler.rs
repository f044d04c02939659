use standby::commands::set_reminder_interval;
use standby::events::ReminderRecord;
use standby::scheduler::{
    acknowledge_reminder, reminder_position, tick, tick_with_draws, AckLogged, AckOutcome,
    TickAction, WindowStatus, WorkArea,
};
use standby::state::AppState;

const SECOND: u64 = 1_000_000_000;
const T0: i64 = 1_700_000_000;

/// A state with a five-minute interval in which a session was just armed at `T0`.
fn armed_state() -> AppState {
    let mut state = AppState::new();
    set_reminder_interval(&mut state, 5, 0);
    state.elapsed = 295;
    let action = tick_with_draws(&mut state, T0, 100 * SECOND, WindowStatus::Shown, 3, 0);
    assert_eq!(action, TickAction::Fired);
    state
}

#[test]
fn fresh_state_is_idle() {
    let state = AppState::new();
    assert_eq!(state.interval, 3000);
    assert_eq!(state.elapsed, 0);
    assert!(!state.reminder_visible);
    assert_eq!(state.active_reminder_id, 0);
    assert_eq!(state.active_reminder_start_ts, None);
    assert_eq!(state.active_reminder_shown_at, None);
    assert_eq!(state.active_reminder_interval_secs, 3000);
    assert!(!state.active_reminder_logged_sedentary);
    assert_eq!(state.active_reminder_tip, "Time to stand up and stretch.");
    assert_eq!(state.language, "en");
    assert_eq!(state.reminder_language, "en");
    assert_eq!(state.theme, "night");
    assert_eq!(state.last_tip_index, None);
    assert!(state.reminder_events.is_empty());
    assert!(state.standup_events.is_empty());
}

#[test]
fn idle_tick_counts_five_seconds() {
    let mut state = AppState::new();
    let action = tick(&mut state, T0, 0, WindowStatus::Shown);
    assert_eq!(action, TickAction::Counting);
    assert_eq!(state.elapsed, 5);
    assert!(!state.reminder_visible);
    assert_eq!(state.active_reminder_id, 0);
}

#[test]
fn unanswered_session_is_logged_a_minute_after_arming() {
    let mut state = AppState::new();
    set_reminder_interval(&mut state, 5, 0);
    assert_eq!(state.interval, 300);
    let mut now = T0;
    let mut mono = 0u64;
    for n in 1..60 {
        now += 5;
        mono += 5 * SECOND;
        let action = tick(&mut state, now, mono, WindowStatus::Shown);
        assert_eq!(action, TickAction::Counting);
        assert_eq!(state.elapsed, 5 * n);
    }
    now += 5;
    mono += 5 * SECOND;
    let action = tick(&mut state, now, mono, WindowStatus::Shown);
    assert_eq!(action, TickAction::Fired);
    let armed_at = now;
    assert!(state.reminder_visible);
    assert_eq!(state.elapsed, 0);
    assert_eq!(state.active_reminder_id, 1);
    assert_eq!(state.active_reminder_start_ts, Some(armed_at));
    assert_eq!(state.active_reminder_shown_at, Some(mono));
    assert_eq!(state.active_reminder_interval_secs, 300);
    assert!(!state.active_reminder_logged_sedentary);
    for _ in 61..72 {
        now += 5;
        mono += 5 * SECOND;
        let action = tick(&mut state, now, mono, WindowStatus::Shown);
        assert_eq!(action, TickAction::Watching { logged: false });
        assert!(state.reminder_events.is_empty());
    }
    now += 5;
    mono += 5 * SECOND;
    assert_eq!(now - armed_at, 60);
    let action = tick(&mut state, now, mono, WindowStatus::Shown);
    assert_eq!(action, TickAction::Watching { logged: true });
    assert_eq!(state.reminder_events, vec![ReminderRecord { ts: armed_at, duration_secs: 300 }]);
    assert!(state.active_reminder_logged_sedentary);
    assert!(state.reminder_visible);
    now += 5;
    mono += 5 * SECOND;
    let action = tick(&mut state, now, mono, WindowStatus::Shown);
    assert_eq!(action, TickAction::Watching { logged: false });
    assert_eq!(state.reminder_events.len(), 1);
    assert_eq!(state.elapsed, 0);
}

#[test]
fn arming_takes_the_drawn_prompt() {
    let state = armed_state();
    assert_eq!(state.last_tip_index, Some(3));
    assert_eq!(state.active_reminder_tip, "My spirit says your butt needs freedom!");
    assert_eq!(state.active_reminder_id, 1);
    assert_eq!(state.active_reminder_shown_at, Some(100 * SECOND));
}

#[test]
fn arming_moves_on_from_the_last_prompt() {
    let mut state = AppState::new();
    state.interval = 300;
    state.elapsed = 295;
    state.last_tip_index = Some(14);
    tick_with_draws(&mut state, T0, 0, WindowStatus::Hidden, 14, 2);
    assert_eq!(state.last_tip_index, Some(2));
    assert_eq!(state.active_reminder_tip, "The chair is NOT your lobster. Move!");
}

#[test]
fn session_begins_whatever_the_window() {
    let mut state = AppState::new();
    state.interval = 300;
    state.elapsed = 295;
    let action = tick(&mut state, T0, 7, WindowStatus::Missing);
    assert_eq!(action, TickAction::Fired);
    assert_eq!(state.elapsed, 0);
    assert!(state.reminder_visible);
    assert_eq!(state.active_reminder_id, 1);
    assert_eq!(state.active_reminder_start_ts, Some(T0));
    assert_eq!(state.active_reminder_shown_at, Some(7));
    let action = tick(&mut state, T0 + 5, 5 * SECOND, WindowStatus::Missing);
    assert_eq!(action, TickAction::Dropped);
    assert!(!state.reminder_visible);
    assert_eq!(state.active_reminder_start_ts, None);
    assert!(state.reminder_events.is_empty());
}

#[test]
fn lost_window_drops_the_session_without_logging() {
    let mut state = armed_state();
    let action = tick(&mut state, T0 + 120, 220 * SECOND, WindowStatus::Missing);
    assert_eq!(action, TickAction::Dropped);
    assert!(!state.reminder_visible);
    assert_eq!(state.active_reminder_start_ts, None);
    assert_eq!(state.active_reminder_shown_at, None);
    assert!(state.reminder_events.is_empty());
    assert!(state.standup_events.is_empty());
    assert_eq!(state.active_reminder_id, 1);
}

#[test]
fn hidden_window_drops_the_session_without_logging() {
    let mut state = armed_state();
    let action = tick(&mut state, T0 + 5, 105 * SECOND, WindowStatus::Hidden);
    assert_eq!(action, TickAction::Dropped);
    assert!(!state.reminder_visible);
    assert_eq!(state.active_reminder_start_ts, None);
    assert_eq!(state.active_reminder_shown_at, None);
    assert_eq!(state.active_reminder_id, 1);
    assert!(state.reminder_events.is_empty());
    assert!(state.standup_events.is_empty());
    let payload = standby::commands::get_active_reminder(&state);
    assert!(!payload.visible);
    assert_eq!(payload.id, 1);
}

#[test]
fn hidden_window_drops_a_lapsed_session_unlogged() {
    let mut state = armed_state();
    let action = tick(&mut state, T0 + 60, 160 * SECOND, WindowStatus::Hidden);
    assert_eq!(action, TickAction::Dropped);
    assert!(state.reminder_events.is_empty());
    assert!(!state.active_reminder_logged_sedentary);
    let action = tick(&mut state, T0 + 65, 165 * SECOND, WindowStatus::Hidden);
    assert_eq!(action, TickAction::Counting);
    assert_eq!(state.elapsed, 5);
}

#[test]
fn off_screen_window_is_enough_to_arm() {
    let mut state = AppState::new();
    state.interval = 300;
    state.elapsed = 295;
    let action = tick(&mut state, T0, 0, WindowStatus::Hidden);
    assert_eq!(action, TickAction::Fired);
    assert!(state.reminder_visible);
    assert_eq!(state.active_reminder_id, 1);
}

#[test]
fn armed_tick_does_not_count() {
    let mut state = armed_state();
    tick(&mut state, T0 + 5, 105 * SECOND, WindowStatus::Shown);
    assert_eq!(state.elapsed, 0);
}

#[test]
fn standing_up_ten_seconds_after_arming_logs_one_standup() {
    let mut state = armed_state();
    let outcome = acknowledge_reminder(&mut state, true, Some(1), T0 + 10, 110 * SECOND);
    assert_eq!(outcome, AckOutcome::Cleared { logged: AckLogged::Standup });
    assert_eq!(state.standup_events, vec![T0 + 10]);
    assert!(state.reminder_events.is_empty());
    assert!(!state.reminder_visible);
    assert_eq!(state.active_reminder_start_ts, None);
    assert_eq!(state.active_reminder_shown_at, None);
    assert_eq!(state.elapsed, 0);
}

#[test]
fn dismissing_without_standing_logs_nothing() {
    let mut state = armed_state();
    state.elapsed = 0;
    let outcome = acknowledge_reminder(&mut state, false, None, T0 + 10, 110 * SECOND);
    assert_eq!(outcome, AckOutcome::Cleared { logged: AckLogged::Nothing });
    assert!(state.standup_events.is_empty());
    assert!(state.reminder_events.is_empty());
    assert!(!state.reminder_visible);
}

#[test]
fn acknowledgment_of_another_session_changes_nothing() {
    let mut state = armed_state();
    let outcome = acknowledge_reminder(&mut state, true, Some(7), T0 + 90, 190 * SECOND);
    assert_eq!(outcome, AckOutcome::Ignored);
    assert!(state.reminder_visible);
    assert_eq!(state.active_reminder_start_ts, Some(T0));
    assert_eq!(state.active_reminder_shown_at, Some(100 * SECOND));
    assert!(state.reminder_events.is_empty());
    assert!(state.standup_events.is_empty());
    assert!(!state.active_reminder_logged_sedentary);
    assert_eq!(state.active_reminder_id, 1);
}

#[test]
fn acknowledgment_without_a_reminder_on_screen_changes_nothing() {
    let mut state = AppState::new();
    state.elapsed = 40;
    let outcome = acknowledge_reminder(&mut state, true, None, T0, SECOND);
    assert_eq!(outcome, AckOutcome::Ignored);
    assert_eq!(state.elapsed, 40);
    assert!(state.standup_events.is_empty());
}

#[test]
fn early_acknowledgment_is_ignored_and_a_later_one_clears() {
    let mut state = armed_state();
    let shown = 100 * SECOND;
    let outcome = acknowledge_reminder(&mut state, true, Some(1), T0, shown + 699_999_999);
    assert_eq!(outcome, AckOutcome::Ignored);
    assert!(state.reminder_visible);
    assert_eq!(state.active_reminder_start_ts, Some(T0));
    assert!(state.standup_events.is_empty());
    assert!(state.reminder_events.is_empty());
    let outcome = acknowledge_reminder(&mut state, true, Some(1), T0, shown + 700_000_000);
    assert_eq!(outcome, AckOutcome::Cleared { logged: AckLogged::Standup });
    assert!(!state.reminder_visible);
    assert_eq!(state.standup_events, vec![T0]);
}

#[test]
fn acknowledgment_before_the_reminder_came_up_is_early() {
    let mut state = armed_state();
    let outcome = acknowledge_reminder(&mut state, true, None, T0, 50 * SECOND);
    assert_eq!(outcome, AckOutcome::Ignored);
    assert!(state.reminder_visible);
}

#[test]
fn late_acknowledgment_logs_the_session_as_sedentary() {
    let mut state = armed_state();
    let outcome = acknowledge_reminder(&mut state, true, Some(1), T0 + 60, 160 * SECOND);
    assert_eq!(outcome, AckOutcome::Cleared { logged: AckLogged::Sedentary });
    assert_eq!(state.reminder_events, vec![ReminderRecord { ts: T0, duration_secs: 300 }]);
    assert!(state.standup_events.is_empty());
    assert!(state.active_reminder_logged_sedentary);
    assert!(!state.reminder_visible);
    let action = tick(&mut state, T0 + 65, 165 * SECOND, WindowStatus::Shown);
    assert_eq!(action, TickAction::Counting);
    assert_eq!(state.reminder_events.len(), 1);
}

#[test]
fn session_logged_by_the_tick_is_not_logged_again_by_the_acknowledgment() {
    let mut state = armed_state();
    let action = tick(&mut state, T0 + 60, 160 * SECOND, WindowStatus::Shown);
    assert_eq!(action, TickAction::Watching { logged: true });
    assert_eq!(state.reminder_events.len(), 1);
    let outcome = acknowledge_reminder(&mut state, true, Some(1), T0 + 90, 190 * SECOND);
    assert_eq!(outcome, AckOutcome::Cleared { logged: AckLogged::Nothing });
    assert_eq!(state.reminder_events, vec![ReminderRecord { ts: T0, duration_secs: 300 }]);
    assert!(state.standup_events.is_empty());
    assert!(!state.reminder_visible);
}

#[test]
fn clock_set_back_counts_as_no_lag() {
    let mut state = armed_state();
    let action = tick(&mut state, T0 - 1000, 160 * SECOND, WindowStatus::Shown);
    assert_eq!(action, TickAction::Watching { logged: false });
    let action = tick(&mut state, i64::MIN, 160 * SECOND, WindowStatus::Shown);
    assert_eq!(action, TickAction::Watching { logged: false });
    state.active_reminder_start_ts = Some(i64::MIN);
    let action = tick(&mut state, i64::MAX, 160 * SECOND, WindowStatus::Shown);
    assert_eq!(action, TickAction::Watching { logged: true });
}

#[test]
fn standing_up_without_a_timer_logs_a_standup() {
    let mut state = AppState::new();
    state.reminder_visible = true;
    let outcome = acknowledge_reminder(&mut state, true, None, T0, SECOND);
    assert_eq!(outcome, AckOutcome::Cleared { logged: AckLogged::Standup });
    assert_eq!(state.standup_events, vec![T0]);
    assert!(!state.reminder_visible);
}

#[test]
fn next_session_gets_the_next_number() {
    let mut state = armed_state();
    acknowledge_reminder(&mut state, false, None, T0 + 10, 110 * SECOND);
    state.elapsed = 295;
    let action = tick(&mut state, T0 + 400, 500 * SECOND, WindowStatus::Shown);
    assert_eq!(action, TickAction::Fired);
    assert_eq!(state.active_reminder_id, 2);
    assert_ne!(state.last_tip_index, Some(3));
    assert!(!state.active_reminder_logged_sedentary);
}

#[test]
fn reminder_sits_in_the_lower_right_corner() {
    let area = WorkArea { x: 0, y: 0, width: 1920, height: 1040 };
    assert_eq!(reminder_position(area, None), Some((1252, 816)));
    assert_eq!(reminder_position(area, Some((700, 200))), Some((1192, 812)));
    let second = WorkArea { x: -1280, y: 24, width: 1280, height: 1000 };
    assert_eq!(reminder_position(second, Some((640, 196))), Some((-668, 800)));
}

#[test]
fn position_out_of_range_is_refused() {
    let area = WorkArea { x: i32::MAX, y: 0, width: u32::MAX, height: 1040 };
    assert_eq!(reminder_position(area, None), None);
    let area = WorkArea { x: i32::MIN, y: 0, width: 0, height: 1040 };
    assert_eq!(reminder_position(area, None), None);
}
