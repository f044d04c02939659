//! The reminder scheduler: a state machine that is driven by a periodic tick
//! and by the user's acknowledgments.
//!
//! While idle it counts the seconds sat. When the count reaches the interval
//! it arms a reminder session. An armed session ends when the user
//! acknowledges it or when its window is lost. A session that stays
//! unanswered for a minute is logged as sedentary, once.

use crate::events::ReminderRecord;
use crate::state::{AppState, StateView};
use crate::tips::{
    draw_tips, reminder_tip, select_tip_index, selected_index, tip_text, REMINDER_PROMPT_COUNT,
};
use vstd::prelude::*;

verus! {

/// Seconds between two ticks.
pub const TICK_SECS: u64 = 5;

/// Age in seconds at which an unanswered session is logged as sedentary.
pub const STALE_AFTER_SECS: i64 = 60;

/// Age in nanoseconds below which an acknowledgment is taken for an accident.
pub const DEBOUNCE_NANOS: u64 = 700_000_000;

/// What the presentation layer reports of the reminder window.
#[derive(Clone, Copy, Debug, PartialEq, Eq)]
pub enum WindowStatus {
    /// There is no such window.
    Missing,
    /// The window exists but is not on screen.
    Hidden,
    /// The window is on screen, or could not say.
    Shown,
}

impl WindowStatus {
    /// The window of a session that waits is no longer there to answer: it is gone, or
    /// it is off the screen.
    pub open spec fn is_lost(self) -> bool {
        self is Missing || self is Hidden
    }
}

/// What is left to do after a tick.
#[derive(Clone, Copy, Debug, PartialEq, Eq)]
pub enum TickAction {
    /// Idle and below the interval: nothing to do.
    Counting,
    /// The interval was reached and a session began: its window is to be placed and
    /// shown.
    Fired,
    /// The session's window was lost and the session was dropped.
    Dropped,
    /// A session is waiting. With `logged` a sedentary record was written and the log
    /// is to be saved.
    Watching { logged: bool },
}

/// What an acknowledgment wrote to the log.
#[derive(Clone, Copy, Debug, PartialEq, Eq)]
pub enum AckLogged {
    Nothing,
    Sedentary,
    Standup,
}

/// What became of an acknowledgment.
#[derive(Clone, Copy, Debug, PartialEq, Eq)]
pub enum AckOutcome {
    /// It was stale, early, or there was nothing to acknowledge: nothing changed.
    Ignored,
    /// The session was cleared; `logged` says what was written.
    Cleared { logged: AckLogged },
}

/// The session has waited a minute or more at time `now` and is not logged yet.
pub open spec fn session_lapsed(s: StateView, now: int) -> bool {
    &&& s.active_reminder_start_ts is Some
    &&& !s.active_reminder_logged_sedentary
    &&& now - s.active_reminder_start_ts->0 >= STALE_AFTER_SECS
}

/// The sedentary record of the current session.
pub open spec fn session_record(s: StateView) -> ReminderRecord {
    ReminderRecord {
        ts: s.active_reminder_start_ts->0,
        duration_secs: s.active_reminder_interval_secs,
    }
}

/// The state after the session's sedentary record was written.
pub open spec fn with_sedentary_logged(s: StateView) -> StateView {
    StateView {
        reminder_events: s.reminder_events.push(session_record(s)),
        active_reminder_logged_sedentary: true,
        ..s
    }
}

/// The state after the session was cleared and the countdown reset.
pub open spec fn with_session_cleared(s: StateView) -> StateView {
    StateView {
        elapsed: 0,
        reminder_visible: false,
        active_reminder_start_ts: None,
        active_reminder_shown_at: None,
        ..s
    }
}

/// The countdown reaches the interval with this tick.
pub open spec fn interval_reached(s: StateView) -> bool {
    s.elapsed + TICK_SECS >= s.interval
}

/// The state after a new session was armed at wall-clock time `now` and monotonic time
/// `mono_now`, with the prompt chosen from the two draws.
pub open spec fn armed_state(s: StateView, now: i64, mono_now: u64, first: int, second: int) -> StateView {
    let index = selected_index(s.last_tip_index, REMINDER_PROMPT_COUNT as int, first, second);
    StateView {
        elapsed: 0,
        reminder_visible: true,
        last_tip_index: Some(index as usize),
        active_reminder_id: s.active_reminder_id + 1,
        active_reminder_start_ts: Some(now),
        active_reminder_shown_at: Some(mono_now),
        active_reminder_interval_secs: s.interval as u64,
        active_reminder_logged_sedentary: false,
        active_reminder_tip: tip_text(index),
        ..s
    }
}

/// The state after a tick.
pub open spec fn tick_model(
    s: StateView,
    now: i64,
    mono_now: u64,
    window: WindowStatus,
    first: int,
    second: int,
) -> StateView {
    if s.reminder_visible {
        if window.is_lost() {
            StateView {
                reminder_visible: false,
                active_reminder_start_ts: None,
                active_reminder_shown_at: None,
                ..s
            }
        } else if session_lapsed(s, now as int) {
            with_sedentary_logged(s)
        } else {
            s
        }
    } else if interval_reached(s) {
        armed_state(s, now, mono_now, first, second)
    } else {
        StateView { elapsed: s.elapsed + TICK_SECS as nat, ..s }
    }
}

/// What is left to do after a tick.
pub open spec fn tick_action(s: StateView, now: i64, window: WindowStatus) -> TickAction {
    if s.reminder_visible {
        if window.is_lost() {
            TickAction::Dropped
        } else {
            TickAction::Watching { logged: session_lapsed(s, now as int) }
        }
    } else if interval_reached(s) {
        TickAction::Fired
    } else {
        TickAction::Counting
    }
}

/// The acknowledgment is dropped without effect: it names another session, nothing is
/// on screen, or the reminder came up less than 700 ms ago.
pub open spec fn ack_ignored(s: StateView, reminder_id: Option<u64>, mono_now: u64) -> bool {
    ||| (reminder_id is Some && reminder_id->0 != s.active_reminder_id)
    ||| !s.reminder_visible
    ||| (s.active_reminder_shown_at is Some && mono_now - s.active_reminder_shown_at->0
        < DEBOUNCE_NANOS)
}

/// What an acknowledgment that is not ignored writes to the log.
pub open spec fn ack_logged(s: StateView, stood_up: bool, now: i64) -> AckLogged {
    if s.active_reminder_start_ts is Some {
        if session_lapsed(s, now as int) {
            AckLogged::Sedentary
        } else if !s.active_reminder_logged_sedentary && stood_up {
            AckLogged::Standup
        } else {
            AckLogged::Nothing
        }
    } else if stood_up {
        AckLogged::Standup
    } else {
        AckLogged::Nothing
    }
}

/// The state after an acknowledgment.
pub open spec fn acknowledge_model(
    s: StateView,
    stood_up: bool,
    reminder_id: Option<u64>,
    now: i64,
    mono_now: u64,
) -> StateView {
    if ack_ignored(s, reminder_id, mono_now) {
        s
    } else {
        with_session_cleared(
            match ack_logged(s, stood_up, now) {
                AckLogged::Sedentary => with_sedentary_logged(s),
                AckLogged::Standup => StateView {
                    standup_events: s.standup_events.push(now),
                    ..s
                },
                AckLogged::Nothing => s,
            },
        )
    }
}

/// What became of an acknowledgment.
pub open spec fn acknowledge_outcome(
    s: StateView,
    stood_up: bool,
    reminder_id: Option<u64>,
    now: i64,
    mono_now: u64,
) -> AckOutcome {
    if ack_ignored(s, reminder_id, mono_now) {
        AckOutcome::Ignored
    } else {
        AckOutcome::Cleared { logged: ack_logged(s, stood_up, now) }
    }
}

/// Whether `start` lies a minute or more before `now`.
fn lag_reached(now: i64, start: i64) -> (reached: bool)
    ensures
        reached == (now - start >= STALE_AFTER_SECS),
{
    (now as i128) - (start as i128) >= (STALE_AFTER_SECS as i128)
}

/// Whether the session is due to be logged as sedentary.
fn is_session_lapsed(state: &AppState, now: i64) -> (lapsed: bool)
    ensures
        lapsed == session_lapsed(state@, now as int),
{
    match state.active_reminder_start_ts {
        Some(start) => !state.active_reminder_logged_sedentary && lag_reached(now, start),
        None => false,
    }
}

/// Writes the session's sedentary record.
fn log_sedentary(state: &mut AppState)
    requires
        old(state).active_reminder_start_ts is Some,
    ensures
        final(state)@ == with_sedentary_logged(old(state)@),
{
    let start = match state.active_reminder_start_ts {
        Some(start) => start,
        None => 0,
    };
    state.reminder_events.push(
        ReminderRecord { ts: start, duration_secs: state.active_reminder_interval_secs },
    );
    state.active_reminder_logged_sedentary = true;
}

/// One tick of the scheduler, with the two draws for the prompt given.
///
/// `now` is the wall clock in seconds, `mono_now` the monotonic clock in nanoseconds,
/// `window` what the presentation layer reports of the reminder window. `first` is a draw
/// among all prompts, `second` one among all but one; they are used only when a session is
/// armed.
///
/// A session that waits is dropped, and nothing is logged, once its window is gone or
/// off the screen. A new session begins whatever the window: `window` matters only
/// while a session waits.
pub fn tick_with_draws(
    state: &mut AppState,
    now: i64,
    mono_now: u64,
    window: WindowStatus,
    first: usize,
    second: usize,
) -> (action: TickAction)
    requires
        old(state).elapsed <= u64::MAX - TICK_SECS,
        old(state).active_reminder_id < u64::MAX,
        first < REMINDER_PROMPT_COUNT,
        second < REMINDER_PROMPT_COUNT - 1,
    ensures
        final(state)@ == tick_model(old(state)@, now, mono_now, window, first as int, second as int),
        action == tick_action(old(state)@, now, window),
        old(state)@.wf() ==> final(state)@.wf(),
{
    let lost = match window {
        WindowStatus::Shown => false,
        _ => true,
    };
    if state.reminder_visible {
        if lost {
            state.reminder_visible = false;
            state.active_reminder_start_ts = None;
            state.active_reminder_shown_at = None;
            return TickAction::Dropped;
        }
        let lapsed = is_session_lapsed(state, now);
        if lapsed {
            log_sedentary(state);
        }
        return TickAction::Watching { logged: lapsed };
    }
    let counted = state.elapsed + TICK_SECS;
    if counted >= state.interval {
        state.active_reminder_id = state.active_reminder_id + 1;
        let index = select_tip_index(
            &mut state.last_tip_index,
            REMINDER_PROMPT_COUNT,
            first,
            second,
        );
        state.active_reminder_tip = reminder_tip(index).to_owned();
        state.active_reminder_start_ts = Some(now);
        state.active_reminder_shown_at = Some(mono_now);
        state.active_reminder_interval_secs = state.interval;
        state.active_reminder_logged_sedentary = false;
        state.reminder_visible = true;
        state.elapsed = 0;
        TickAction::Fired
    } else {
        state.elapsed = counted;
        TickAction::Counting
    }
}

/// One tick of the scheduler. The prompt of a session that begins is drawn at random.
///
/// Everything but the prompt is fixed by the arguments: the state afterwards is the one
/// that [`tick_model`] gives for some pair of draws.
pub fn tick(state: &mut AppState, now: i64, mono_now: u64, window: WindowStatus) -> (action:
    TickAction)
    requires
        old(state).elapsed <= u64::MAX - TICK_SECS,
        old(state).active_reminder_id < u64::MAX,
    ensures
        exists|first: int, second: int|
            0 <= first < REMINDER_PROMPT_COUNT && 0 <= second < REMINDER_PROMPT_COUNT - 1
                && final(state)@ == #[trigger] tick_model(
                old(state)@,
                now,
                mono_now,
                window,
                first,
                second,
            ),
        action == tick_action(old(state)@, now, window),
        old(state)@.wf() ==> final(state)@.wf(),
{
    let arming = !state.reminder_visible && state.elapsed + TICK_SECS >= state.interval;
    let (first, second) = if arming {
        draw_tips(state.last_tip_index, REMINDER_PROMPT_COUNT)
    } else {
        (0, 0)
    };
    let ghost before = state@;
    let action = tick_with_draws(state, now, mono_now, window, first, second);
    assert(state@ == tick_model(before, now, mono_now, window, first as int, second as int));
    action
}

/// Whether the reminder came up less than 700 ms before `mono_now`.
fn is_debounced(shown_at: Option<u64>, mono_now: u64) -> (early: bool)
    ensures
        early == (shown_at is Some && mono_now - shown_at->0 < DEBOUNCE_NANOS),
{
    match shown_at {
        Some(shown) => mono_now < shown || mono_now - shown < DEBOUNCE_NANOS,
        None => false,
    }
}

/// The user's answer to a reminder: `stood_up` says whether they got up, `reminder_id`
/// names the session that the answer is for, if the caller knows it.
///
/// An answer to another session than the current one, an answer when nothing is on
/// screen, and an answer within 700 ms of the reminder coming up change nothing. Any
/// other answer clears the session and resets the countdown. It logs the session as
/// sedentary if it has waited a minute and is not logged yet; else it logs a stand-up if
/// the user got up and the session is not logged.
pub fn acknowledge_reminder(
    state: &mut AppState,
    stood_up: bool,
    reminder_id: Option<u64>,
    now: i64,
    mono_now: u64,
) -> (outcome: AckOutcome)
    ensures
        final(state)@ == acknowledge_model(old(state)@, stood_up, reminder_id, now, mono_now),
        outcome == acknowledge_outcome(old(state)@, stood_up, reminder_id, now, mono_now),
        outcome is Ignored ==> *final(state) == *old(state),
        reminder_id is Some && reminder_id->0 != old(state).active_reminder_id ==> *final(state)
            == *old(state),
        old(state)@.wf() ==> final(state)@.wf(),
{
    match reminder_id {
        Some(id) => {
            if id != state.active_reminder_id {
                return AckOutcome::Ignored;
            }
        },
        None => {},
    }
    if !state.reminder_visible {
        return AckOutcome::Ignored;
    }
    if is_debounced(state.active_reminder_shown_at, mono_now) {
        return AckOutcome::Ignored;
    }
    let mut logged = AckLogged::Nothing;
    if state.active_reminder_start_ts.is_some() {
        if is_session_lapsed(state, now) {
            log_sedentary(state);
            logged = AckLogged::Sedentary;
        } else if !state.active_reminder_logged_sedentary && stood_up {
            state.standup_events.push(now);
            logged = AckLogged::Standup;
        }
    } else if stood_up {
        state.standup_events.push(now);
        logged = AckLogged::Standup;
    }
    state.elapsed = 0;
    state.reminder_visible = false;
    state.active_reminder_start_ts = None;
    state.active_reminder_shown_at = None;
    AckOutcome::Cleared { logged }
}

/// An acknowledgment that names another session than the current one changes nothing:
/// neither the event log nor the session.
pub proof fn lemma_stale_acknowledgment_is_noop(
    s: StateView,
    stood_up: bool,
    reminder_id: u64,
    now: i64,
    mono_now: u64,
)
    requires
        reminder_id != s.active_reminder_id,
    ensures
        acknowledge_model(s, stood_up, Some(reminder_id), now, mono_now) == s,
        acknowledge_outcome(s, stood_up, Some(reminder_id), now, mono_now) == AckOutcome::Ignored,
{
}

/// An acknowledgment that comes less than 700 ms after the reminder came up logs
/// nothing and leaves the session as it is; one for the same session that comes after
/// those 700 ms then clears it.
pub proof fn lemma_early_acknowledgment_is_deferred(
    s: StateView,
    early_stood_up: bool,
    early_id: Option<u64>,
    early_now: i64,
    early_mono: u64,
    stood_up: bool,
    reminder_id: Option<u64>,
    now: i64,
    mono_now: u64,
)
    requires
        s.reminder_visible,
        s.active_reminder_shown_at is Some,
        early_mono - s.active_reminder_shown_at->0 < DEBOUNCE_NANOS,
        mono_now - s.active_reminder_shown_at->0 >= DEBOUNCE_NANOS,
        reminder_id is Some ==> reminder_id->0 == s.active_reminder_id,
    ensures
        acknowledge_model(s, early_stood_up, early_id, early_now, early_mono) == s,
        acknowledge_outcome(s, early_stood_up, early_id, early_now, early_mono)
            == AckOutcome::Ignored,
        acknowledge_outcome(
            acknowledge_model(s, early_stood_up, early_id, early_now, early_mono),
            stood_up,
            reminder_id,
            now,
            mono_now,
        ) is Cleared,
        !acknowledge_model(
            acknowledge_model(s, early_stood_up, early_id, early_now, early_mono),
            stood_up,
            reminder_id,
            now,
            mono_now,
        ).reminder_visible,
{
}

/// A session whose window is reported gone or off the screen at a tick is dropped: the
/// reminder no longer counts as on screen, its start and the time it came up are
/// forgotten, its number stays, and nothing is logged.
pub proof fn lemma_lost_window_drops_session(
    s: StateView,
    now: i64,
    mono_now: u64,
    window: WindowStatus,
    first: int,
    second: int,
)
    requires
        s.reminder_visible,
        window is Missing || window is Hidden,
    ensures
        tick_action(s, now, window) == TickAction::Dropped,
        ({
            let t = tick_model(s, now, mono_now, window, first, second);
            &&& !t.reminder_visible
            &&& t.active_reminder_id == s.active_reminder_id
            &&& t.active_reminder_start_ts is None
            &&& t.active_reminder_shown_at is None
            &&& t.reminder_events == s.reminder_events
            &&& t.standup_events == s.standup_events
        }),
{
}

/// A session that was just armed is on screen, not logged, and carries the time and the
/// interval of its arming; its number is one more than the last.
pub proof fn lemma_armed_session(
    s: StateView,
    now: i64,
    mono_now: u64,
    window: WindowStatus,
    first: int,
    second: int,
)
    requires
        !s.reminder_visible,
        interval_reached(s),
    ensures
        tick_action(s, now, window) == TickAction::Fired,
        ({
            let t = tick_model(s, now, mono_now, window, first, second);
            &&& t.reminder_visible
            &&& t.active_reminder_id == s.active_reminder_id + 1
            &&& t.active_reminder_start_ts == Some(now)
            &&& t.active_reminder_shown_at == Some(mono_now)
            &&& !t.active_reminder_logged_sedentary
            &&& t.elapsed == 0
            &&& t.reminder_events == s.reminder_events
            &&& t.standup_events == s.standup_events
        }),
{
}

/// One thing that happens to the scheduler: a tick or an acknowledgment, with all that
/// it brings along.
pub enum Input {
    Tick { now: i64, mono_now: u64, window: WindowStatus, first: int, second: int },
    Acknowledge { stood_up: bool, reminder_id: Option<u64>, now: i64, mono_now: u64 },
}

/// The state after one input.
pub open spec fn step(s: StateView, input: Input) -> StateView {
    match input {
        Input::Tick { now, mono_now, window, first, second } => tick_model(
            s,
            now,
            mono_now,
            window,
            first,
            second,
        ),
        Input::Acknowledge { stood_up, reminder_id, now, mono_now } => acknowledge_model(
            s,
            stood_up,
            reminder_id,
            now,
            mono_now,
        ),
    }
}

/// The state after a run of inputs, taken in their order.
pub open spec fn run(s: StateView, inputs: Seq<Input>) -> StateView
    decreases inputs.len(),
{
    if inputs.len() == 0 {
        s
    } else {
        step(run(s, inputs.drop_last()), inputs.last())
    }
}

/// What holds between a state and any later state of the same session.
pub open spec fn same_session_invariant(s: StateView, t: StateView) -> bool {
    &&& t.active_reminder_id >= s.active_reminder_id
    &&& t.active_reminder_id == s.active_reminder_id ==> {
        &&& t.reminder_visible ==> {
            &&& t.active_reminder_start_ts == s.active_reminder_start_ts
            &&& t.active_reminder_interval_secs == s.active_reminder_interval_secs
        }
        &&& {
            ||| {
                &&& t.reminder_events == s.reminder_events
                &&& t.active_reminder_logged_sedentary == s.active_reminder_logged_sedentary
            }
            ||| {
                &&& !s.active_reminder_logged_sedentary
                &&& t.active_reminder_logged_sedentary
                &&& s.active_reminder_start_ts is Some
                &&& t.reminder_events == s.reminder_events.push(session_record(s))
            }
        }
    }
}

/// Ticks and acknowledgments log a session as sedentary at most once, whichever of
/// them comes first and however they are mixed.
///
/// Session numbers never go down. As long as the number is the one of `s`, the log of
/// sedentary records is either that of `s` or that of `s` with the one record of the
/// session added; a session that was logged already adds none.
pub proof fn lemma_session_logged_at_most_once(s: StateView, inputs: Seq<Input>)
    ensures
        same_session_invariant(s, run(s, inputs)),
        run(s, inputs).active_reminder_id == s.active_reminder_id
            && s.active_reminder_logged_sedentary ==> run(s, inputs).reminder_events
            == s.reminder_events,
    decreases inputs.len(),
{
    if inputs.len() > 0 {
        lemma_session_logged_at_most_once(s, inputs.drop_last());
        let t = run(s, inputs.drop_last());
        assert(same_session_invariant(s, step(t, inputs.last())));
    }
}

/// A session that has waited a minute is logged by whichever comes first, the tick or
/// the acknowledgment, with the same record: its start and the interval it began with.
pub proof fn lemma_lapsed_session_is_logged(
    s: StateView,
    now: i64,
    mono_now: u64,
    window: WindowStatus,
    first: int,
    second: int,
    stood_up: bool,
    reminder_id: Option<u64>,
)
    requires
        s.reminder_visible,
        session_lapsed(s, now as int),
    ensures
        !window.is_lost() ==> tick_model(s, now, mono_now, window, first, second)
            == with_sedentary_logged(s),
        !ack_ignored(s, reminder_id, mono_now) ==> acknowledge_model(
            s,
            stood_up,
            reminder_id,
            now,
            mono_now,
        ) == with_session_cleared(with_sedentary_logged(s)),
        with_sedentary_logged(s).reminder_events.len() == s.reminder_events.len() + 1,
        !session_lapsed(with_sedentary_logged(s), now as int),
{
}

/// Width of the reminder window, in pixels.
pub const REMINDER_WIDTH: u32 = 640;

/// Height of the reminder window, in pixels.
pub const REMINDER_HEIGHT: u32 = 196;

/// Gap between the reminder window and the edges of the work area, in pixels.
pub const REMINDER_MARGIN: i32 = 28;

/// The part of a display that windows may use.
#[derive(Clone, Copy, Debug, PartialEq, Eq)]
pub struct WorkArea {
    pub x: i32,
    pub y: i32,
    pub width: u32,
    pub height: u32,
}

/// The size that the reminder window is taken to have: the one it reports, else the
/// one it was given.
pub open spec fn window_size(reported: Option<(u32, u32)>) -> (u32, u32) {
    match reported {
        Some(size) => size,
        None => (REMINDER_WIDTH, REMINDER_HEIGHT),
    }
}

/// Where the reminder window goes so that its lower right corner sits one margin inside
/// the lower right corner of the work area.
pub open spec fn anchored_position(area: WorkArea, reported: Option<(u32, u32)>) -> (int, int) {
    (
        area.x + area.width - window_size(reported).0 - REMINDER_MARGIN,
        area.y + area.height - window_size(reported).1 - REMINDER_MARGIN,
    )
}

/// Places the reminder window in the lower right corner of the work area.
///
/// `reported` is the outer size of the window, if it can be had. The result is `None`
/// only where the position is no pair of 32-bit coordinates.
pub fn reminder_position(area: WorkArea, reported: Option<(u32, u32)>) -> (position: Option<
    (i32, i32),
>)
    ensures
        match position {
            Some((x, y)) => (x as int, y as int) == anchored_position(area, reported),
            None => {
                ||| anchored_position(area, reported).0 < i32::MIN
                ||| anchored_position(area, reported).0 > i32::MAX
                ||| anchored_position(area, reported).1 < i32::MIN
                ||| anchored_position(area, reported).1 > i32::MAX
            },
        },
{
    let (width, height) = match reported {
        Some(size) => size,
        None => (REMINDER_WIDTH, REMINDER_HEIGHT),
    };
    let x = area.x as i64 + area.width as i64 - width as i64 - REMINDER_MARGIN as i64;
    let y = area.y as i64 + area.height as i64 - height as i64 - REMINDER_MARGIN as i64;
    if x < i32::MIN as i64 || x > i32::MAX as i64 || y < i32::MIN as i64 || y > i32::MAX as i64 {
        None
    } else {
        Some((x as i32, y as i32))
    }
}

} // verus!
