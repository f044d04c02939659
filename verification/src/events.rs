//! The event log and its retention policy.
//!
//! Two append-only lists make up the log: one record per sedentary session
//! and one timestamp per stand-up. Nothing older than the retention window
//! stays in it.

use vstd::prelude::*;

verus! {

/// Seconds in a day.
pub const WINDOW_24H_SECS: i64 = 86_400;

/// How long an event is kept: 180 days, in seconds.
pub const RETENTION_SECS: i64 = 15_552_000;

/// One sedentary session: when its reminder came up and how long the user had sat.
#[derive(Clone, Copy, Debug, PartialEq, Eq)]
pub struct ReminderRecord {
    pub ts: i64,
    pub duration_secs: u64,
}

/// The event log as it is stored.
pub struct AnalyticsStore {
    pub reminder_events: Vec<ReminderRecord>,
    pub standup_events: Vec<i64>,
}

/// Sedentary records at or after `cutoff`.
pub open spec fn reminder_at_or_after(cutoff: int) -> spec_fn(ReminderRecord) -> bool {
    |r: ReminderRecord| r.ts >= cutoff
}

/// Stand-ups at or after `cutoff`.
pub open spec fn stamp_at_or_after(cutoff: int) -> spec_fn(i64) -> bool {
    |ts: i64| ts >= cutoff
}

/// Sedentary records before `bound`.
pub open spec fn reminder_before(bound: int) -> spec_fn(ReminderRecord) -> bool {
    |r: ReminderRecord| r.ts < bound
}

/// Stand-ups before `bound`.
pub open spec fn stamp_before(bound: int) -> spec_fn(i64) -> bool {
    |ts: i64| ts < bound
}

/// The sedentary records that the retention policy keeps at time `now`, in their order.
pub open spec fn retained_reminders(events: Seq<ReminderRecord>, now: int) -> Seq<ReminderRecord> {
    events.filter(reminder_at_or_after(now - RETENTION_SECS))
}

/// The stand-ups that the retention policy keeps at time `now`, in their order.
pub open spec fn retained_standups(events: Seq<i64>, now: int) -> Seq<i64> {
    events.filter(stamp_at_or_after(now - RETENTION_SECS))
}

/// A filter that every element passes changes nothing.
pub proof fn lemma_filter_keeps_all<A>(s: Seq<A>, pred: spec_fn(A) -> bool)
    requires
        forall|i: int| 0 <= i < s.len() ==> pred(#[trigger] s[i]),
    ensures
        s.filter(pred) == s,
    decreases s.len(),
{
    reveal(Seq::filter);
    if s.len() > 0 {
        lemma_filter_keeps_all(s.drop_last(), pred);
        assert(s.drop_last().push(s.last()) =~= s);
    }
}

/// The records on one side of `bound`, in their order: those before it, or those at or
/// after it.
pub fn select_reminders(events: &Vec<ReminderRecord>, bound: i64, before: bool) -> (kept: Vec<
    ReminderRecord,
>)
    ensures
        kept@ == events@.filter(
            if before {
                reminder_before(bound as int)
            } else {
                reminder_at_or_after(bound as int)
            },
        ),
{
    let ghost pred = if before {
        reminder_before(bound as int)
    } else {
        reminder_at_or_after(bound as int)
    };
    let mut kept: Vec<ReminderRecord> = Vec::new();
    let n = events.len();
    let mut i: usize = 0;
    assert(events@.take(0).filter(pred) =~= Seq::<ReminderRecord>::empty()) by {
        reveal(Seq::filter);
    }
    while i < n
        invariant
            i <= n,
            n == events@.len(),
            pred == if before {
                reminder_before(bound as int)
            } else {
                reminder_at_or_after(bound as int)
            },
            kept@ == events@.take(i as int).filter(pred),
        decreases n - i,
    {
        let r = events[i];
        proof {
            events@.take(i as int).lemma_filter_push(r, pred);
            assert(events@.take(i as int).push(r) =~= events@.take(i + 1));
        }
        if (before && r.ts < bound) || (!before && r.ts >= bound) {
            kept.push(r);
        }
        i += 1;
    }
    assert(events@.take(n as int) =~= events@);
    kept
}

/// The timestamps on one side of `bound`, in their order: those before it, or those at
/// or after it.
pub fn select_stamps(events: &Vec<i64>, bound: i64, before: bool) -> (kept: Vec<i64>)
    ensures
        kept@ == events@.filter(
            if before {
                stamp_before(bound as int)
            } else {
                stamp_at_or_after(bound as int)
            },
        ),
{
    let ghost pred = if before {
        stamp_before(bound as int)
    } else {
        stamp_at_or_after(bound as int)
    };
    let mut kept: Vec<i64> = Vec::new();
    let n = events.len();
    let mut i: usize = 0;
    assert(events@.take(0).filter(pred) =~= Seq::<i64>::empty()) by {
        reveal(Seq::filter);
    }
    while i < n
        invariant
            i <= n,
            n == events@.len(),
            pred == if before {
                stamp_before(bound as int)
            } else {
                stamp_at_or_after(bound as int)
            },
            kept@ == events@.take(i as int).filter(pred),
        decreases n - i,
    {
        let ts = events[i];
        proof {
            events@.take(i as int).lemma_filter_push(ts, pred);
            assert(events@.take(i as int).push(ts) =~= events@.take(i + 1));
        }
        if (before && ts < bound) || (!before && ts >= bound) {
            kept.push(ts);
        }
        i += 1;
    }
    assert(events@.take(n as int) =~= events@);
    kept
}

/// The sedentary records that are no more than 180 days older than `now`.
pub fn recent_reminders(events: &Vec<ReminderRecord>, now: i64) -> (kept: Vec<ReminderRecord>)
    ensures
        kept@ == retained_reminders(events@, now as int),
{
    match now.checked_sub(RETENTION_SECS) {
        Some(cutoff) => select_reminders(events, cutoff, false),
        None => {
            proof {
                lemma_filter_keeps_all(events@, reminder_at_or_after(now - RETENTION_SECS));
                lemma_filter_keeps_all(events@, reminder_at_or_after(i64::MIN as int));
            }
            select_reminders(events, i64::MIN, false)
        },
    }
}

/// The stand-ups that are no more than 180 days older than `now`.
pub fn recent_standups(events: &Vec<i64>, now: i64) -> (kept: Vec<i64>)
    ensures
        kept@ == retained_standups(events@, now as int),
{
    match now.checked_sub(RETENTION_SECS) {
        Some(cutoff) => select_stamps(events, cutoff, false),
        None => {
            proof {
                lemma_filter_keeps_all(events@, stamp_at_or_after(now - RETENTION_SECS));
                lemma_filter_keeps_all(events@, stamp_at_or_after(i64::MIN as int));
            }
            select_stamps(events, i64::MIN, false)
        },
    }
}

/// Drops every event older than the retention window that ends at `now`.
///
/// An event stays exactly if its timestamp is no more than 180 days before `now`; the
/// order of those that stay is unchanged.
pub fn prune_old_events(reminders: &mut Vec<ReminderRecord>, standups: &mut Vec<i64>, now: i64)
    ensures
        final(reminders)@ == retained_reminders(old(reminders)@, now as int),
        final(standups)@ == retained_standups(old(standups)@, now as int),
        forall|i: int|
            0 <= i < final(reminders)@.len() ==> (#[trigger] final(reminders)@[i]).ts >= now
                - RETENTION_SECS,
        forall|i: int|
            0 <= i < final(standups)@.len() ==> #[trigger] final(standups)@[i] >= now
                - RETENTION_SECS,
{
    *reminders = recent_reminders(reminders, now);
    *standups = recent_standups(standups, now);
    proof {
        let cutoff = now - RETENTION_SECS;
        assert forall|i: int| 0 <= i < reminders@.len() implies (#[trigger] reminders@[i]).ts
            >= cutoff by {
            old(reminders)@.lemma_filter_pred(reminder_at_or_after(cutoff), i);
        }
        assert forall|i: int| 0 <= i < standups@.len() implies #[trigger] standups@[i]
            >= cutoff by {
            old(standups)@.lemma_filter_pred(stamp_at_or_after(cutoff), i);
        }
    }
}

/// Drops every event at or after `start_ts`, keeping what came before.
pub fn drop_events_since(reminders: &mut Vec<ReminderRecord>, standups: &mut Vec<i64>, start_ts: i64)
    ensures
        final(reminders)@ == old(reminders)@.filter(reminder_before(start_ts as int)),
        final(standups)@ == old(standups)@.filter(stamp_before(start_ts as int)),
{
    *reminders = select_reminders(reminders, start_ts, true);
    *standups = select_stamps(standups, start_ts, true);
}

/// Pruning twice at the same time is the same as pruning once.
pub proof fn lemma_prune_is_idempotent(reminders: Seq<ReminderRecord>, standups: Seq<i64>, now: int)
    ensures
        retained_reminders(retained_reminders(reminders, now), now) == retained_reminders(
            reminders,
            now,
        ),
        retained_standups(retained_standups(standups, now), now) == retained_standups(
            standups,
            now,
        ),
{
    let cutoff = now - RETENTION_SECS;
    let r = retained_reminders(reminders, now);
    assert forall|i: int| 0 <= i < r.len() implies reminder_at_or_after(cutoff)(#[trigger] r[i]) by {
        reminders.lemma_filter_pred(reminder_at_or_after(cutoff), i);
    }
    lemma_filter_keeps_all(r, reminder_at_or_after(cutoff));
    let s = retained_standups(standups, now);
    assert forall|i: int| 0 <= i < s.len() implies stamp_at_or_after(cutoff)(#[trigger] s[i]) by {
        standups.lemma_filter_pred(stamp_at_or_after(cutoff), i);
    }
    lemma_filter_keeps_all(s, stamp_at_or_after(cutoff));
}

} // verus!
