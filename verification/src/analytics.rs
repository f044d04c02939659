//! Hourly analytics over the event log.
//!
//! The events of a reporting period are counted by the hour of the day at
//! which they happened, in local time and whatever their date. Counting
//! changes nothing: the log is read, not pruned.

use crate::events::{
    drop_events_since, prune_old_events, recent_reminders, recent_standups,
    reminder_at_or_after, reminder_before, retained_reminders, retained_standups,
    select_reminders, select_stamps, stamp_at_or_after, stamp_before, AnalyticsStore,
    ReminderRecord, RETENTION_SECS,
};
use crate::period::{current_local_hour, local_hour_or, period_start_ts};
use crate::state::{AppState, StateView};
use vstd::prelude::*;

verus! {

/// Hours in a day, and buckets in each hourly list.
pub const HOURS: usize = 24;

/// The events of a period, counted.
pub struct AnalyticsData {
    /// Sedentary sessions by hour of the day.
    pub hourly_sedentary: Vec<u32>,
    /// Stand-ups by hour of the day.
    pub hourly_standup: Vec<u32>,
    /// Seconds sat in the sedentary sessions, by hour of the day.
    pub hourly_sedentary_delay_secs: Vec<u64>,
    pub standup_sessions: u32,
    pub sedentary_sessions: u32,
    pub total_sitting_secs: u64,
    pub record_count: u32,
}

/// Every hour of the list is an hour of the day.
pub open spec fn hours_in_range(hours: Seq<u32>) -> bool {
    forall|i: int| 0 <= i < hours.len() ==> #[trigger] hours[i] < HOURS
}

/// How many of the first `n` events fall in hour `h`.
pub open spec fn count_in_hour(hours: Seq<u32>, n: nat, h: int) -> nat
    decreases n,
{
    if n == 0 {
        0
    } else {
        count_in_hour(hours, (n - 1) as nat, h) + if hours[n - 1] == h {
            1nat
        } else {
            0nat
        }
    }
}

/// The seconds sat in those of the first `n` sedentary sessions that fall in hour `h`.
pub open spec fn delay_in_hour(events: Seq<ReminderRecord>, hours: Seq<u32>, n: nat, h: int) -> nat
    decreases n,
{
    if n == 0 {
        0
    } else {
        delay_in_hour(events, hours, (n - 1) as nat, h) + if hours[n - 1] == h {
            events[n - 1].duration_secs as nat
        } else {
            0nat
        }
    }
}

/// The seconds sat in all of `events`.
pub open spec fn total_duration(events: Seq<ReminderRecord>) -> nat
    decreases events.len(),
{
    if events.len() == 0 {
        0
    } else {
        total_duration(events.drop_last()) + events.last().duration_secs as nat
    }
}

/// The sum of a list of counts.
pub open spec fn sum_of_counts(buckets: Seq<u32>) -> nat
    decreases buckets.len(),
{
    if buckets.len() == 0 {
        0
    } else {
        sum_of_counts(buckets.drop_last()) + buckets.last() as nat
    }
}

/// The sum of a list of seconds.
pub open spec fn sum_of_seconds(buckets: Seq<u64>) -> nat
    decreases buckets.len(),
{
    if buckets.len() == 0 {
        0
    } else {
        sum_of_seconds(buckets.drop_last()) + buckets.last() as nat
    }
}

/// The counters can hold the events: their number fits 32 bits and the seconds sat
/// fit 64 bits.
pub open spec fn counters_fit(reminders: Seq<ReminderRecord>, standups: Seq<i64>) -> bool {
    &&& reminders.len() + standups.len() <= u32::MAX
    &&& total_duration(reminders) <= u64::MAX
}

impl AnalyticsData {
    /// Each hourly list has its 24 buckets and the record count is the sum of the sessions.
    pub open spec fn wf(self) -> bool {
        &&& self.hourly_sedentary@.len() == HOURS
        &&& self.hourly_standup@.len() == HOURS
        &&& self.hourly_sedentary_delay_secs@.len() == HOURS
        &&& self.record_count == self.sedentary_sessions + self.standup_sessions
    }

    /// Every event is in one bucket: the buckets of each list add up to its total.
    pub open spec fn adds_up(self) -> bool {
        &&& sum_of_counts(self.hourly_sedentary@) == self.sedentary_sessions
        &&& sum_of_counts(self.hourly_standup@) == self.standup_sessions
        &&& sum_of_seconds(self.hourly_sedentary_delay_secs@) == self.total_sitting_secs
    }

    /// These are the counts of `reminders` and `standups`, where `reminder_hours` and
    /// `standup_hours` give the hour of the day of each event, index by index.
    pub open spec fn is_tally_of(
        self,
        reminders: Seq<ReminderRecord>,
        standups: Seq<i64>,
        reminder_hours: Seq<u32>,
        standup_hours: Seq<u32>,
    ) -> bool {
        &&& self.wf()
        &&& forall|h: int|
            0 <= h < HOURS ==> #[trigger] self.hourly_sedentary@[h] == count_in_hour(
                reminder_hours,
                reminders.len(),
                h,
            )
        &&& forall|h: int|
            0 <= h < HOURS ==> #[trigger] self.hourly_standup@[h] == count_in_hour(
                standup_hours,
                standups.len(),
                h,
            )
        &&& forall|h: int|
            0 <= h < HOURS ==> #[trigger] self.hourly_sedentary_delay_secs@[h] == delay_in_hour(
                reminders,
                reminder_hours,
                reminders.len(),
                h,
            )
        &&& self.sedentary_sessions == reminders.len()
        &&& self.standup_sessions == standups.len()
        &&& self.total_sitting_secs == total_duration(reminders)
    }
}

/// No hour holds more events than there are.
pub proof fn lemma_count_in_hour_bound(hours: Seq<u32>, n: nat, h: int)
    ensures
        count_in_hour(hours, n, h) <= n,
    decreases n,
{
    if n > 0 {
        lemma_count_in_hour_bound(hours, (n - 1) as nat, h);
    }
}

/// No hour holds more seconds than the sessions counted so far have in all.
pub proof fn lemma_delay_in_hour_bound(
    events: Seq<ReminderRecord>,
    hours: Seq<u32>,
    n: nat,
    h: int,
)
    requires
        n <= events.len(),
    ensures
        delay_in_hour(events, hours, n, h) <= total_duration(events.take(n as int)),
    decreases n,
{
    if n > 0 {
        lemma_delay_in_hour_bound(events, hours, (n - 1) as nat, h);
        assert(events.take(n as int).drop_last() =~= events.take(n - 1));
    }
}

/// The first events hold no more seconds than all of them.
pub proof fn lemma_total_duration_prefix(events: Seq<ReminderRecord>, n: int)
    requires
        0 <= n <= events.len(),
    ensures
        total_duration(events.take(n)) <= total_duration(events),
    decreases events.len() - n,
{
    if n < events.len() {
        lemma_total_duration_prefix(events, n + 1);
        assert(events.take(n + 1).drop_last() =~= events.take(n));
    } else {
        assert(events.take(n) =~= events);
    }
}

/// A selection of the events holds no more seconds than all of them.
pub proof fn lemma_total_duration_filter(
    events: Seq<ReminderRecord>,
    pred: spec_fn(ReminderRecord) -> bool,
)
    ensures
        total_duration(events.filter(pred)) <= total_duration(events),
        events.filter(pred).len() <= events.len(),
    decreases events.len(),
{
    reveal(Seq::filter);
    if events.len() > 0 {
        lemma_total_duration_filter(events.drop_last(), pred);
        if pred(events.last()) {
            assert(events.drop_last().filter(pred).push(events.last()).drop_last()
                =~= events.drop_last().filter(pred));
        }
    }
}

/// How many of the first `n` events fall in the hours below `k`.
pub open spec fn count_below_hour(hours: Seq<u32>, n: nat, k: nat) -> nat
    decreases k,
{
    if k == 0 {
        0
    } else {
        count_below_hour(hours, n, (k - 1) as nat) + count_in_hour(hours, n, k - 1)
    }
}

/// The seconds sat in those of the first `n` sessions that fall in the hours below `k`.
pub open spec fn delay_below_hour(events: Seq<ReminderRecord>, hours: Seq<u32>, n: nat, k: nat) -> nat
    decreases k,
{
    if k == 0 {
        0
    } else {
        delay_below_hour(events, hours, n, (k - 1) as nat) + delay_in_hour(events, hours, n, k - 1)
    }
}

proof fn lemma_count_below_hour_step(hours: Seq<u32>, n: nat, k: nat)
    requires
        0 < n <= hours.len(),
    ensures
        count_below_hour(hours, n, k) == count_below_hour(hours, (n - 1) as nat, k) + if hours[n
            - 1] < k {
            1nat
        } else {
            0nat
        },
    decreases k,
{
    if k > 0 {
        lemma_count_below_hour_step(hours, n, (k - 1) as nat);
    }
}

proof fn lemma_delay_below_hour_step(events: Seq<ReminderRecord>, hours: Seq<u32>, n: nat, k: nat)
    requires
        0 < n <= hours.len(),
    ensures
        delay_below_hour(events, hours, n, k) == delay_below_hour(
            events,
            hours,
            (n - 1) as nat,
            k,
        ) + if hours[n - 1] < k {
            events[n - 1].duration_secs as nat
        } else {
            0nat
        },
    decreases k,
{
    if k > 0 {
        lemma_delay_below_hour_step(events, hours, n, (k - 1) as nat);
    }
}

proof fn lemma_count_below_hour_empty(hours: Seq<u32>, k: nat)
    ensures
        count_below_hour(hours, 0, k) == 0,
    decreases k,
{
    if k > 0 {
        lemma_count_below_hour_empty(hours, (k - 1) as nat);
    }
}

proof fn lemma_delay_below_hour_empty(events: Seq<ReminderRecord>, hours: Seq<u32>, k: nat)
    ensures
        delay_below_hour(events, hours, 0, k) == 0,
    decreases k,
{
    if k > 0 {
        lemma_delay_below_hour_empty(events, hours, (k - 1) as nat);
    }
}

/// Where every event has an hour of the day, the 24 hours hold all the events between
/// them.
pub proof fn lemma_hours_hold_every_event(hours: Seq<u32>, n: nat)
    requires
        n <= hours.len(),
        hours_in_range(hours),
    ensures
        count_below_hour(hours, n, HOURS as nat) == n,
    decreases n,
{
    if n == 0 {
        lemma_count_below_hour_empty(hours, HOURS as nat);
    } else {
        lemma_hours_hold_every_event(hours, (n - 1) as nat);
        lemma_count_below_hour_step(hours, n, HOURS as nat);
    }
}

/// Where every session has an hour of the day, the 24 hours hold all the seconds sat
/// between them.
pub proof fn lemma_hours_hold_every_second(events: Seq<ReminderRecord>, hours: Seq<u32>, n: nat)
    requires
        n <= hours.len(),
        n <= events.len(),
        hours_in_range(hours),
    ensures
        delay_below_hour(events, hours, n, HOURS as nat) == total_duration(events.take(n as int)),
    decreases n,
{
    if n == 0 {
        lemma_delay_below_hour_empty(events, hours, HOURS as nat);
        assert(events.take(0) =~= Seq::<ReminderRecord>::empty());
    } else {
        lemma_hours_hold_every_second(events, hours, (n - 1) as nat);
        lemma_delay_below_hour_step(events, hours, n, HOURS as nat);
        assert(events.take(n as int).drop_last() =~= events.take(n - 1));
    }
}

proof fn lemma_sum_of_counts(buckets: Seq<u32>, hours: Seq<u32>, n: nat, k: nat)
    requires
        k <= buckets.len(),
        forall|h: int| 0 <= h < k ==> #[trigger] buckets[h] == count_in_hour(hours, n, h),
    ensures
        sum_of_counts(buckets.take(k as int)) == count_below_hour(hours, n, k),
    decreases k,
{
    if k > 0 {
        lemma_sum_of_counts(buckets, hours, n, (k - 1) as nat);
        assert(buckets.take(k as int).drop_last() =~= buckets.take(k - 1));
        assert(buckets.take(k as int).last() == buckets[k - 1]);
    } else {
        assert(buckets.take(0) =~= Seq::<u32>::empty());
    }
}

proof fn lemma_sum_of_seconds(
    buckets: Seq<u64>,
    events: Seq<ReminderRecord>,
    hours: Seq<u32>,
    n: nat,
    k: nat,
)
    requires
        k <= buckets.len(),
        forall|h: int| 0 <= h < k ==> #[trigger] buckets[h] == delay_in_hour(events, hours, n, h),
    ensures
        sum_of_seconds(buckets.take(k as int)) == delay_below_hour(events, hours, n, k),
    decreases k,
{
    if k > 0 {
        lemma_sum_of_seconds(buckets, events, hours, n, (k - 1) as nat);
        assert(buckets.take(k as int).drop_last() =~= buckets.take(k - 1));
        assert(buckets.take(k as int).last() == buckets[k - 1]);
    } else {
        assert(buckets.take(0) =~= Seq::<u64>::empty());
    }
}

/// A tally in which every event has an hour of the day puts every event in a bucket:
/// the buckets add up to the sessions and to the seconds sat.
pub proof fn lemma_tally_adds_up(
    data: AnalyticsData,
    reminders: Seq<ReminderRecord>,
    standups: Seq<i64>,
    reminder_hours: Seq<u32>,
    standup_hours: Seq<u32>,
)
    requires
        data.is_tally_of(reminders, standups, reminder_hours, standup_hours),
        reminder_hours.len() == reminders.len(),
        standup_hours.len() == standups.len(),
        hours_in_range(reminder_hours),
        hours_in_range(standup_hours),
    ensures
        data.adds_up(),
{
    lemma_sum_of_counts(data.hourly_sedentary@, reminder_hours, reminders.len(), HOURS as nat);
    lemma_hours_hold_every_event(reminder_hours, reminders.len());
    assert(data.hourly_sedentary@.take(HOURS as int) =~= data.hourly_sedentary@);
    lemma_sum_of_counts(data.hourly_standup@, standup_hours, standups.len(), HOURS as nat);
    lemma_hours_hold_every_event(standup_hours, standups.len());
    assert(data.hourly_standup@.take(HOURS as int) =~= data.hourly_standup@);
    lemma_sum_of_seconds(
        data.hourly_sedentary_delay_secs@,
        reminders,
        reminder_hours,
        reminders.len(),
        HOURS as nat,
    );
    lemma_hours_hold_every_second(reminders, reminder_hours, reminders.len());
    assert(data.hourly_sedentary_delay_secs@.take(HOURS as int)
        =~= data.hourly_sedentary_delay_secs@);
    assert(reminders.take(reminders.len() as int) =~= reminders);
}

/// Counts events into the hours of the day.
///
/// `reminder_hours` and `standup_hours` give the hour of the day of each event, index by
/// index. Every event counts as a session and falls in the bucket of its hour.
pub fn tally(
    reminders: &Vec<ReminderRecord>,
    standups: &Vec<i64>,
    reminder_hours: &Vec<u32>,
    standup_hours: &Vec<u32>,
) -> (data: AnalyticsData)
    requires
        counters_fit(reminders@, standups@),
        reminder_hours@.len() == reminders@.len(),
        standup_hours@.len() == standups@.len(),
        hours_in_range(reminder_hours@),
        hours_in_range(standup_hours@),
    ensures
        data.is_tally_of(reminders@, standups@, reminder_hours@, standup_hours@),
        data.adds_up(),
{
    let mut hourly_sedentary: Vec<u32> = Vec::new();
    let mut hourly_standup: Vec<u32> = Vec::new();
    let mut hourly_delay: Vec<u64> = Vec::new();
    let mut h: usize = 0;
    while h < HOURS
        invariant
            h <= HOURS,
            hourly_sedentary@.len() == h,
            hourly_standup@.len() == h,
            hourly_delay@.len() == h,
            forall|k: int| 0 <= k < h ==> hourly_sedentary@[k] == 0,
            forall|k: int| 0 <= k < h ==> hourly_standup@[k] == 0,
            forall|k: int| 0 <= k < h ==> hourly_delay@[k] == 0,
        decreases HOURS - h,
    {
        hourly_sedentary.push(0);
        hourly_standup.push(0);
        hourly_delay.push(0);
        h += 1;
    }
    let n = reminders.len();
    let mut total: u64 = 0;
    let mut i: usize = 0;
    assert(reminders@.take(0) =~= Seq::<ReminderRecord>::empty());
    while i < n
        invariant
            i <= n,
            n == reminders@.len(),
            n == reminder_hours@.len(),
            hours_in_range(reminder_hours@),
            n <= u32::MAX,
            total_duration(reminders@) <= u64::MAX,
            hourly_sedentary@.len() == HOURS,
            hourly_delay@.len() == HOURS,
            total == total_duration(reminders@.take(i as int)),
            forall|k: int|
                0 <= k < HOURS ==> #[trigger] hourly_sedentary@[k] == count_in_hour(
                    reminder_hours@,
                    i as nat,
                    k,
                ),
            forall|k: int|
                0 <= k < HOURS ==> #[trigger] hourly_delay@[k] == delay_in_hour(
                    reminders@,
                    reminder_hours@,
                    i as nat,
                    k,
                ),
        decreases n - i,
    {
        let event = reminders[i];
        let slot = reminder_hours[i] as usize;
        proof {
            lemma_total_duration_prefix(reminders@, i + 1);
            assert(reminders@.take(i + 1).drop_last() =~= reminders@.take(i as int));
            lemma_count_in_hour_bound(reminder_hours@, (i + 1) as nat, slot as int);
            lemma_delay_in_hour_bound(reminders@, reminder_hours@, (i + 1) as nat, slot as int);
        }
        hourly_sedentary.set(slot, hourly_sedentary[slot] + 1);
        hourly_delay.set(slot, hourly_delay[slot] + event.duration_secs);
        total = total + event.duration_secs;
        i += 1;
    }
    assert(reminders@.take(n as int) =~= reminders@);
    let m = standups.len();
    let mut j: usize = 0;
    while j < m
        invariant
            j <= m,
            m == standups@.len(),
            m == standup_hours@.len(),
            hours_in_range(standup_hours@),
            m <= u32::MAX,
            hourly_standup@.len() == HOURS,
            forall|k: int|
                0 <= k < HOURS ==> #[trigger] hourly_standup@[k] == count_in_hour(
                    standup_hours@,
                    j as nat,
                    k,
                ),
        decreases m - j,
    {
        let slot = standup_hours[j] as usize;
        proof {
            lemma_count_in_hour_bound(standup_hours@, (j + 1) as nat, slot as int);
        }
        hourly_standup.set(slot, hourly_standup[slot] + 1);
        j += 1;
    }
    let sedentary_sessions = n as u32;
    let standup_sessions = m as u32;
    let data = AnalyticsData {
        hourly_sedentary,
        hourly_standup,
        hourly_sedentary_delay_secs: hourly_delay,
        standup_sessions,
        sedentary_sessions,
        total_sitting_secs: total,
        record_count: sedentary_sessions + standup_sessions,
    };
    proof {
        lemma_tally_adds_up(data, reminders@, standups@, reminder_hours@, standup_hours@);
    }
    data
}

/// The hour of the day of each sedentary session: its local hour, or `now_hour` where
/// it has no local time.
fn reminder_hours_of(events: &Vec<ReminderRecord>, now_hour: u32) -> (hours: Vec<u32>)
    requires
        now_hour < HOURS,
    ensures
        hours@.len() == events@.len(),
        hours_in_range(hours@),
{
    let mut hours: Vec<u32> = Vec::new();
    let n = events.len();
    let mut i: usize = 0;
    while i < n
        invariant
            i <= n,
            n == events@.len(),
            now_hour < HOURS,
            hours@.len() == i,
            hours_in_range(hours@),
        decreases n - i,
    {
        hours.push(local_hour_or(events[i].ts, now_hour));
        i += 1;
    }
    hours
}

/// The hour of the day of each stand-up: its local hour, or `now_hour` where it has no
/// local time.
fn standup_hours_of(events: &Vec<i64>, now_hour: u32) -> (hours: Vec<u32>)
    requires
        now_hour < HOURS,
    ensures
        hours@.len() == events@.len(),
        hours_in_range(hours@),
{
    let mut hours: Vec<u32> = Vec::new();
    let n = events.len();
    let mut i: usize = 0;
    while i < n
        invariant
            i <= n,
            n == events@.len(),
            now_hour < HOURS,
            hours@.len() == i,
            hours_in_range(hours@),
        decreases n - i,
    {
        hours.push(local_hour_or(events[i], now_hour));
        i += 1;
    }
    hours
}

/// The state with every event that is too old at time `now` dropped from the log.
pub open spec fn pruned(s: StateView, now: int) -> StateView {
    StateView {
        reminder_events: retained_reminders(s.reminder_events, now),
        standup_events: retained_standups(s.standup_events, now),
        ..s
    }
}

/// `data` counts the events of the log of `s` at or after the instant `start`, each in
/// one hour of the day.
///
/// The hours are the local ones; they depend on the machine's time zone, so the
/// contracts leave them open.
pub open spec fn is_tally_since(data: AnalyticsData, s: StateView, start: int) -> bool {
    exists|reminder_hours: Seq<u32>, standup_hours: Seq<u32>|
        {
            &&& #[trigger] data.is_tally_of(
                s.reminder_events.filter(reminder_at_or_after(start)),
                s.standup_events.filter(stamp_at_or_after(start)),
                reminder_hours,
                standup_hours,
            )
            &&& reminder_hours.len() == s.reminder_events.filter(reminder_at_or_after(start)).len()
            &&& standup_hours.len() == s.standup_events.filter(stamp_at_or_after(start)).len()
            &&& hours_in_range(reminder_hours)
            &&& hours_in_range(standup_hours)
        }
}

/// `data` counts the events of the log of `s` at or after one instant, each in one hour
/// of the day.
///
/// The instant is where the period starts; it depends on the machine's time zone, so the
/// contracts leave it open.
pub open spec fn is_period_tally(data: AnalyticsData, s: StateView) -> bool {
    exists|start: int| #[trigger] is_tally_since(data, s, start)
}

/// `count` is the number of stand-ups in the log of `s` at or after one instant.
pub open spec fn is_standup_count(count: u32, s: StateView) -> bool {
    exists|start: int| count == (#[trigger] s.standup_events.filter(stamp_at_or_after(start))).len()
}

/// A tally since an instant counts exactly the events at or after it, and every one of
/// them in a bucket.
pub proof fn lemma_tally_since_counts(data: AnalyticsData, s: StateView, start: int)
    requires
        is_tally_since(data, s, start),
    ensures
        data.wf(),
        data.adds_up(),
        data.sedentary_sessions == s.reminder_events.filter(reminder_at_or_after(start)).len(),
        data.standup_sessions == s.standup_events.filter(stamp_at_or_after(start)).len(),
        data.total_sitting_secs == total_duration(
            s.reminder_events.filter(reminder_at_or_after(start)),
        ),
        data.sedentary_sessions <= s.reminder_events.len(),
        data.standup_sessions <= s.standup_events.len(),
{
    let (reminder_hours, standup_hours) = choose|
        reminder_hours: Seq<u32>,
        standup_hours: Seq<u32>,
    |
        {
            &&& #[trigger] data.is_tally_of(
                s.reminder_events.filter(reminder_at_or_after(start)),
                s.standup_events.filter(stamp_at_or_after(start)),
                reminder_hours,
                standup_hours,
            )
            &&& reminder_hours.len() == s.reminder_events.filter(reminder_at_or_after(start)).len()
            &&& standup_hours.len() == s.standup_events.filter(stamp_at_or_after(start)).len()
            &&& hours_in_range(reminder_hours)
            &&& hours_in_range(standup_hours)
        };
    lemma_tally_adds_up(
        data,
        s.reminder_events.filter(reminder_at_or_after(start)),
        s.standup_events.filter(stamp_at_or_after(start)),
        reminder_hours,
        standup_hours,
    );
    s.standup_events.lemma_filter_len(stamp_at_or_after(start));
    s.reminder_events.lemma_filter_len(reminder_at_or_after(start));
}

/// A period tally is well formed, puts every event in a bucket, and its stand-up
/// sessions are a stand-up count.
pub proof fn lemma_period_tally_counts(data: AnalyticsData, s: StateView)
    requires
        is_period_tally(data, s),
    ensures
        is_standup_count(data.standup_sessions, s),
        data.wf(),
        data.adds_up(),
        data.sedentary_sessions <= s.reminder_events.len(),
        data.standup_sessions <= s.standup_events.len(),
{
    let start = choose|start: int| #[trigger] is_tally_since(data, s, start);
    lemma_tally_since_counts(data, s, start);
    assert(data.standup_sessions == s.standup_events.filter(stamp_at_or_after(start)).len());
}

/// A window that starts at `start` takes in the event at `start` itself, and leaves out
/// the one a second before: of stand-ups a second before the start, at the start and at
/// a later `now`, the last two are counted.
pub proof fn lemma_window_start_is_inclusive(start: i64, now: i64)
    requires
        i64::MIN < start <= now,
    ensures
        seq![(start - 1) as i64, start, now].filter(stamp_at_or_after(start as int)) == seq![
            start,
            now,
        ],
{
    let pred = stamp_at_or_after(start as int);
    let before = (start - 1) as i64;
    let empty = Seq::<i64>::empty();
    assert(empty.filter(pred) =~= empty) by {
        reveal(Seq::filter);
    }
    empty.lemma_filter_push(before, pred);
    empty.push(before).lemma_filter_push(start, pred);
    empty.push(before).push(start).lemma_filter_push(now, pred);
    assert(empty.push(before).push(start).push(now) =~= seq![before, start, now]);
    assert(empty.push(start).push(now) =~= seq![start, now]);
}

/// Whether the counters can hold the events.
pub fn totals_fit(reminders: &Vec<ReminderRecord>, standups: &Vec<i64>) -> (fit: bool)
    ensures
        fit == counters_fit(reminders@, standups@),
{
    let n = reminders.len();
    let m = standups.len();
    if n > 0xffff_ffff || m > 0xffff_ffff - n {
        return false;
    }
    let mut total: u64 = 0;
    let mut i: usize = 0;
    assert(reminders@.take(0) =~= Seq::<ReminderRecord>::empty());
    while i < n
        invariant
            i <= n,
            n == reminders@.len(),
            total == total_duration(reminders@.take(i as int)),
        decreases n - i,
    {
        proof {
            lemma_total_duration_prefix(reminders@, i + 1);
            assert(reminders@.take(i + 1).drop_last() =~= reminders@.take(i as int));
        }
        match total.checked_add(reminders[i].duration_secs) {
            Some(sum) => {
                total = sum;
            },
            None => {
                return false;
            },
        }
        i += 1;
    }
    assert(reminders@.take(n as int) =~= reminders@);
    true
}

/// The analytics of the events at or after the instant `start_ts`, for a user whose
/// clock reads `now`.
///
/// The log is only read. Exactly the events with a timestamp of `start_ts` or later are
/// counted, each as a session and each in the bucket of one hour: the hour of the day
/// that it has in local time, or the hour that the clock shows now where it has none.
/// Which hour that is depends on the machine's time zone.
pub fn build_analytics_since(state: &AppState, start_ts: i64, now: i64) -> (data: AnalyticsData)
    requires
        counters_fit(state@.reminder_events, state@.standup_events),
    ensures
        is_tally_since(data, state@, start_ts as int),
        data.wf(),
        data.adds_up(),
        data.sedentary_sessions == state@.reminder_events.filter(
            reminder_at_or_after(start_ts as int),
        ).len(),
        data.standup_sessions == state@.standup_events.filter(
            stamp_at_or_after(start_ts as int),
        ).len(),
        data.total_sitting_secs == total_duration(
            state@.reminder_events.filter(reminder_at_or_after(start_ts as int)),
        ),
{
    let reminders = select_reminders(&state.reminder_events, start_ts, false);
    let standups = select_stamps(&state.standup_events, start_ts, false);
    proof {
        lemma_total_duration_filter(state@.reminder_events, reminder_at_or_after(start_ts as int));
        state@.standup_events.lemma_filter_len(stamp_at_or_after(start_ts as int));
    }
    let now_hour = current_local_hour(now);
    let reminder_hours = reminder_hours_of(&reminders, now_hour);
    let standup_hours = standup_hours_of(&standups, now_hour);
    let data = tally(&reminders, &standups, &reminder_hours, &standup_hours);
    assert(data.is_tally_of(
        state@.reminder_events.filter(reminder_at_or_after(start_ts as int)),
        state@.standup_events.filter(stamp_at_or_after(start_ts as int)),
        reminder_hours@,
        standup_hours@,
    ));
    data
}

/// The analytics of the period that `period` names, for a user whose clock reads `now`.
///
/// The log is only read. The events at or after the start of the period are counted,
/// each in the hour of the day that it has in local time. Where the period starts
/// depends on the machine's time zone: whatever it is, the result is the tally of the
/// events at or after one instant.
pub fn build_analytics_for_period(state: &AppState, period: &str, now: i64) -> (data: AnalyticsData)
    requires
        counters_fit(state@.reminder_events, state@.standup_events),
    ensures
        is_period_tally(data, state@),
        data.wf(),
        data.adds_up(),
        data.sedentary_sessions <= state@.reminder_events.len(),
        data.standup_sessions <= state@.standup_events.len(),
{
    let start_ts = period_start_ts(period, now);
    let data = build_analytics_since(state, start_ts, now);
    proof {
        assert(is_tally_since(data, state@, start_ts as int));
        lemma_period_tally_counts(data, state@);
    }
    data
}

/// The analytics of today.
pub fn build_analytics(state: &AppState, now: i64) -> (data: AnalyticsData)
    requires
        counters_fit(state@.reminder_events, state@.standup_events),
    ensures
        is_period_tally(data, state@),
        data.wf(),
        data.adds_up(),
        data.sedentary_sessions <= state@.reminder_events.len(),
        data.standup_sessions <= state@.standup_events.len(),
{
    build_analytics_for_period(state, "daily", now)
}

/// The analytics of the period that `period` names; of today where none is named.
pub fn get_analytics(state: &AppState, period: Option<&str>, now: i64) -> (data: AnalyticsData)
    requires
        counters_fit(state@.reminder_events, state@.standup_events),
    ensures
        is_period_tally(data, state@),
        data.wf(),
        data.adds_up(),
        data.sedentary_sessions <= state@.reminder_events.len(),
        data.standup_sessions <= state@.standup_events.len(),
{
    match period {
        Some(name) => build_analytics_for_period(state, name, now),
        None => build_analytics_for_period(state, "daily", now),
    }
}

/// The number of stand-ups of today.
pub fn get_standup_count(state: &AppState, now: i64) -> (count: u32)
    requires
        counters_fit(state@.reminder_events, state@.standup_events),
    ensures
        is_standup_count(count, state@),
        count <= state@.standup_events.len(),
{
    let data = build_analytics(state, now);
    proof {
        lemma_period_tally_counts(data, state@);
    }
    data.standup_sessions
}

/// The state after a stand-up was logged at time `now` without a reminder.
pub open spec fn with_standup_logged(s: StateView, now: i64) -> StateView {
    StateView {
        elapsed: 0,
        reminder_visible: false,
        standup_events: s.standup_events.push(now),
        ..s
    }
}

/// Logs a stand-up that the user reports on their own: the countdown starts over and a
/// reminder on screen is no longer waited for. Returns the number of stand-ups of today.
pub fn log_standup(state: &mut AppState, now: i64) -> (count: u32)
    requires
        counters_fit(old(state)@.reminder_events, old(state)@.standup_events.push(now)),
    ensures
        final(state)@ == with_standup_logged(old(state)@, now),
        is_standup_count(count, final(state)@),
        count <= final(state)@.standup_events.len(),
        old(state)@.wf() ==> final(state)@.wf(),
{
    state.elapsed = 0;
    state.reminder_visible = false;
    state.standup_events.push(now);
    get_standup_count(state, now)
}

/// The state with every event at or after `start` dropped from the log.
pub open spec fn without_events_since(s: StateView, start: int) -> StateView {
    StateView {
        reminder_events: s.reminder_events.filter(reminder_before(start)),
        standup_events: s.standup_events.filter(stamp_before(start)),
        ..s
    }
}

/// Drops today's records: every event at or after the start of the daily period.
///
/// Where today starts depends on the machine's time zone; the instant that was taken is
/// returned.
pub fn reset_daily_records(state: &mut AppState, now: i64) -> (start: i64)
    ensures
        final(state)@ == without_events_since(old(state)@, start as int),
{
    let start = period_start_ts("daily", now);
    drop_events_since(&mut state.reminder_events, &mut state.standup_events, start);
    start
}

/// The stored log that is loaded: the primary document if there is one, else the one
/// of the former installation, else an empty log.
pub open spec fn chosen_log(primary: Option<AnalyticsStore>, legacy: Option<AnalyticsStore>) -> (
    Seq<ReminderRecord>,
    Seq<i64>,
) {
    match primary {
        Some(store) => (store.reminder_events@, store.standup_events@),
        None => match legacy {
            Some(store) => (store.reminder_events@, store.standup_events@),
            None => (Seq::empty(), Seq::empty()),
        },
    }
}

/// The state with the log replaced by the stored one that is loaded, pruned at time
/// `now`.
pub open spec fn with_loaded_log(
    s: StateView,
    primary: Option<AnalyticsStore>,
    legacy: Option<AnalyticsStore>,
    now: int,
) -> StateView {
    StateView {
        reminder_events: retained_reminders(chosen_log(primary, legacy).0, now),
        standup_events: retained_standups(chosen_log(primary, legacy).1, now),
        ..s
    }
}

/// Takes over the stored event log, pruned at time `now`.
///
/// `primary` is the document at the current location and `legacy` the one of the former
/// installation; each is `None` when it is missing or cannot be parsed. With neither, the
/// log is empty afterwards.
pub fn load_analytics(
    state: &mut AppState,
    primary: Option<AnalyticsStore>,
    legacy: Option<AnalyticsStore>,
    now: i64,
)
    ensures
        final(state)@ == with_loaded_log(old(state)@, primary, legacy, now as int),
        primary is None && legacy is None ==> final(state)@.reminder_events.len() == 0
            && final(state)@.standup_events.len() == 0,
{
    let chosen = match primary {
        Some(store) => Some(store),
        None => legacy,
    };
    match chosen {
        Some(store) => {
            state.reminder_events = recent_reminders(&store.reminder_events, now);
            state.standup_events = recent_standups(&store.standup_events, now);
        },
        None => {
            state.reminder_events = Vec::new();
            state.standup_events = Vec::new();
            proof {
                let none = Seq::<ReminderRecord>::empty();
                assert(retained_reminders(none, now as int) =~= none) by {
                    reveal(Seq::filter);
                }
                let nothing = Seq::<i64>::empty();
                assert(retained_standups(nothing, now as int) =~= nothing) by {
                    reveal(Seq::filter);
                }
            }
        },
    }
}

/// Prunes the log at time `now` and returns it as it is written to storage.
///
/// Afterwards neither the log in memory nor the returned one holds an event that is
/// more than 180 days older than `now`; the events that stay are unchanged and in their
/// order.
pub fn save_analytics(state: &mut AppState, now: i64) -> (store: AnalyticsStore)
    ensures
        final(state)@ == pruned(old(state)@, now as int),
        store.reminder_events@ == final(state)@.reminder_events,
        store.standup_events@ == final(state)@.standup_events,
        forall|i: int|
            0 <= i < store.reminder_events@.len() ==> (#[trigger] store.reminder_events@[i]).ts
                >= now - RETENTION_SECS,
        forall|i: int|
            0 <= i < store.standup_events@.len() ==> #[trigger] store.standup_events@[i] >= now
                - RETENTION_SECS,
{
    let store = AnalyticsStore {
        reminder_events: recent_reminders(&state.reminder_events, now),
        standup_events: recent_standups(&state.standup_events, now),
    };
    prune_old_events(&mut state.reminder_events, &mut state.standup_events, now);
    store
}

} // verus!
