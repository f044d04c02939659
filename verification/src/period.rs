//! Reporting periods and the local calendar.
//!
//! A period starts at a local midnight. Which instant that is depends on the
//! machine's time zone, so the calendar itself is left to `chrono`; what is
//! decided here is which date a period starts on and which instant to take
//! when the local midnight is ambiguous or does not exist.

use crate::text::str_eq;
use chrono::{
    Datelike, Local, MappedLocalTime, NaiveDate, TimeDelta, TimeZone, Timelike,
};
use vstd::prelude::*;

verus! {

/// Days that a weekly period reaches back from today.
pub const WEEK_REACH_DAYS: u32 = 6;

/// A day of the calendar, as year, month (from 1) and day of the month (from 1).
#[derive(Clone, Copy, Debug, PartialEq, Eq)]
pub struct CalendarDate {
    pub year: i32,
    pub month: u32,
    pub day: u32,
}

/// The instants, in seconds since the Unix epoch, that a local date and time stands
/// for in the machine's time zone.
#[derive(Clone, Copy, Debug, PartialEq, Eq)]
pub enum LocalMapping {
    /// Exactly one instant.
    Single(i64),
    /// Two instants, where the clock was set back: the earlier one first.
    Ambiguous(i64, i64),
    /// No instant, where the clock was set forward or the date does not exist.
    Missing,
}

impl LocalMapping {
    /// The instant, if there is exactly one.
    pub open spec fn single(self) -> Option<i64> {
        match self {
            LocalMapping::Single(ts) => Some(ts),
            _ => None,
        }
    }

    /// The earliest of the instants, if there is any.
    pub open spec fn earliest(self) -> Option<i64> {
        match self {
            LocalMapping::Single(ts) => Some(ts),
            LocalMapping::Ambiguous(first, _) => Some(first),
            LocalMapping::Missing => None,
        }
    }

    /// The latest of the instants, if there is any.
    pub open spec fn latest(self) -> Option<i64> {
        match self {
            LocalMapping::Single(ts) => Some(ts),
            LocalMapping::Ambiguous(_, second) => Some(second),
            LocalMapping::Missing => None,
        }
    }
}

/// The hours of the day, from 0 to 23, that an instant has in local time in the
/// machine's time zone.
#[derive(Clone, Copy, Debug, PartialEq, Eq)]
pub enum LocalHour {
    /// Exactly one local time.
    Single(u32),
    /// Two local times: the earlier one first.
    Ambiguous(u32, u32),
    /// No local time.
    Missing,
}

impl LocalHour {
    /// The hour, if there is exactly one local time.
    pub open spec fn single(self) -> Option<u32> {
        match self {
            LocalHour::Single(hour) => Some(hour),
            _ => None,
        }
    }

    /// The hour of the earliest local time, if there is any.
    pub open spec fn earliest(self) -> Option<u32> {
        match self {
            LocalHour::Single(hour) => Some(hour),
            LocalHour::Ambiguous(first, _) => Some(first),
            LocalHour::Missing => None,
        }
    }

    /// The hour of the latest local time, if there is any.
    pub open spec fn latest(self) -> Option<u32> {
        match self {
            LocalHour::Single(hour) => Some(hour),
            LocalHour::Ambiguous(_, second) => Some(second),
            LocalHour::Missing => None,
        }
    }

    /// Every hour that is there is an hour of the day.
    pub open spec fn is_in_range(self) -> bool {
        match self {
            LocalHour::Single(hour) => hour < 24,
            LocalHour::Ambiguous(first, second) => first < 24 && second < 24,
            LocalHour::Missing => true,
        }
    }
}

/// The hour taken for an instant: that of its only local time if there is just one,
/// else that of the earliest, else that of the latest, else `fallback`. An hour past 23
/// counts as not there.
pub open spec fn resolved_hour(mapping: LocalHour, fallback: u32) -> u32 {
    if mapping.single() is Some && mapping.single()->0 < 24 {
        mapping.single()->0
    } else if mapping.earliest() is Some && mapping.earliest()->0 < 24 {
        mapping.earliest()->0
    } else if mapping.latest() is Some && mapping.latest()->0 < 24 {
        mapping.latest()->0
    } else {
        fallback
    }
}

/// Settles on one hour of the day for an instant, falling back to `fallback`.
pub fn resolve_hour(mapping: LocalHour, fallback: u32) -> (hour: u32)
    ensures
        hour == resolved_hour(mapping, fallback),
        fallback < 24 ==> hour < 24,
{
    match mapping {
        LocalHour::Single(only) => {
            if only < 24 {
                only
            } else {
                fallback
            }
        },
        LocalHour::Ambiguous(first, second) => {
            if first < 24 {
                first
            } else if second < 24 {
                second
            } else {
                fallback
            }
        },
        LocalHour::Missing => fallback,
    }
}

/// The hour of the day of the instant `ts` in universal time.
pub open spec fn universal_hour(ts: int) -> int {
    (ts % 86_400) / 3_600
}

/// The hour of the day of the instant `ts` in universal time.
pub fn universal_hour_of(ts: i64) -> (hour: u32)
    ensures
        hour == universal_hour(ts as int),
        hour < 24,
{
    let days: i128 = 106_751_991_167_301;
    let shifted: i128 = ts as i128 + days * 86_400;
    assert(shifted % 86_400 == (ts as int) % 86_400) by {
        vstd::arithmetic::div_mod::lemma_mod_multiples_vanish(
            106_751_991_167_301,
            ts as int,
            86_400,
        );
    }
    ((shifted % 86_400) / 3_600) as u32
}

/// First year of the calendar that `chrono` keeps.
pub const EARLIEST_YEAR: i32 = -262_143;

/// Last year of the calendar that `chrono` keeps.
pub const LATEST_YEAR: i32 = 262_142;

/// The first instant that has a date: the start of the first day of [`EARLIEST_YEAR`]
/// in universal time, in seconds since the Unix epoch.
pub const EARLIEST_DATED_TS: i64 = -8_334_601_228_800;

/// The last instant that has a date: the last second of the last day of
/// [`LATEST_YEAR`] in universal time, in seconds since the Unix epoch.
pub const LATEST_DATED_TS: i64 = 8_210_266_876_799;

/// Whether the instant `ts` lies in the span of time that has dates.
pub open spec fn is_dated_instant(ts: int) -> bool {
    EARLIEST_DATED_TS <= ts <= LATEST_DATED_TS
}

/// Whether `year` has a 29th of February in the proleptic Gregorian calendar.
pub open spec fn is_leap_year(year: int) -> bool {
    year % 4 == 0 && (year % 100 != 0 || year % 400 == 0)
}

/// The number of days of a month of the proleptic Gregorian calendar.
pub open spec fn days_in_month(year: int, month: int) -> int {
    if month == 2 {
        if is_leap_year(year) {
            29
        } else {
            28
        }
    } else if month == 4 || month == 6 || month == 9 || month == 11 {
        30
    } else {
        31
    }
}

/// Whether `date` is a day that the calendar has: a year in its range, a month from 1 to
/// 12, and a day from 1 to the length of that month.
pub open spec fn is_calendar_date(date: CalendarDate) -> bool {
    &&& EARLIEST_YEAR <= date.year <= LATEST_YEAR
    &&& 1 <= date.month <= 12
    &&& 1 <= date.day <= days_in_month(date.year as int, date.month as int)
}

/// The period that `period` selects: weekly and monthly by their names, daily for
/// anything else.
pub open spec fn normalized_period(period: Seq<char>) -> Seq<char> {
    if period == "weekly"@ {
        "weekly"@
    } else if period == "monthly"@ {
        "monthly"@
    } else {
        "daily"@
    }
}

/// Maps any text to the name of a period.
pub fn normalize_period(period: &str) -> (normalized: &'static str)
    ensures
        normalized@ == normalized_period(period@),
{
    if str_eq(period, "weekly") {
        "weekly"
    } else if str_eq(period, "monthly") {
        "monthly"
    } else {
        "daily"
    }
}

/// A period's name is its own normal form.
pub proof fn lemma_normalize_period_is_idempotent(period: Seq<char>)
    ensures
        normalized_period(normalized_period(period)) == normalized_period(period),
{
    reveal_strlit("weekly");
    reveal_strlit("monthly");
    reveal_strlit("daily");
}

/// The instant taken for a local date and time: the only one if there is just one, else
/// the earliest, else the latest, else `now`.
pub open spec fn resolved_instant(mapping: LocalMapping, now: i64) -> i64 {
    if mapping.single() is Some {
        mapping.single()->0
    } else if mapping.earliest() is Some {
        mapping.earliest()->0
    } else if mapping.latest() is Some {
        mapping.latest()->0
    } else {
        now
    }
}

/// Settles on one instant for a local date and time, falling back to `now`.
pub fn resolve_local(mapping: LocalMapping, now: i64) -> (ts: i64)
    ensures
        ts == resolved_instant(mapping, now),
{
    match mapping {
        LocalMapping::Single(only) => only,
        LocalMapping::Ambiguous(first, _) => first,
        LocalMapping::Missing => now,
    }
}

/// The day before `date`.
pub open spec fn previous_day(date: CalendarDate) -> CalendarDate {
    if date.day > 1 {
        CalendarDate { year: date.year, month: date.month, day: (date.day - 1) as u32 }
    } else if date.month > 1 {
        CalendarDate {
            year: date.year,
            month: (date.month - 1) as u32,
            day: days_in_month(date.year as int, date.month - 1) as u32,
        }
    } else {
        CalendarDate { year: (date.year - 1) as i32, month: 12, day: 31 }
    }
}

/// The date `days` days before `date`; none where `date` is no day of the calendar or
/// the calendar does not reach that far back.
pub open spec fn calendar_days_before(date: CalendarDate, days: nat) -> Option<CalendarDate>
    decreases days,
{
    if !is_calendar_date(date) {
        None
    } else if days == 0 {
        Some(date)
    } else {
        calendar_days_before(previous_day(date), (days - 1) as nat)
    }
}

/// Past the first week of a month, six days earlier is six less in the same month.
pub proof fn lemma_week_reach_within_month(date: CalendarDate)
    requires
        is_calendar_date(date),
        date.day > WEEK_REACH_DAYS,
    ensures
        calendar_days_before(date, WEEK_REACH_DAYS as nat) == Some(
            CalendarDate {
                year: date.year,
                month: date.month,
                day: (date.day - WEEK_REACH_DAYS) as u32,
            },
        ),
{
    reveal_with_fuel(calendar_days_before, 7);
}

/// The date on which a period starts, given today's date and the date six days before
/// it: that earlier date for a weekly period, the first of today's month for a monthly
/// one, today for a daily one.
pub open spec fn period_anchor(
    period: Seq<char>,
    today: CalendarDate,
    week_ago: Option<CalendarDate>,
) -> Option<CalendarDate> {
    if normalized_period(period) == "weekly"@ {
        week_ago
    } else if normalized_period(period) == "monthly"@ {
        Some(CalendarDate { year: today.year, month: today.month, day: 1 })
    } else {
        Some(today)
    }
}

/// `NaiveDate::checked_sub_signed` of `chrono`, on the date that `NaiveDate::from_ymd_opt`
/// makes of `date` and the span that `TimeDelta::try_days` makes of `days`, read back by
/// `year`, `month` and `day`: the date that many days earlier in the proleptic Gregorian
/// calendar, or `None` where `date` is no day of the calendar or the result is out of
/// its range.
#[verifier::external_body]
fn days_before(date: CalendarDate, days: u32) -> (earlier: Option<CalendarDate>)
    ensures
        earlier == calendar_days_before(date, days as nat),
{
    let day = NaiveDate::from_ymd_opt(date.year, date.month, date.day)?;
    let earlier = day.checked_sub_signed(TimeDelta::try_days(i64::from(days))?)?;
    Some(CalendarDate { year: earlier.year(), month: earlier.month(), day: earlier.day() })
}

/// `TimeZone::timestamp_opt` of `chrono::Local`, then `year`, `month` and `day` of the
/// local date and time: the local calendar date at the instant `ts`, or `None` where
/// `chrono` has no date for it. The date depends on the machine's time zone; `chrono`
/// documents the month as 1 to 12 and the day as 1 to 31. There is no date for an
/// instant outside the span from `DateTime::MIN_UTC` to `DateTime::MAX_UTC`, for which
/// `timestamp_opt` is documented to return `MappedLocalTime::None`. (`chrono` panics
/// where the machine's zone data holds an offset of a day or more.)
#[verifier::external_body]
fn local_date_of(ts: i64) -> (date: Option<CalendarDate>)
    ensures
        date is Some ==> 1 <= date->0.month <= 12 && 1 <= date->0.day <= 31,
        !is_dated_instant(ts as int) ==> date is None,
{
    let local = Local.timestamp_opt(ts, 0).single()?;
    Some(CalendarDate { year: local.year(), month: local.month(), day: local.day() })
}

/// `TimeZone::timestamp_opt` of `chrono::Local`, with each local time read by `hour`:
/// the hours of the day that the instant `ts` has in local time. The hours depend on the
/// machine's time zone; `chrono` documents an hour as 0 to 23, and `timestamp_opt` as
/// giving nothing for an instant outside the span from `DateTime::MIN_UTC` to
/// `DateTime::MAX_UTC`. (`chrono` panics where the machine's zone data holds an offset
/// of a day or more.)
#[verifier::external_body]
fn local_hour_mapping(ts: i64) -> (mapping: LocalHour)
    ensures
        mapping.is_in_range(),
        !is_dated_instant(ts as int) ==> mapping is Missing,
{
    match Local.timestamp_opt(ts, 0) {
        MappedLocalTime::Single(only) => LocalHour::Single(only.hour()),
        MappedLocalTime::Ambiguous(first, second) => LocalHour::Ambiguous(
            first.hour(),
            second.hour(),
        ),
        MappedLocalTime::None => LocalHour::Missing,
    }
}

/// `TimeZone::from_local_datetime` of `chrono::Local` at the time `hour`:`minute`:`second`
/// of `date`, with each instant read by `timestamp`. The mapping is `Missing` where
/// `NaiveDate::from_ymd_opt` has no such date, which it documents for a day that the
/// calendar does not have, for a month or a day that is out of range, and for a year out
/// of range; and where `NaiveDate::and_hms_opt` has no such time. Nothing is claimed of
/// the instants: they depend on the machine's time zone. (`chrono` panics where the
/// machine's zone data holds an offset of a day or more.)
#[verifier::external_body]
fn local_mapping_of(date: CalendarDate, hour: u32, minute: u32, second: u32) -> (mapping:
    LocalMapping)
    ensures
        !is_calendar_date(date) ==> mapping is Missing,
{
    let day = match NaiveDate::from_ymd_opt(date.year, date.month, date.day) {
        Some(day) => day,
        None => return LocalMapping::Missing,
    };
    let naive = match day.and_hms_opt(hour, minute, second) {
        Some(naive) => naive,
        None => return LocalMapping::Missing,
    };
    match Local.from_local_datetime(&naive) {
        MappedLocalTime::Single(only) => LocalMapping::Single(only.timestamp()),
        MappedLocalTime::Ambiguous(a, b) => LocalMapping::Ambiguous(a.timestamp(), b.timestamp()),
        MappedLocalTime::None => LocalMapping::Missing,
    }
}

/// The date on which the period that `period` names starts, given today's date and the
/// date six days before it, if there is one.
pub fn period_anchor_with(period: &str, today: CalendarDate, week_ago: Option<CalendarDate>) -> (anchor:
    Option<CalendarDate>)
    ensures
        anchor == period_anchor(period@, today, week_ago),
        normalized_period(period@) != "weekly"@ ==> anchor is Some,
{
    let p = normalize_period(period);
    if str_eq(p, "weekly") {
        week_ago
    } else if str_eq(p, "monthly") {
        Some(CalendarDate { year: today.year, month: today.month, day: 1 })
    } else {
        Some(today)
    }
}

/// The date on which the period that `period` names starts, seen from `today`.
///
/// A weekly period starts six calendar days before today, so that it spans seven days
/// with today; there is no such date only where today is no day of the calendar or lies
/// at the very start of the calendar's range.
pub fn period_anchor_date(period: &str, today: CalendarDate) -> (anchor: Option<CalendarDate>)
    ensures
        anchor == period_anchor(
            period@,
            today,
            calendar_days_before(today, WEEK_REACH_DAYS as nat),
        ),
        normalized_period(period@) != "weekly"@ ==> anchor is Some,
{
    period_anchor_with(period, today, days_before(today, WEEK_REACH_DAYS))
}

/// The hour of the day that the instant `ts` has in local time; `fallback` if it has no
/// local time.
///
/// Where the clock is set back and the instant has two local times, it is the hour of
/// the earlier one. An instant outside the span of time that has dates has no local
/// time, so for it the result is `fallback` on every machine; for any other instant the
/// hour depends on the machine's time zone.
pub fn local_hour_or(ts: i64, fallback: u32) -> (hour: u32)
    ensures
        fallback < 24 ==> hour < 24,
        !is_dated_instant(ts as int) ==> hour == fallback,
{
    resolve_hour(local_hour_mapping(ts), fallback)
}

/// The hour of the day that a clock reading `now` shows: the local one, or the one in
/// universal time where `now` has no local time.
pub fn current_local_hour(now: i64) -> (hour: u32)
    ensures
        hour < 24,
        !is_dated_instant(now as int) ==> hour == universal_hour(now as int),
{
    local_hour_or(now, universal_hour_of(now))
}

/// The instant of local midnight on `date`; `now` if the local time has no such instant.
///
/// Where the clock is set back over midnight and there are two such instants, it is the
/// earlier one. A date that the calendar does not have has no midnight, so for it the
/// result is `now` on every machine; for any other date the instant depends on the
/// machine's time zone.
pub fn local_midnight_ts(date: CalendarDate, now: i64) -> (ts: i64)
    ensures
        !is_calendar_date(date) ==> ts == now,
{
    resolve_local(local_mapping_of(date, 0, 0, 0), now)
}

/// The instant at which the period that `period` names starts, for a user whose clock
/// reads `now`: local midnight of the period's first day. Where the local date of `now` or
/// that midnight cannot be had, it is `now` itself.
///
/// An instant outside the span of time that has dates has no local date, so for it the
/// result is `now` on every machine; for any other instant it depends on the machine's
/// time zone.
pub fn period_start_ts(period: &str, now: i64) -> (ts: i64)
    ensures
        !is_dated_instant(now as int) ==> ts == now,
{
    match local_date_of(now) {
        Some(today) => match period_anchor_date(period, today) {
            Some(anchor) => local_midnight_ts(anchor, now),
            None => now,
        },
        None => now,
    }
}

} // verus!
