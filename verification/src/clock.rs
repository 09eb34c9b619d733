//! The local wall clock.

use chrono::{Datelike, Local, TimeZone, Timelike, Utc};
use vstd::prelude::*;

verus! {

/// The greatest number of whole seconds in a `u64` of nanoseconds.
pub const MAX_CLOCK_SECS: i64 = 18_446_744_073;

/// `TimeZone::timestamp_opt` of chrono's `Local`, then `Timelike::hour` and `Timelike::minute`:
/// the local hour and minute of an instant, where it is one instant of the calendar. Every
/// instant from the epoch to the last second that a `u64` of nanoseconds can name is one; hours
/// run to 23 and minutes to 59. Which hour and minute they are depends on the machine's time zone
/// and is left open.
#[verifier::external_body]
pub(crate) fn local_hour_minute(secs: i64) -> (r: Option<(u32, u32)>)
    requires
        0 <= secs <= MAX_CLOCK_SECS,
    ensures
        r is Some,
        (r->0).0 < 24,
        (r->0).1 < 60,
{
    match Local.timestamp_opt(secs, 0) {
        chrono::LocalResult::Single(dt) => Some((dt.hour(), dt.minute())),
        chrono::LocalResult::Ambiguous(_, _) => None,
        chrono::LocalResult::None => None,
    }
}

/// The day of the week of an instant in UTC, Monday being 0 and Sunday 6; the epoch was a Thursday.
pub open spec fn utc_weekday(ts_ns: int) -> int {
    (ts_ns / 86_400_000_000_000 + 3) % 7
}

/// Whether a day of the week is that of an instant in UTC, the one before it or the one after it:
/// what a local day of the week can be, wherever the machine stands.
pub open spec fn is_near_weekday(day: int, ts_ns: int) -> bool {
    ||| day == utc_weekday(ts_ns)
    ||| day == (utc_weekday(ts_ns) + 1) % 7
    ||| day == (utc_weekday(ts_ns) + 6) % 7
}

/// `TimeZone::timestamp_nanos` of chrono's `Local`, then `Datelike::weekday` and
/// `Weekday::num_days_from_monday`: the local day of the week of an instant, Monday being 0 and
/// Sunday 6. The local time is less than a day ahead of UTC or behind it, so that the day is that
/// of UTC or one beside it. Which of the three it is depends on the machine's time zone and is left
/// open.
#[verifier::external_body]
pub(crate) fn local_weekday(ts_ns: i64) -> (r: u32)
    requires
        0 <= ts_ns,
    ensures
        r <= 6,
        is_near_weekday(r as int, ts_ns as int),
{
    Local.timestamp_nanos(ts_ns).weekday().num_days_from_monday()
}

/// The whole seconds of an instant.
pub fn clock_secs(ts_ns: u64) -> (r: i64)
    ensures
        r == ts_ns / 1_000_000_000,
        0 <= r <= MAX_CLOCK_SECS,
{
    (ts_ns / 1_000_000_000) as i64
}

/// The minute of the day of an hour and a minute.
pub fn minute_of_day(hour: u32, minute: u32) -> (r: u32)
    requires
        hour < 24,
        minute < 60,
    ensures
        r == hour * 60 + minute,
        r < 1440,
{
    hour * 60 + minute
}

/// `Utc::now` of chrono, then `DateTime::timestamp_nanos_opt`: the host clock in nanoseconds since
/// the epoch, where it fits an `i64`. Nothing is said of the value, which is the time.
#[verifier::external_body]
pub(crate) fn utc_now_nanos() -> (r: Option<i64>) {
    Utc::now().timestamp_nanos_opt()
}

/// A reading of the host clock as an instant: the last one that can be named where the clock is
/// beyond it, and the epoch where it is before it.
pub fn clock_instant(nanos: Option<i64>) -> (r: u64)
    ensures
        match nanos {
            None => r == i64::MAX,
            Some(n) => r == if n >= 0 {
                n as int
            } else {
                0
            },
        },
{
    match nanos {
        None => i64::MAX as u64,
        Some(n) => if n >= 0 {
            n as u64
        } else {
            0
        },
    }
}

/// The instant that the host clock shows.
pub fn now_ts_ns() -> (r: u64)
    ensures
        r <= i64::MAX,
{
    clock_instant(utc_now_nanos())
}

/// Days are counted from Monday, and the days of UTC follow one another: the epoch was a Thursday, a day
/// later it is the next weekday, within a day it is the same, and a week later it is the same again.
pub proof fn law_weekdays_follow_one_another(ts_ns: int)
    requires
        0 <= ts_ns,
    ensures
        0 <= utc_weekday(ts_ns) <= 6,
        utc_weekday(ts_ns % 86_400_000_000_000) == 3,
        utc_weekday(ts_ns + 86_400_000_000_000) == (utc_weekday(ts_ns) + 1) % 7,
        utc_weekday(ts_ns + 604_800_000_000_000) == utc_weekday(ts_ns),
        utc_weekday(ts_ns - ts_ns % 86_400_000_000_000) == utc_weekday(ts_ns),
{
}

/// A weekday is near an instant where it is the instant's own in UTC, the one before or the one behind.
pub proof fn law_near_weekdays_are_a_day_away(day: int, ts_ns: int)
    requires
        86_400_000_000_000 <= ts_ns,
    ensures
        is_near_weekday(day, ts_ns) <==> day == utc_weekday(ts_ns) || day == utc_weekday(
            ts_ns + 86_400_000_000_000,
        ) || day == utc_weekday(ts_ns - 86_400_000_000_000),
{
}

/// A clock counts whole seconds, and a day's minutes from midnight.
pub proof fn law_clocks_count_seconds_and_minutes(
    ts_ns: u64,
    secs: i64,
    hour: u32,
    minute: u32,
    of_day: u32,
)
    requires
        call_ensures(clock_secs, (ts_ns,), secs),
        hour < 24,
        minute < 60,
        call_ensures(minute_of_day, (hour, minute), of_day),
    ensures
        secs * 1_000_000_000 <= ts_ns < (secs + 1) * 1_000_000_000,
        of_day == 60 * hour + minute,
        of_day < 1440,
{
}

/// An instant of the clock is taken as it is; one before the epoch is the epoch, and one that cannot be
/// told is the last that can.
pub proof fn law_instants_are_taken_as_they_are(nanos: Option<i64>, r: u64)
    requires
        call_ensures(clock_instant, (nanos,), r),
    ensures
        nanos is Some && nanos->Some_0 >= 0 ==> r == nanos->Some_0,
        nanos is Some && nanos->Some_0 < 0 ==> r == 0,
        nanos is None ==> r == 0x7fff_ffff_ffff_ffff,
{
}

} // verus!
