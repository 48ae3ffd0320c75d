//! Calendar time and instants: the part of the `chrono` crate that the
//! protocol code is written against.

use crate::wire::{twos, twos_of};
use chrono::{DateTime, Datelike, NaiveDate, TimeZone, Timelike, Utc};
use vstd::prelude::*;

verus! {

/// A moment in UTC by calendar date and time of day. In a leap second the
/// milliseconds pass 999.
#[derive(Debug, Clone, Copy, PartialEq, Eq, Structural)]
pub struct CivilTime {
    pub year: i32,
    pub month: u32,
    pub day: u32,
    pub hour: u32,
    pub minute: u32,
    pub second: u32,
    pub milli: u32,
}

/// Leap year of the Gregorian calendar.
pub open spec fn is_leap(year: int) -> bool {
    year % 4 == 0 && (year % 100 != 0 || year % 400 == 0)
}

/// Number of days of a month.
pub open spec fn month_days(year: int, month: int) -> int {
    if month == 2 {
        if is_leap(year) {
            29
        } else {
            28
        }
    } else if month == 4 || month == 6 || month == 9 || month == 11 {
        30
    } else {
        31
    }
}

/// A date of the Gregorian calendar, in the range of years that is supported.
pub open spec fn is_date(year: int, month: int, day: int) -> bool {
    &&& -262143 <= year <= 262142
    &&& 1 <= month <= 12
    &&& 1 <= day <= month_days(year, month)
}

/// A time of day in whole seconds.
pub open spec fn is_time(hour: int, minute: int, second: int) -> bool {
    0 <= hour < 24 && 0 <= minute < 60 && 0 <= second < 60
}

impl CivilTime {
    /// The fields make a moment.
    pub open spec fn wf(self) -> bool {
        &&& is_date(self.year as int, self.month as int, self.day as int)
        &&& is_time(self.hour as int, self.minute as int, self.second as int)
        &&& self.milli < 1000 || (self.second == 59 && self.milli < 2000)
    }
}

/// Number of days from the first of March of the year 0 to a date.
pub open spec fn day_number(year: int, month: int, day: int) -> int {
    let y = if month <= 2 {
        year - 1
    } else {
        year
    };
    365 * y + y / 4 - y / 100 + y / 400 + (153 * ((month + 9) % 12) + 2) / 5 + day - 1
}

/// Day of the week of a date, from 1 for Monday to 7 for Sunday.
pub open spec fn weekday_number(year: int, month: int, day: int) -> int {
    (day_number(year, month, day) + 2) % 7 + 1
}

/// `Utc::now`, taken apart into calendar fields: some moment, a different one
/// at each call.
#[verifier::external_body]
pub(crate) fn civil_now() -> (r: CivilTime)
    ensures
        r.wf(),
{
    let t = Utc::now();
    CivilTime {
        year: t.year(),
        month: t.month(),
        day: t.day(),
        hour: t.hour(),
        minute: t.minute(),
        second: t.second(),
        milli: t.timestamp_subsec_millis(),
    }
}

/// The moment with these fields, where there is one.
pub open spec fn civil_of(
    year: i32,
    month: u32,
    day: u32,
    hour: u32,
    minute: u32,
    second: u32,
) -> Option<CivilTime> {
    if is_date(year as int, month as int, day as int) && is_time(
        hour as int,
        minute as int,
        second as int,
    ) {
        Some(CivilTime { year, month, day, hour, minute, second, milli: 0 })
    } else {
        None
    }
}

/// `TimeZone::with_ymd_and_hms` for UTC, taken apart into calendar fields: the
/// moment with these fields, where there is one.
#[verifier::external_body]
pub(crate) fn civil_time(
    year: i32,
    month: u32,
    day: u32,
    hour: u32,
    minute: u32,
    second: u32,
) -> (r: Option<CivilTime>)
    ensures
        r == civil_of(year, month, day, hour, minute, second),
{
    let t = Utc.with_ymd_and_hms(year, month, day, hour, minute, second).single()?;
    Some(
        CivilTime {
            year: t.year(),
            month: t.month(),
            day: t.day(),
            hour: t.hour(),
            minute: t.minute(),
            second: t.second(),
            milli: t.timestamp_subsec_millis(),
        },
    )
}

/// `NaiveDate::from_ymd_opt` and `Datelike::weekday` with
/// `Weekday::number_from_monday`: the day of the week of a date.
#[verifier::external_body]
pub(crate) fn weekday(year: i32, month: u32, day: u32) -> (r: u32)
    requires
        is_date(year as int, month as int, day as int),
    ensures
        r == weekday_number(year as int, month as int, day as int),
        1 <= r <= 7,
{
    NaiveDate::from_ymd_opt(year, month, day).unwrap().weekday().number_from_monday()
}

/// A moment in UTC by seconds since 1970 and nanoseconds.
#[derive(Debug, Clone, Copy, PartialEq, Eq, Structural)]
pub struct UtcTime {
    pub secs: i64,
    pub nanos: u32,
}

/// The last moment; a timer that is not armed stands there.
pub open spec fn never() -> UtcTime {
    UtcTime { secs: 8_210_266_876_799, nanos: 999_999_999 }
}

/// The last moment; a timer that is not armed stands there.
pub fn max_utc() -> (r: UtcTime)
    ensures
        r == never(),
        r.wf(),
{
    UtcTime { secs: 8_210_266_876_799, nanos: 999_999_999 }
}

impl UtcTime {
    /// The moment lies in the range that is supported.
    pub open spec fn wf(self) -> bool {
        -8_334_601_228_800 <= self.secs <= 8_210_266_876_799 && self.nanos < 1_000_000_000
    }

    /// Nanoseconds since 1970.
    pub open spec fn total_nanos(self) -> int {
        self.secs * 1_000_000_000 + self.nanos
    }
}

/// Whole milliseconds from one moment to another, cut toward zero.
pub open spec fn millis_from(since: UtcTime, now: UtcTime) -> int {
    let d = now.total_nanos() - since.total_nanos();
    if d >= 0 {
        d / 1_000_000
    } else {
        -((-d) / 1_000_000)
    }
}

/// `DateTime::signed_duration_since` and `TimeDelta::num_milliseconds` on two
/// moments (`DateTime::from_timestamp`): whole milliseconds between them, cut
/// toward zero, negative where `since` is later.
#[verifier::external_body]
pub(crate) fn millis_since(now: &UtcTime, since: &UtcTime) -> (r: i64)
    requires
        now.wf(),
        since.wf(),
    ensures
        r == millis_from(*since, *now),
{
    let n = DateTime::from_timestamp(now.secs, now.nanos).unwrap();
    let s = DateTime::from_timestamp(since.secs, since.nanos).unwrap();
    n.signed_duration_since(s).num_milliseconds()
}

/// Milliseconds from one moment to another as an unsigned number: a moment
/// that lies ahead counts as ages ago.
pub open spec fn elapsed(since: UtcTime, now: UtcTime) -> int {
    twos(millis_from(since, now)) as int
}

/// Milliseconds from one moment to another as an unsigned number.
pub(crate) fn elapsed_ms(now: &UtcTime, since: &UtcTime) -> (r: u64)
    requires
        now.wf(),
        since.wf(),
    ensures
        r == elapsed(*since, *now),
{
    twos_of(millis_since(now, since))
}

/// A timer that is not armed has always run out when its time is taken
/// unsigned, unless the limit is beyond all moments.
pub proof fn unarmed_timer_counts_as_expired(now: UtcTime, limit: u64)
    requires
        now.wf(),
        now.secs < never().secs,
        limit <= 0x7fff_ffff_ffff_ffff,
    ensures
        elapsed(never(), now) >= limit,
{
}

/// Time that has passed is counted in whole milliseconds.
pub proof fn time_is_counted_in_milliseconds(since: UtcTime, now: UtcTime)
    requires
        since.wf(),
        now.wf(),
    ensures
        ({
            let nanos = (now.secs - since.secs) * 1_000_000_000 + now.nanos - since.nanos;
            &&& nanos >= 0 ==> millis_from(since, now) * 1_000_000 <= nanos < (millis_from(since, now)
                + 1) * 1_000_000
            &&& nanos < 0 ==> (millis_from(since, now) - 1) * 1_000_000 < nanos <= millis_from(
                since,
                now,
            ) * 1_000_000
            &&& nanos >= 0 ==> elapsed(since, now) == millis_from(since, now)
            &&& nanos <= -1_000_000 ==> elapsed(since, now) == 0x1_0000_0000_0000_0000 + millis_from(
                since,
                now,
            )
        }),
{
}

} // verus!
