//! Instants and calendar dates, and the calendar arithmetic the library asks
//! of `chrono` and `chrono_tz`.
use vstd::prelude::*;
use chrono::{Datelike, TimeZone};

verus! {

/// The time-zone type of `chrono_tz`.
#[verifier::external_type_specification]
#[verifier::external_body]
pub struct ExTz(chrono_tz::Tz);

/// `Clone` of `chrono_tz::Tz`, a `Copy` enum whose derived `clone` returns
/// the same zone.
pub assume_specification[ <chrono_tz::Tz as Clone>::clone ](tz: &chrono_tz::Tz) -> (r: chrono_tz::Tz)
    ensures
        r == *tz,
;

/// The day number (days since 1970-01-01) of the first date `chrono`
/// holds, January 1 of the year -262143.
pub const MIN_DAY: i64 = -96_465_292;

/// The day number of the last date `chrono` holds, December 31 of the year
/// 262142.
pub const MAX_DAY: i64 = 95_026_236;

/// The first second `chrono` holds as an instant: midnight of `MIN_DAY`.
pub const MIN_INSTANT_SECS: i64 = -8_334_601_228_800;

/// The last second `chrono` holds as an instant: the last second of
/// `MAX_DAY`.
pub const MAX_INSTANT_SECS: i64 = 8_210_266_876_799;

/// The day number of the UTC date of second `secs`.
pub open spec fn day_of(secs: int) -> int {
    secs / 86400
}

/// An instant on the UTC time line: whole seconds since the Unix epoch and a
/// fraction in nanoseconds (a leap second carries its fraction above 10^9).
#[derive(Debug, Clone, Copy, PartialEq, Eq, Structural)]
pub struct UtcTime {
    pub secs: i64,
    pub nanos: u32,
}

/// Whether `t` names an instant that `chrono` can hold: a second of its
/// dates, and a fraction below a second, or below two within the last second
/// of a minute (a leap second).
pub open spec fn instant_is_valid(t: UtcTime) -> bool {
    &&& MIN_INSTANT_SECS <= t.secs <= MAX_INSTANT_SECS
    &&& (t.nanos < 1_000_000_000 || (t.nanos < 2_000_000_000 && t.secs % 60 == 59))
}

/// Whether `a` comes strictly before `b`.
pub open spec fn instant_lt(a: UtcTime, b: UtcTime) -> bool {
    a.secs < b.secs || (a.secs == b.secs && a.nanos < b.nanos)
}

impl UtcTime {
    /// Whether `self` comes strictly after `other`.
    pub fn is_after(&self, other: &UtcTime) -> (r: bool)
        ensures
            r == instant_lt(*other, *self),
    {
        self.secs > other.secs || (self.secs == other.secs && self.nanos > other.nanos)
    }
}

/// A calendar date of the proleptic Gregorian calendar.
#[derive(Debug, Clone, Copy, PartialEq, Eq, Structural)]
pub struct CivilDate {
    pub year: i32,
    pub month: u32,
    pub day: u32,
}

/// Earliest year `chrono` holds in a date.
pub const MIN_YEAR: i32 = -262143;

/// Latest year `chrono` holds in a date.
pub const MAX_YEAR: i32 = 262142;

/// Whether `y` is a leap year.
pub open spec fn is_leap_year(y: int) -> bool {
    (y % 4 == 0 && y % 100 != 0) || y % 400 == 0
}

/// The number of days of month `m` of year `y`.
pub open spec fn days_in_month(y: int, m: int) -> int {
    if m == 2 {
        if is_leap_year(y) { 29 } else { 28 }
    } else if m == 4 || m == 6 || m == 9 || m == 11 {
        30
    } else {
        31
    }
}

/// Whether `(y, m, d)` is a day of the calendar that `chrono` can hold.
pub open spec fn is_valid_date(y: int, m: int, d: int) -> bool {
    MIN_YEAR <= y <= MAX_YEAR && 1 <= m <= 12 && 1 <= d <= days_in_month(y, m)
}

/// Whether `d` is a day of the calendar that `chrono` can hold.
pub open spec fn civil_date_is_valid(d: CivilDate) -> bool {
    is_valid_date(d.year as int, d.month as int, d.day as int)
}

impl CivilDate {
    /// The date `year-month-day`, or `None` when there is no such day
    /// (`NaiveDate::from_ymd_opt`).
    pub fn from_ymd_opt(year: i32, month: u32, day: u32) -> (r: Option<CivilDate>)
        ensures
            r is Some <==> is_valid_date(year as int, month as int, day as int),
            r matches Some(d) ==> d == (CivilDate { year, month, day }),
    {
        if year < MIN_YEAR || year > MAX_YEAR || month < 1 || month > 12 || day < 1 {
            return None;
        }
        let leap = (year % 4 == 0 && year % 100 != 0) || year % 400 == 0;
        proof {
            assert(leap == is_leap_year(year as int)) by {
                assert((year % 4 == 0) == ((year as int) % 4 == 0)) by (nonlinear_arith);
                assert((year % 100 == 0) == ((year as int) % 100 == 0)) by (nonlinear_arith);
                assert((year % 400 == 0) == ((year as int) % 400 == 0)) by (nonlinear_arith);
            }
        }
        let last: u32 = if month == 2 {
            if leap { 29 } else { 28 }
        } else if month == 4 || month == 6 || month == 9 || month == 11 {
            30
        } else {
            31
        };
        if day > last {
            None
        } else {
            Some(CivilDate { year, month, day })
        }
    }
}

/// The number of days from 1970-01-01 to the date `y-m-d` of the proleptic
/// Gregorian calendar, counted in eras of 400 years from a year that starts
/// in March.
pub open spec fn days_from_civil(y: int, m: int, d: int) -> int {
    let y1 = if m <= 2 { y - 1 } else { y };
    let era = y1 / 400;
    let yoe = y1 - era * 400;
    let mp = if m > 2 { m - 3 } else { m + 9 };
    let doy = (153 * mp + 2) / 5 + d - 1;
    let doe = yoe * 365 + yoe / 4 - yoe / 100 + doy;
    era * 146097 + doe - 719468
}

/// The date of the proleptic Gregorian calendar `days` days after
/// 1970-01-01 (the inverse of `days_from_civil`).
pub open spec fn civil_from_days(days: int) -> (int, int, int) {
    let z = days + 719468;
    let era = z / 146097;
    let doe = z - era * 146097;
    let yoe = (doe - doe / 1460 + doe / 36524 - doe / 146096) / 365;
    let doy = doe - (365 * yoe + yoe / 4 - yoe / 100);
    let mp = (5 * doy + 2) / 153;
    let d = doy - (153 * mp + 2) / 5 + 1;
    let m = if mp < 10 { mp + 3 } else { mp - 9 };
    (if m <= 2 { yoe + era * 400 + 1 } else { yoe + era * 400 }, m, d)
}

/// A date as the integer types `chrono` reports it in.
pub open spec fn date_of_ints(d: (int, int, int)) -> (i32, u32, u32) {
    (d.0 as i32, d.1 as u32, d.2 as u32)
}

/// The UTC calendar date of the instant `secs`, `nanos`: the day that the
/// whole days since the epoch reach (a leap second's fraction does not move
/// it).
#[verifier::opaque]
pub open spec fn utc_date_of(secs: i64, nanos: u32) -> (i32, u32, u32) {
    date_of_ints(civil_from_days(secs as int / 86400))
}

/// The calendar date, in time zone `tz`, of the instant `secs`, `nanos`.
pub uninterp spec fn zone_date_of(tz: chrono_tz::Tz, secs: i64, nanos: u32) -> (i32, u32, u32);

/// The date `n` days after `year-month-day`.
#[verifier::opaque]
pub open spec fn date_plus_days(year: i32, month: u32, day: u32, n: i64) -> (i32, u32, u32) {
    date_of_ints(civil_from_days(days_from_civil(year as int, month as int, day as int) + n))
}

/// The ISO number (1 = Monday, 7 = Sunday) of the weekday of
/// `year-month-day`; 1970-01-01 was a Thursday.
#[verifier::opaque]
pub open spec fn weekday_number(year: i32, month: u32, day: u32) -> u32 {
    ((days_from_civil(year as int, month as int, day as int) + 3) % 7 + 1) as u32
}

/// The earliest UTC instant (seconds, nanoseconds) at which the wall clock
/// of zone `tz` reads the given date and time, if it ever does.
pub uninterp spec fn zone_earliest_instant(
    tz: chrono_tz::Tz,
    year: i32,
    month: u32,
    day: u32,
    hour: u32,
    minute: u32,
    second: u32,
) -> Option<(i64, u32)>;

/// The UTC instant (seconds, nanoseconds) of the given UTC date and time;
/// `None` where the time is not one of 00:00:00..23:59:59.
#[verifier::opaque]
pub open spec fn utc_instant_of(
    year: i32,
    month: u32,
    day: u32,
    hour: u32,
    minute: u32,
    second: u32,
) -> Option<(i64, u32)> {
    if hour < 24 && minute < 60 && second < 60 {
        Some((
            (days_from_civil(year as int, month as int, day as int) * 86400 + hour * 3600 + minute * 60
                + second) as i64,
            0u32,
        ))
    } else {
        None
    }
}

/// The date of an instant as a tuple.
pub open spec fn date_tuple(d: CivilDate) -> (i32, u32, u32) {
    (d.year, d.month, d.day)
}

/// The instant as a tuple.
pub open spec fn instant_tuple(t: UtcTime) -> (i64, u32) {
    (t.secs, t.nanos)
}

/// The day number of a date (see `days_from_civil`).
pub open spec fn day_number(d: CivilDate) -> int {
    days_from_civil(d.year as int, d.month as int, d.day as int)
}

/// `DateTime::<Utc>::date_naive`, read through `Datelike`: the UTC calendar
/// date of an instant, a date `chrono` holds, whose day number is that of
/// the instant's second.
#[verifier::external_body]
pub(crate) fn utc_date(t: UtcTime) -> (r: CivilDate)
    requires
        instant_is_valid(t),
    ensures
        date_tuple(r) == utc_date_of(t.secs, t.nanos),
        civil_date_is_valid(r),
        day_number(r) == day_of(t.secs as int),
{
    let d = chrono::DateTime::from_timestamp(t.secs, t.nanos).unwrap().date_naive();
    CivilDate { year: d.year(), month: d.month(), day: d.day() }
}

/// `DateTime::with_timezone` followed by `date_naive`: the calendar date of
/// an instant on the wall clock of zone `tz`. A zone's offset is less than a
/// day, so the date is within a day of the UTC date; `date_naive` panics
/// where the local time leaves `chrono`'s dates, which cannot happen a full
/// day inside them.
#[verifier::external_body]
pub(crate) fn zone_date(tz: chrono_tz::Tz, t: UtcTime) -> (r: CivilDate)
    requires
        instant_is_valid(t),
        MIN_DAY < day_of(t.secs as int) < MAX_DAY,
    ensures
        date_tuple(r) == zone_date_of(tz, t.secs, t.nanos),
        civil_date_is_valid(r),
        day_of(t.secs as int) - 1 <= day_number(r) <= day_of(t.secs as int) + 1,
{
    let d = chrono::DateTime::from_timestamp(t.secs, t.nanos).unwrap().with_timezone(&tz).date_naive();
    CivilDate { year: d.year(), month: d.month(), day: d.day() }
}

/// `NaiveDate + TimeDelta::days(n)`: the date `n` days later. It panics
/// (`expect`) where that date is past `chrono`'s last one; before it, the
/// date is one `chrono` holds.
#[verifier::external_body]
pub(crate) fn add_days(d: CivilDate, n: i64) -> (r: CivilDate)
    requires
        civil_date_is_valid(d),
        0 <= n,
        day_number(d) + n <= MAX_DAY,
    ensures
        date_tuple(r) == date_plus_days(d.year, d.month, d.day, n),
        civil_date_is_valid(r),
        day_number(r) == day_number(d) + n,
{
    let nd = chrono::NaiveDate::from_ymd_opt(d.year, d.month, d.day).unwrap() + chrono::TimeDelta::days(n);
    CivilDate { year: nd.year(), month: nd.month(), day: nd.day() }
}

/// `Weekday::number_from_monday` of `NaiveDate::weekday`: 1 for Monday up to
/// 7 for Sunday.
#[verifier::external_body]
pub(crate) fn weekday_from_monday(d: CivilDate) -> (r: u8)
    requires
        civil_date_is_valid(d),
    ensures
        r as u32 == weekday_number(d.year, d.month, d.day),
        1 <= r <= 7,
{
    chrono::NaiveDate::from_ymd_opt(d.year, d.month, d.day).unwrap().weekday().number_from_monday() as u8
}

/// `TimeZone::from_local_datetime` of zone `tz` with `LocalResult::earliest`,
/// taken to UTC: the earliest instant at which the zone's clock reads the
/// date and time; `None` when the clock skips it, and (by
/// `NaiveDate::and_hms_opt`) when the time is not one of 00:00:00..23:59:59.
/// Such an instant has no leap-second fraction.
#[verifier::external_body]
pub(crate) fn zone_earliest(tz: chrono_tz::Tz, d: CivilDate, hour: u32, minute: u32, second: u32) -> (r: Option<UtcTime>)
    requires
        civil_date_is_valid(d),
    ensures
        r matches Some(t) ==> zone_earliest_instant(tz, d.year, d.month, d.day, hour, minute, second) == Some(instant_tuple(t)),
        r is None ==> zone_earliest_instant(tz, d.year, d.month, d.day, hour, minute, second) is None,
        !(hour < 24 && minute < 60 && second < 60) ==> r is None,
        r matches Some(t) ==> t.nanos == 0,
{
    let local = chrono::NaiveDate::from_ymd_opt(d.year, d.month, d.day).unwrap().and_hms_opt(hour, minute, second)?;
    let dt = tz.from_local_datetime(&local).earliest()?;
    Some(UtcTime { secs: dt.timestamp(), nanos: dt.timestamp_subsec_nanos() })
}

/// `NaiveDateTime::and_utc` of `NaiveDate::and_hms_opt`: the instant at
/// which UTC reads the date and time; `None` exactly when the time is not
/// one of 00:00:00..23:59:59. The instant falls on that date.
#[verifier::external_body]
pub(crate) fn utc_instant(d: CivilDate, hour: u32, minute: u32, second: u32) -> (r: Option<UtcTime>)
    requires
        civil_date_is_valid(d),
    ensures
        r matches Some(t) ==> utc_instant_of(d.year, d.month, d.day, hour, minute, second) == Some(instant_tuple(t)),
        r is None ==> utc_instant_of(d.year, d.month, d.day, hour, minute, second) is None,
        r is Some <==> (hour < 24 && minute < 60 && second < 60),
        r matches Some(t) ==> t.nanos == 0 && utc_date_of(t.secs, t.nanos) == date_tuple(d),
{
    let local = chrono::NaiveDate::from_ymd_opt(d.year, d.month, d.day).unwrap().and_hms_opt(hour, minute, second)?;
    let dt = local.and_utc();
    Some(UtcTime { secs: dt.timestamp(), nanos: dt.timestamp_subsec_nanos() })
}

} // verus!
