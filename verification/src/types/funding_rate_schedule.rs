//! Funding-rate schedules of perpetual contracts: recurring funding times on
//! days of the week, with dated exceptions, all on the wall clock of one time
//! zone.
use vstd::prelude::*;
use crate::types::days_of_week::DaysOfWeek;
use crate::types::trading::TimeOfDay;
use crate::types::time::{
    CivilDate, UtcTime, add_days, civil_date_is_valid, date_plus_days, date_tuple, instant_is_valid,
    instant_lt, instant_tuple, is_valid_date, weekday_from_monday, weekday_number, zone_date,
    zone_date_of, zone_earliest, zone_earliest_instant, utc_date_of, utc_instant_of, day_number, day_of,
    MAX_DAY, MIN_DAY,
};

verus! {

/// A recurring funding time: a time of day on some days of the week.
#[derive(Debug, Clone)]
pub struct FundingTime {
    /// Days of the week (1 = Monday, 7 = Sunday).
    pub days_of_week: DaysOfWeek,
    /// Time of day on the schedule's clock.
    pub time_of_day: TimeOfDay,
}

impl FundingTime {
    /// Funding at `hours:minutes:seconds` on the given days.
    pub fn new(days_of_week: DaysOfWeek, hours: u8, minutes: u8, seconds: u8) -> (r: FundingTime)
        ensures
            r.days_of_week@ == days_of_week@,
            r.time_of_day == (TimeOfDay { hours, minutes, seconds }),
    {
        FundingTime { days_of_week, time_of_day: TimeOfDay { hours, minutes, seconds } }
    }
}

/// A date whose funding times replace the recurring ones (a half day, a
/// holiday with no funding at all, ...). The date is read on the schedule's
/// clock, not in UTC.
#[derive(Debug, Clone)]
pub struct FundingException {
    /// The date this exception applies to.
    pub date: CivilDate,
    /// The funding times of that date.
    pub times: Vec<TimeOfDay>,
    /// Why the date is special.
    pub reason: Option<String>,
}

impl FundingException {
    /// A date without funding.
    pub fn holiday(year: i32, month: u32, day: u32, reason: Option<&str>) -> (r: FundingException)
        requires
            is_valid_date(year as int, month as int, day as int),
        ensures
            r.date == (CivilDate { year, month, day }),
            r.times@.len() == 0,
            r.reason is None <==> reason is None,
            r.reason matches Some(t) ==> reason matches Some(s) && t@ == s@,
    {
        let reason = match reason {
            Some(s) => Some(String::from_str(s)),
            None => None,
        };
        FundingException { date: CivilDate { year, month, day }, times: Vec::new(), reason }
    }
}

/// A machine-readable funding schedule.
#[derive(Debug, Clone)]
pub struct FundingRateSchedule {
    /// The time zone of all times and exception dates.
    pub timezone: chrono_tz::Tz,
    /// Recurring funding times.
    pub times: Vec<FundingTime>,
    /// Dates with their own funding times.
    pub exceptions: Vec<FundingException>,
}

/// Whether the wall clock of zone `tz` reads as UTC: on every valid
/// instant its date is the UTC date, and on every valid date a time of day
/// is first read at the UTC instant of that date and time.
pub open spec fn zone_reads_as_utc(tz: chrono_tz::Tz) -> bool {
    &&& forall|s: i64, n: u32|
        instant_is_valid(UtcTime { secs: s, nanos: n }) ==> #[trigger] zone_date_of(tz, s, n) == utc_date_of(s, n)
    &&& forall|y: i32, m: u32, d: u32, h: u32, mi: u32, se: u32|
        is_valid_date(y as int, m as int, d as int) ==> #[trigger] zone_earliest_instant(tz, y, m, d, h, mi, se)
            == utc_instant_of(y, m, d, h, mi, se)
}

/// The zone `chrono_tz::UTC`: one span with offset zero and no
/// transitions, so its clock reads as UTC's.
#[verifier::external_body]
fn utc_zone() -> (r: chrono_tz::Tz)
    ensures
        zone_reads_as_utc(r),
{
    chrono_tz::UTC
}

impl Default for FundingRateSchedule {
    /// A schedule in UTC with no funding times and no exceptions.
    fn default() -> (r: FundingRateSchedule)
        ensures
            zone_reads_as_utc(r.timezone),
            r.times@.len() == 0,
            r.exceptions@.len() == 0,
    {
        FundingRateSchedule { timezone: utc_zone(), times: Vec::new(), exceptions: Vec::new() }
    }
}

/// Whether instant `a` (seconds, nanoseconds) comes strictly before `b`.
pub open spec fn tuple_lt(a: (i64, u32), b: (i64, u32)) -> bool {
    a.0 < b.0 || (a.0 == b.0 && a.1 < b.1)
}

/// The times of day of the recurring entries that fall on weekday `dow`, in
/// the order of the entries.
pub open spec fn recurring_times(ts: Seq<FundingTime>, dow: u8) -> Seq<TimeOfDay>
    decreases ts.len(),
{
    if ts.len() == 0 {
        Seq::empty()
    } else {
        let rest = recurring_times(ts.drop_last(), dow);
        if ts.last().days_of_week@.contains(dow) {
            rest.push(ts.last().time_of_day)
        } else {
            rest
        }
    }
}

/// The index of the first exception dated `d`.
pub open spec fn exception_index(es: Seq<FundingException>, d: (i32, u32, u32)) -> Option<int>
    decreases es.len(),
{
    if es.len() == 0 {
        None
    } else {
        match exception_index(es.drop_last(), d) {
            Some(i) => Some(i),
            None => if date_tuple(es.last().date) == d {
                Some(es.len() - 1)
            } else {
                None
            },
        }
    }
}

/// The funding times of date `d`: those of its exception when it has one,
/// else the recurring times of its weekday.
pub open spec fn day_times(s: FundingRateSchedule, d: (i32, u32, u32)) -> Seq<TimeOfDay> {
    match exception_index(s.exceptions@, d) {
        Some(i) => s.exceptions@[i].times@,
        None => recurring_times(s.times@, weekday_number(d.0, d.1, d.2) as u8),
    }
}

/// The instant at which the schedule's clock first reads time `t` on date `d`.
pub open spec fn funding_instant(tz: chrono_tz::Tz, d: (i32, u32, u32), t: TimeOfDay) -> Option<(i64, u32)> {
    zone_earliest_instant(tz, d.0, d.1, d.2, t.hours as u32, t.minutes as u32, t.seconds as u32)
}

/// The earliest instant after `now` among the instants of times `ts` on date `d`.
pub open spec fn earliest_after(tz: chrono_tz::Tz, d: (i32, u32, u32), ts: Seq<TimeOfDay>, now: UtcTime) -> Option<(i64, u32)>
    decreases ts.len(),
{
    if ts.len() == 0 {
        None
    } else {
        let best = earliest_after(tz, d, ts.drop_last(), now);
        match funding_instant(tz, d, ts.last()) {
            Some(c) => if tuple_lt(instant_tuple(now), c) {
                match best {
                    Some(b) => if tuple_lt(c, b) { Some(c) } else { Some(b) },
                    None => Some(c),
                }
            } else {
                best
            },
            None => best,
        }
    }
}

/// The next funding instant after `now`, searching the dates `today + k`
/// to `today + 14` of the schedule's clock in turn.
pub open spec fn next_funding_from(s: FundingRateSchedule, today: (i32, u32, u32), now: UtcTime, k: nat) -> Option<(i64, u32)>
    decreases 15 - k,
{
    if k >= 15 {
        None
    } else {
        let d = date_plus_days(today.0, today.1, today.2, k as i64);
        let e = earliest_after(s.timezone, d, day_times(s, d), now);
        if e is Some {
            e
        } else {
            next_funding_from(s, today, now, k + 1)
        }
    }
}

/// The next funding instant after `now`: on the first of the 15 dates from
/// today (on the schedule's clock) that has a funding time still to come,
/// the earliest such time.
pub open spec fn next_funding(s: FundingRateSchedule, now: UtcTime) -> Option<(i64, u32)> {
    next_funding_from(s, zone_date_of(s.timezone, now.secs, now.nanos), now, 0)
}

/// Every instant `earliest_after` gives comes after `now`.
proof fn lemma_earliest_after_is_after(tz: chrono_tz::Tz, d: (i32, u32, u32), ts: Seq<TimeOfDay>, now: UtcTime)
    ensures
        earliest_after(tz, d, ts, now) matches Some(c) ==> tuple_lt(instant_tuple(now), c),
    decreases ts.len(),
{
    if ts.len() > 0 {
        lemma_earliest_after_is_after(tz, d, ts.drop_last(), now);
    }
}

/// The funding instant chosen on a date is the earliest of the date's
/// funding times that come after `now`: it is the instant of one of them,
/// it comes after `now`, and none of them that comes after `now` is earlier;
/// and there is one whenever any of them comes after `now`.
pub proof fn lemma_earliest_after_is_minimum(tz: chrono_tz::Tz, d: (i32, u32, u32), ts: Seq<TimeOfDay>, now: UtcTime)
    ensures
        earliest_after(tz, d, ts, now) matches Some(c) ==> {
            &&& tuple_lt(instant_tuple(now), c)
            &&& exists|i: int| 0 <= i < ts.len() && #[trigger] funding_instant(tz, d, ts[i]) == Some(c)
        },
        forall|i: int|
            0 <= i < ts.len() && (#[trigger] funding_instant(tz, d, ts[i])) is Some
                && tuple_lt(instant_tuple(now), funding_instant(tz, d, ts[i])->0)
                ==> earliest_after(tz, d, ts, now) is Some
                && !tuple_lt(funding_instant(tz, d, ts[i])->0, earliest_after(tz, d, ts, now)->0),
    decreases ts.len(),
{
    if ts.len() > 0 {
        let p = ts.drop_last();
        lemma_earliest_after_is_minimum(tz, d, p, now);
        let best = earliest_after(tz, d, p, now);
        let r = earliest_after(tz, d, ts, now);
        assert forall|j: int| 0 <= j < p.len() implies #[trigger] p[j] == ts[j] by {}
        if let Some(c) = r {
            if r == best {
                let j = choose|j: int| 0 <= j < p.len() && #[trigger] funding_instant(tz, d, p[j]) == Some(c);
                assert(p[j] == ts[j]);
                assert(funding_instant(tz, d, ts[j]) == Some(c));
            } else {
                assert(funding_instant(tz, d, ts[ts.len() - 1]) == Some(c));
            }
        }
        assert forall|i: int|
            0 <= i < ts.len() && (#[trigger] funding_instant(tz, d, ts[i])) is Some
                && tuple_lt(instant_tuple(now), funding_instant(tz, d, ts[i])->0)
            implies r is Some && !tuple_lt(funding_instant(tz, d, ts[i])->0, r->0) by {
            if i < ts.len() - 1 {
                assert(p[i] == ts[i]);
                assert(funding_instant(tz, d, p[i]) == funding_instant(tz, d, ts[i]));
            }
        }
    }
}

/// Every instant `next_funding_from` gives comes after `now`.
proof fn lemma_next_funding_from_is_after(s: FundingRateSchedule, today: (i32, u32, u32), now: UtcTime, k: nat)
    ensures
        next_funding_from(s, today, now, k) matches Some(c) ==> tuple_lt(instant_tuple(now), c),
    decreases 15 - k,
{
    if k < 15 {
        let d = date_plus_days(today.0, today.1, today.2, k as i64);
        lemma_earliest_after_is_after(s.timezone, d, day_times(s, d), now);
        lemma_next_funding_from_is_after(s, today, now, k + 1);
    }
}

/// The exception index found is that of an exception dated `d`, and no
/// earlier one is.
proof fn lemma_exception_index(es: Seq<FundingException>, d: (i32, u32, u32))
    ensures
        exception_index(es, d) matches Some(i) ==> 0 <= i < es.len() && date_tuple(es[i].date) == d,
        exception_index(es, d) is None ==> forall|j: int| 0 <= j < es.len() ==> date_tuple(#[trigger] es[j].date) != d,
    decreases es.len(),
{
    if es.len() > 0 {
        lemma_exception_index(es.drop_last(), d);
        assert forall|j: int| 0 <= j < es.len() - 1 implies es.drop_last()[j] == #[trigger] es[j] by {}
    }
}

/// A schedule whose recurring times and exception times are all empty never
/// has a next funding time.
pub proof fn lemma_schedule_without_times_never_funds(s: FundingRateSchedule, now: UtcTime)
    requires
        s.times@.len() == 0,
        forall|i: int| 0 <= i < s.exceptions@.len() ==> (#[trigger] s.exceptions@[i]).times@.len() == 0,
    ensures
        next_funding(s, now) is None,
{
    let today = zone_date_of(s.timezone, now.secs, now.nanos);
    assert forall|k: nat| k <= 15 implies #[trigger] next_funding_from(s, today, now, k) is None by {
        lemma_next_funding_from_none(s, today, now, k);
    }
}

proof fn lemma_next_funding_from_none(s: FundingRateSchedule, today: (i32, u32, u32), now: UtcTime, k: nat)
    requires
        s.times@.len() == 0,
        forall|i: int| 0 <= i < s.exceptions@.len() ==> (#[trigger] s.exceptions@[i]).times@.len() == 0,
    ensures
        next_funding_from(s, today, now, k) is None,
    decreases 15 - k,
{
    if k < 15 {
        let d = date_plus_days(today.0, today.1, today.2, k as i64);
        lemma_exception_index(s.exceptions@, d);
        assert(day_times(s, d).len() == 0);
        lemma_next_funding_from_none(s, today, now, k + 1);
    }
}

impl FundingRateSchedule {
    /// The index of the first exception dated `d`.
    fn find_exception(&self, d: CivilDate) -> (r: Option<usize>)
        ensures
            r matches Some(i) ==> exception_index(self.exceptions@, date_tuple(d)) == Some(i as int)
                && i < self.exceptions@.len(),
            r is None ==> exception_index(self.exceptions@, date_tuple(d)) is None,
    {
        let mut i: usize = 0;
        while i < self.exceptions.len()
            invariant
                i <= self.exceptions@.len(),
                exception_index(self.exceptions@.take(i as int), date_tuple(d)) is None,
            decreases self.exceptions.len() - i,
        {
            let ed = self.exceptions[i].date;
            assert(self.exceptions@.take(i + 1).drop_last() =~= self.exceptions@.take(i as int));
            if ed.year == d.year && ed.month == d.month && ed.day == d.day {
                proof {
                    lemma_exception_index_prefix(self.exceptions@, date_tuple(d), i as int);
                }
                return Some(i);
            }
            i = i + 1;
        }
        assert(self.exceptions@.take(i as int) =~= self.exceptions@);
        None
    }

    /// The funding times of date `d`.
    fn times_on(&self, d: CivilDate) -> (r: Vec<TimeOfDay>)
        requires
            civil_date_is_valid(d),
        ensures
            r@ == day_times(*self, date_tuple(d)),
    {
        match self.find_exception(d) {
            Some(i) => {
                let src = &self.exceptions[i].times;
                let mut out: Vec<TimeOfDay> = Vec::new();
                let mut j: usize = 0;
                while j < src.len()
                    invariant
                        j <= src@.len(),
                        out@ == src@.take(j as int),
                    decreases src.len() - j,
                {
                    out.push(src[j]);
                    j = j + 1;
                    assert(out@ =~= src@.take(j as int));
                }
                assert(src@.take(j as int) =~= src@);
                out
            },
            None => {
                let dow = weekday_from_monday(d);
                let mut out: Vec<TimeOfDay> = Vec::new();
                let mut j: usize = 0;
                while j < self.times.len()
                    invariant
                        j <= self.times@.len(),
                        out@ == recurring_times(self.times@.take(j as int), dow),
                    decreases self.times.len() - j,
                {
                    let ft = &self.times[j];
                    assert(self.times@.take(j + 1).drop_last() =~= self.times@.take(j as int));
                    if ft.days_of_week.contains(dow) {
                        out.push(ft.time_of_day);
                    }
                    j = j + 1;
                }
                assert(self.times@.take(j as int) =~= self.times@);
                out
            },
        }
    }

    /// The earliest instant after `now` of the times `ts` on date `d`.
    fn earliest_on(&self, d: CivilDate, ts: &Vec<TimeOfDay>, now: UtcTime) -> (r: Option<UtcTime>)
        requires
            civil_date_is_valid(d),
        ensures
            r matches Some(t) ==> earliest_after(self.timezone, date_tuple(d), ts@, now) == Some(instant_tuple(t)),
            r is None ==> earliest_after(self.timezone, date_tuple(d), ts@, now) is None,
    {
        let mut best: Option<UtcTime> = None;
        let mut j: usize = 0;
        while j < ts.len()
            invariant
                j <= ts@.len(),
                civil_date_is_valid(d),
                best matches Some(b) ==> earliest_after(self.timezone, date_tuple(d), ts@.take(j as int), now) == Some(instant_tuple(b)),
                best is None ==> earliest_after(self.timezone, date_tuple(d), ts@.take(j as int), now) is None,
            decreases ts.len() - j,
        {
            let t = ts[j];
            assert(ts@.take(j + 1).drop_last() =~= ts@.take(j as int));
            assert(ts@.take(j + 1).last() == t);
            let c = zone_earliest(self.timezone, d, t.hours as u32, t.minutes as u32, t.seconds as u32);
            match c {
                Some(ct) => {
                    if ct.is_after(&now) {
                        match best {
                            Some(b) => {
                                if b.is_after(&ct) {
                                    best = Some(ct);
                                }
                            },
                            None => {
                                best = Some(ct);
                            },
                        }
                    }
                },
                None => {},
            }
            j = j + 1;
        }
        assert(ts@.take(j as int) =~= ts@);
        best
    }

    /// The next funding instant strictly after `now`: on the first date, from
    /// today on the schedule's clock and up to 14 days ahead, that still has a
    /// funding time to come, the earliest such time; `None` when none of these
    /// dates has one. Exception dates replace the recurring times, and a time
    /// the clock skips (a daylight-saving gap) is passed over. `now` lies
    /// after `chrono`'s first day, where the zone's date of it may fall
    /// before `chrono`'s dates, and before its last 15 days, where the
    /// dates searched may fall after them; `chrono` panics in both cases.
    pub fn next_funding_time(&self, now: UtcTime) -> (r: Option<UtcTime>)
        requires
            instant_is_valid(now),
            MIN_DAY < day_of(now.secs as int),
            day_of(now.secs as int) + 15 <= MAX_DAY,
        ensures
            r matches Some(t) ==> next_funding(*self, now) == Some(instant_tuple(t)),
            r is None ==> next_funding(*self, now) is None,
            r matches Some(t) ==> instant_lt(now, t),
    {
        let today = zone_date(self.timezone, now);
        let ghost td = date_tuple(today);
        let mut k: i64 = 0;
        while k < 15
            invariant
                0 <= k <= 15,
                civil_date_is_valid(today),
                day_number(today) + 14 <= MAX_DAY,
                td == date_tuple(today),
                next_funding(*self, now) == next_funding_from(*self, td, now, k as nat),
            decreases 15 - k,
        {
            let d = add_days(today, k);
            let ts = self.times_on(d);
            let e = self.earliest_on(d, &ts, now);
            if e.is_some() {
                proof {
                    lemma_next_funding_from_is_after(*self, td, now, k as nat);
                }
                return e;
            }
            k = k + 1;
        }
        None
    }
}

/// The prefix of the exceptions before the first one dated `d` has none so
/// dated, and then that one is found.
proof fn lemma_exception_index_prefix(es: Seq<FundingException>, d: (i32, u32, u32), i: int)
    requires
        0 <= i < es.len(),
        exception_index(es.take(i), d) is None,
        date_tuple(es[i].date) == d,
    ensures
        exception_index(es, d) == Some(i),
{
    assert(es.take(i + 1).drop_last() =~= es.take(i));
    assert(exception_index(es.take(i + 1), d) == Some(i));
    lemma_exception_index_extend(es, d, i + 1);
}

/// Once found in a prefix, the first exception dated `d` stays the first.
proof fn lemma_exception_index_extend(es: Seq<FundingException>, d: (i32, u32, u32), n: int)
    requires
        0 <= n <= es.len(),
        exception_index(es.take(n), d) is Some,
    ensures
        exception_index(es, d) == exception_index(es.take(n), d),
    decreases es.len() - n,
{
    if n < es.len() {
        assert(es.take(n + 1).drop_last() =~= es.take(n));
        lemma_exception_index_extend(es, d, n + 1);
    } else {
        assert(es.take(n) =~= es);
    }
}

} // verus!
