//! Civil dates, Europe/Berlin wall-clock ticks and the scheduler's catch-up
//! decision.
use vstd::prelude::*;
use crate::text::str_eq;

verus! {

/// A proleptic Gregorian leap year.
pub open spec fn is_leap(y: int) -> bool {
    (y % 4 == 0 && y % 100 != 0) || y % 400 == 0
}

/// How many leap years lie in `[0, y)`, for `y >= 0` (year 0 is one).
pub open spec fn leaps_before(y: int) -> int {
    (y + 3) / 4 - (y + 99) / 100 + (y + 399) / 400
}

/// Days of year `y` before the first of month `m` (1 to 12).
pub open spec fn days_before_month(y: int, m: int) -> int {
    let base: int = if m <= 1 { 0 }
        else if m == 2 { 31 }
        else if m == 3 { 59 }
        else if m == 4 { 90 }
        else if m == 5 { 120 }
        else if m == 6 { 151 }
        else if m == 7 { 181 }
        else if m == 8 { 212 }
        else if m == 9 { 243 }
        else if m == 10 { 273 }
        else if m == 11 { 304 }
        else { 334 };
    base + if m > 2 && is_leap(y) { 1int } else { 0int }
}

/// The number of days in month `m` of year `y`.
pub open spec fn days_in_month(y: int, m: int) -> int {
    if m == 2 {
        if is_leap(y) { 29 } else { 28 }
    } else if m == 4 || m == 6 || m == 9 || m == 11 {
        30
    } else {
        31
    }
}

/// Days from 0000-01-01 to 1970-01-01.
pub const UNIX_EPOCH_DAY: i64 = 719_528;

/// The unix day number of `y-m-d` (day 0 is 1970-01-01). A day past the end of
/// its month counts on into the next month.
pub open spec fn civil_day(y: int, m: int, d: int) -> int {
    365 * y + leaps_before(y) + days_before_month(y, m) + d - 1 - UNIX_EPOCH_DAY
}

/// The first unix day with a `u16` year: 0000-01-01.
pub const FIRST_DAY: i64 = -719_528;

/// One past the last unix day with a `u16` year: 65536-01-01.
pub const END_DAY: i64 = 23_217_004;

/// Year `y` (a `u16`) contains unix day `day`.
pub open spec fn year_holds(y: int, day: int) -> bool {
    0 <= y <= 0xffff && civil_day(y, 1, 1) <= day < civil_day(y + 1, 1, 1)
}

/// The year that contains unix day `day`.
pub open spec fn year_of_day(day: int) -> int {
    choose|y: int| #[trigger] year_holds(y, day)
}

/// A year has 365 days, 366 in a leap year.
pub proof fn lemma_year_length(y: int)
    requires
        y >= 0,
    ensures
        civil_day(y + 1, 1, 1) - civil_day(y, 1, 1) == if is_leap(y) { 366int } else { 365int },
{
    assert(leaps_before(y + 1) - leaps_before(y) == if is_leap(y) { 1int } else { 0int })
        by (nonlinear_arith)
        requires y >= 0;
}

/// New-year days increase with the year.
pub proof fn lemma_new_year_increasing(a: int, b: int)
    requires
        0 <= a < b,
    ensures
        civil_day(a, 1, 1) < civil_day(b, 1, 1),
    decreases b - a,
{
    lemma_year_length(b - 1);
    if a < b - 1 {
        lemma_new_year_increasing(a, b - 1);
    }
}

/// Each day in the `u16` range lies in exactly one year.
pub proof fn lemma_year_of_day(day: int, y: int)
    requires
        0 <= y <= 0xffff,
        civil_day(y, 1, 1) <= day < civil_day(y + 1, 1, 1),
    ensures
        year_of_day(day) == y,
{
    assert(year_holds(y, day));
    let w = year_of_day(day);
    assert(year_holds(w, day));
    if w < y {
        if w + 1 < y {
            lemma_new_year_increasing(w + 1, y);
        }
    }
    if y < w {
        if y + 1 < w {
            lemma_new_year_increasing(y + 1, w);
        }
    }
}

fn leaps_before_exec(y: u64) -> (r: u64)
    requires
        y <= 0x1_0000,
    ensures
        r == leaps_before(y as int),
{
    (y + 3) / 4 - (y + 99) / 100 + (y + 399) / 400
}

fn days_before_month_exec(y: u64, m: u64) -> (r: u64)
    requires
        y <= 0xffff,
    ensures
        r == days_before_month(y as int, m as int),
{
    let base: u64 = if m <= 1 {
        0
    } else if m == 2 {
        31
    } else if m == 3 {
        59
    } else if m == 4 {
        90
    } else if m == 5 {
        120
    } else if m == 6 {
        151
    } else if m == 7 {
        181
    } else if m == 8 {
        212
    } else if m == 9 {
        243
    } else if m == 10 {
        273
    } else if m == 11 {
        304
    } else {
        334
    };
    let leap = (y % 4 == 0 && y % 100 != 0) || y % 400 == 0;
    if m > 2 && leap {
        base + 1
    } else {
        base
    }
}

/// The unix day number of a civil date.
pub fn days_from_civil(y: u16, m: u8, d: u8) -> (r: i64)
    requires
        1 <= m <= 12,
    ensures
        r == civil_day(y as int, m as int, d as int),
{
    let yy = y as u64;
    let days: u64 = 365 * yy + leaps_before_exec(yy) + days_before_month_exec(yy, m as u64) + d
        as u64;
    days as i64 - 1 - UNIX_EPOCH_DAY
}

fn new_year_day(y: u64) -> (r: i64)
    requires
        y <= 0x1_0000,
    ensures
        r == civil_day(y as int, 1, 1),
{
    let days: u64 = 365 * y + leaps_before_exec(y);
    days as i64 - UNIX_EPOCH_DAY
}

/// The year of a unix day, for days with a `u16` year.
pub fn civil_year(day: i64) -> (y: u16)
    requires
        FIRST_DAY <= day < END_DAY,
    ensures
        y == year_of_day(day as int),
        civil_day(y as int, 1, 1) <= day < civil_day(y + 1, 1, 1),
{
    let mut lo: u64 = 0;
    let mut hi: u64 = 0x1_0000;
    while lo + 1 < hi
        invariant
            lo < hi <= 0x1_0000,
            civil_day(lo as int, 1, 1) <= day < civil_day(hi as int, 1, 1),
        decreases hi - lo,
    {
        let mid = lo + (hi - lo) / 2;
        if new_year_day(mid) <= day {
            lo = mid;
        } else {
            hi = mid;
        }
    }
    proof {
        lemma_year_of_day(day as int, lo as int);
    }
    lo as u16
}

/// The unix day of `unix` seconds (floor division).
pub open spec fn unix_day(unix: int) -> int {
    unix / 86_400
}

/// Unix seconds whose day has a `u16` year.
pub open spec fn in_clock_range(unix: int) -> bool {
    FIRST_DAY <= unix_day(unix) < END_DAY
}

/// Weekday of a unix day, `0` = Sunday (day 0 was a Thursday).
pub open spec fn weekday(day: int) -> int {
    (day + 4) % 7
}

/// 00:00 UTC of the last Sunday of `(y, m)`, in unix seconds; the 31st is taken
/// as the month's last day, which holds for March and October.
pub open spec fn last_sunday_spec(y: int, m: int) -> int {
    let z = civil_day(y, m, 31);
    (z - weekday(z)) * 86_400
}

/// Berlin's UTC offset at `unix`: +2h from the last Sunday of March 01:00 UTC
/// until the last Sunday of October 01:00 UTC, +1h otherwise.
pub open spec fn berlin_offset_spec(unix: int) -> int {
    let y = year_of_day(unix_day(unix));
    let start = last_sunday_spec(y, 3) + 3_600;
    let end = last_sunday_spec(y, 10) + 3_600;
    if start <= unix < end {
        7_200
    } else {
        3_600
    }
}

/// Day of week for a unix day number, `0` = Sunday.
pub fn weekday_of(day: i64) -> (r: i64)
    requires
        day <= i64::MAX - 4,
    ensures
        r == weekday(day as int),
        0 <= r < 7,
{
    let shifted = day + 4;
    match shifted.checked_rem_euclid(7) {
        Some(r) => r,
        None => 0,
    }
}

/// 00:00 UTC of the last Sunday of `(year, month)`.
pub fn last_sunday(year: u16, month: u8) -> (r: i64)
    requires
        1 <= month <= 12,
    ensures
        r == last_sunday_spec(year as int, month as int),
{
    let z = days_from_civil(year, month, 31);
    let wd = weekday_of(z);
    (z - wd) * 86_400
}

/// Berlin's UTC offset in seconds at `unix`: 3600 (CET) or 7200 (CEST).
pub fn berlin_offset(unix: i64) -> (r: i64)
    requires
        in_clock_range(unix as int),
    ensures
        r == berlin_offset_spec(unix as int),
        r == 3_600 || r == 7_200,
{
    let day: i64 = match unix.checked_div_euclid(86_400) {
        Some(d) => d,
        None => 0,
    };
    let year = civil_year(day);
    let start = last_sunday(year, 3) + 3_600;
    let end = last_sunday(year, 10) + 3_600;
    if unix >= start && unix < end {
        7_200
    } else {
        3_600
    }
}

/// The unix instant at which Berlin wall-clock reads `hour:minute` on UTC day
/// `day`, taking that day's offset at noon UTC.
pub open spec fn tick_on(day: int, hour: int, minute: int) -> int {
    let midnight = day * 86_400;
    midnight + hour * 3_600 + minute * 60 - berlin_offset_spec(midnight + 12 * 3_600)
}

/// `berlin_tick_on(day, hour, minute)` computes inside `i64` and inside the
/// `u16`-year calendar.
pub open spec fn tick_fits(day: int, hour: int, minute: int) -> bool {
    &&& FIRST_DAY <= day < END_DAY
    &&& i64::MIN <= hour * 3_600 <= i64::MAX
    &&& i64::MIN <= minute * 60 <= i64::MAX
    &&& i64::MIN <= day * 86_400 + hour * 3_600 <= i64::MAX
    &&& i64::MIN <= day * 86_400 + hour * 3_600 + minute * 60 <= i64::MAX
    &&& i64::MIN <= tick_on(day, hour, minute) <= i64::MAX
}

/// The unix instant at which Berlin wall-clock reads `hour:minute` on this UTC day.
pub fn berlin_tick_on(day: i64, hour: i64, minute: i64) -> (r: i64)
    requires
        tick_fits(day as int, hour as int, minute as int),
    ensures
        r == tick_on(day as int, hour as int, minute as int),
{
    let midnight = day * 86_400;
    proof {
        assert((midnight + 12 * 3_600) / 86_400 == day) by (nonlinear_arith)
            requires midnight == day * 86_400;
    }
    let offset = berlin_offset(midnight + 12 * 3_600);
    midnight + hour * 3_600 + minute * 60 - offset
}

/// Whether `berlin_tick_on(day, hour, minute)` can be computed.
pub fn tick_computable(day: i64, hour: i64, minute: i64) -> (r: bool)
    ensures
        r == tick_fits(day as int, hour as int, minute as int),
{
    if day < FIRST_DAY || day >= END_DAY {
        return false;
    }
    let h = match hour.checked_mul(3_600) {
        Some(h) => h,
        None => return false,
    };
    let m = match minute.checked_mul(60) {
        Some(m) => m,
        None => return false,
    };
    let midnight = day * 86_400;
    let a = match midnight.checked_add(h) {
        Some(a) => a,
        None => return false,
    };
    let b = match a.checked_add(m) {
        Some(b) => b,
        None => return false,
    };
    proof {
        assert((midnight + 12 * 3_600) / 86_400 == day) by (nonlinear_arith)
            requires midnight == day * 86_400;
    }
    let offset = berlin_offset(midnight + 12 * 3_600);
    b.checked_sub(offset).is_some()
}

/// `day` is a Monday to Friday.
pub open spec fn is_weekday(day: int) -> bool {
    weekday(day) != 0 && weekday(day) != 6
}

/// The tick `k` days after the day of `now`.
pub open spec fn day_tick(now: int, k: int, hour: int, minute: int) -> int {
    tick_on(unix_day(now) + k, hour, minute)
}

/// The tick `k` days after the day of `now` can be computed.
pub open spec fn day_tick_fits(now: int, k: int, hour: int, minute: int) -> bool {
    tick_fits(unix_day(now) + k, hour, minute)
}

/// The tick `k` days after `now`'s day is the first one after `now`.
pub open spec fn first_tick_after(now: int, hour: int, minute: int, k: int) -> bool {
    &&& 0 <= k < 8
    &&& day_tick(now, k, hour, minute) > now
    &&& forall|j: int| 0 <= j < k ==> #[trigger] day_tick(now, j, hour, minute) <= now
}

/// The next tick can be computed from `now`: one of the eight candidate days
/// has the first tick after `now`, and that day and the ones before it stay in
/// range.
pub open spec fn next_tick_ready(now: int, hour: int, minute: int) -> bool {
    exists|k: int|
        #[trigger] first_tick_after(now, hour, minute, k) && forall|j: int|
            0 <= j <= k ==> #[trigger] day_tick_fits(now, j, hour, minute)
}

/// The next unix instant at which Berlin wall-clock reads `hour:minute`, and
/// whether that day is a Monday to Friday; `None` when it cannot be computed.
pub fn next_berlin_tick_checked(now: i64, hour: i64, minute: i64) -> (r: Option<(i64, bool)>)
    ensures
        r.is_some() == next_tick_ready(now as int, hour as int, minute as int),
        r.is_some() ==> exists|k: int|
            first_tick_after(now as int, hour as int, minute as int, k) && r.unwrap().0
                == #[trigger] day_tick(now as int, k, hour as int, minute as int) && r.unwrap().1
                == is_weekday(unix_day(now as int) + k),
{
    let day: i64 = match now.checked_div_euclid(86_400) {
        Some(d) => d,
        None => 0,
    };
    proof {
        assert(day <= i64::MAX / 86_400 + 1);
    }
    let mut k: i64 = 0;
    while k < 8
        invariant
            day == unix_day(now as int),
            day <= i64::MAX / 86_400 + 1,
            0 <= k <= 8,
            forall|j: int| 0 <= j < k ==> #[trigger] day_tick(now as int, j, hour as int, minute as int) <= now,
            forall|j: int| 0 <= j < k ==> #[trigger] day_tick_fits(now as int, j, hour as int, minute as int),
        decreases 8 - k,
    {
        if !tick_computable(day + k, hour, minute) {
            proof {
                if next_tick_ready(now as int, hour as int, minute as int) {
                    let w = choose|w: int|
                        #[trigger] first_tick_after(now as int, hour as int, minute as int, w) && forall|j: int|
                            0 <= j <= w ==> #[trigger] day_tick_fits(now as int, j, hour as int, minute as int);
                    if w < k {
                        assert(day_tick(now as int, w, hour as int, minute as int) <= now);
                    }
                    assert(day_tick_fits(now as int, k as int, hour as int, minute as int));
                }
            }
            return None;
        }
        proof {
            assert(day_tick_fits(now as int, k as int, hour as int, minute as int));
        }
        let tick = berlin_tick_on(day + k, hour, minute);
        if tick > now {
            proof {
                assert(day_tick(now as int, k as int, hour as int, minute as int) == tick);
            }
            let wd = weekday_of(day + k);
            proof {
                assert(first_tick_after(now as int, hour as int, minute as int, k as int));
                assert forall|j: int| 0 <= j <= k implies #[trigger] day_tick_fits(now as int, j, hour as int, minute as int) by {
                    if j < k {
                        assert(day_tick_fits(now as int, j, hour as int, minute as int));
                    }
                }
            }
            return Some((tick, wd != 0 && wd != 6));
        }
        proof {
            assert(day_tick(now as int, k as int, hour as int, minute as int) == tick);
        }
        k = k + 1;
    }
    proof {
        if next_tick_ready(now as int, hour as int, minute as int) {
            let w = choose|w: int|
                #[trigger] first_tick_after(now as int, hour as int, minute as int, w) && forall|j: int|
                    0 <= j <= w ==> #[trigger] day_tick_fits(now as int, j, hour as int, minute as int);
            assert(day_tick(now as int, w, hour as int, minute as int) <= now);
        }
    }
    None
}

/// The next unix instant at which Berlin wall-clock reads `hour:minute`, and
/// whether that day is a Monday to Friday.
pub fn next_berlin_tick(now: i64, hour: i64, minute: i64) -> (r: (i64, bool))
    requires
        next_tick_ready(now as int, hour as int, minute as int),
    ensures
        exists|k: int|
            first_tick_after(now as int, hour as int, minute as int, k) && r.0 == #[trigger] day_tick(
                now as int,
                k,
                hour as int,
                minute as int,
            ) && r.1 == is_weekday(unix_day(now as int) + k),
{
    match next_berlin_tick_checked(now, hour, minute) {
        Some(t) => t,
        None => (0, false),
    }
}

/// A clock-face time has a next occurrence within two days, so the next tick
/// can be computed wherever those days are in range.
pub proof fn lemma_next_tick_exists(now: int, hour: int, minute: int)
    requires
        0 <= hour * 3_600 + minute * 60,
        forall|k: int| 0 <= k < 8 ==> #[trigger] day_tick_fits(now, k, hour, minute),
    ensures
        next_tick_ready(now, hour, minute),
{
    let day = unix_day(now);
    assert(day_tick_fits(now, 2, hour, minute));
    assert(now < (day + 1) * 86_400) by (nonlinear_arith)
        requires day == now / 86_400;
    assert((day + 2) * 86_400 == day * 86_400 + 2 * 86_400) by (nonlinear_arith);
    assert(day_tick(now, 2, hour, minute) > now);
    if day_tick(now, 0, hour, minute) > now {
        assert(first_tick_after(now, hour, minute, 0));
        assert(forall|j: int| 0 <= j <= 0 ==> #[trigger] day_tick_fits(now, j, hour, minute));
    } else if day_tick(now, 1, hour, minute) > now {
        assert(forall|j: int| 0 <= j < 1 ==> #[trigger] day_tick(now, j, hour, minute) <= now);
        assert(first_tick_after(now, hour, minute, 1));
        assert(forall|j: int| 0 <= j <= 1 ==> #[trigger] day_tick_fits(now, j, hour, minute));
    } else {
        assert(forall|j: int| 0 <= j < 2 ==> #[trigger] day_tick(now, j, hour, minute) <= now);
        assert(first_tick_after(now, hour, minute, 2));
        assert(forall|j: int| 0 <= j <= 2 ==> #[trigger] day_tick_fits(now, j, hour, minute));
    }
}

/// Whether today's daily tick can be computed, as `startup_catch_up` needs.
pub fn today_tick_computable(now: i64) -> (r: bool)
    ensures
        r == tick_fits(unix_day(now as int), DAILY_TICK_HOUR as int, DAILY_TICK_MINUTE as int),
{
    let day: i64 = match now.checked_div_euclid(86_400) {
        Some(d) => d,
        None => 0,
    };
    tick_computable(day, DAILY_TICK_HOUR, DAILY_TICK_MINUTE)
}

/// One finished run from the job log, as the scheduler reads it.
#[derive(Debug)]
pub struct JobRun {
    pub id: i64,
    pub job_id: Option<i64>,
    pub kind: String,
    pub params: String,
    pub started_at: i64,
    pub finished_at: i64,
    pub outcome: String,
    pub counts: String,
}

/// A successful probe that finished at or after `tick`.
pub open spec fn serves_tick(run: JobRun, tick: int) -> bool {
    run.kind@ == "probe"@ && run.outcome@ == "ok"@ && run.finished_at >= tick
}

/// Whether the day's tick passed without being served: it is not in the future,
/// no probe is still queued, and no successful probe finished at or after it.
pub open spec fn needs_catch_up(tick: int, now: int, runs: Seq<JobRun>, probe_queued: bool) -> bool {
    &&& tick <= now
    &&& !probe_queued
    &&& !(exists|i: int| 0 <= i < runs.len() && serves_tick(#[trigger] runs[i], tick))
}

/// Whether startup should run today's daily pipeline now.
pub fn tick_needs_catch_up(tick: i64, now: i64, runs: &[JobRun], probe_queued: bool) -> (r: bool)
    ensures
        r == needs_catch_up(tick as int, now as int, runs@, probe_queued),
{
    if tick > now || probe_queued {
        return false;
    }
    let mut i: usize = 0;
    while i < runs.len()
        invariant
            i <= runs@.len(),
            forall|j: int| 0 <= j < i ==> !serves_tick(#[trigger] runs@[j], tick as int),
        decreases runs@.len() - i,
    {
        let r = &runs[i];
        if str_eq(r.kind.as_str(), "probe") && str_eq(r.outcome.as_str(), "ok") && r.finished_at
            >= tick {
            proof {
                assert(serves_tick(runs@[i as int], tick as int));
            }
            return false;
        }
        i = i + 1;
    }
    true
}

/// The daily pipeline's Berlin wall-clock tick: 09:35.
pub const DAILY_TICK_HOUR: i64 = 9;

/// The daily pipeline's Berlin wall-clock tick: 09:35.
pub const DAILY_TICK_MINUTE: i64 = 35;

/// When the weekly measurement is queued: Berlin `(weekday, hour, minute)`,
/// `0` = Sunday.
pub const REPORT_TICK: (i64, i64, i64) = (0, 3, 10);

/// Whether a report tick at `tick` falls on the report weekday (a pre-dawn Berlin
/// tick lies on the same UTC day at either offset).
pub fn is_report_day(tick: i64) -> (r: bool)
    ensures
        r == (weekday(unix_day(tick as int)) == REPORT_TICK.0),
{
    let day: i64 = match tick.checked_div_euclid(86_400) {
        Some(d) => d,
        None => 0,
    };
    proof {
        assert(day <= i64::MAX / 86_400 + 1);
    }
    weekday_of(day) == REPORT_TICK.0
}

/// What startup does about today's daily tick: `Some(weekday)` when the tick
/// passed unserved and today's pipeline should run now (with whether today is a
/// Monday to Friday), `None` otherwise.
pub fn startup_catch_up(now: i64, runs: &[JobRun], probe_queued: bool) -> (r: Option<bool>)
    requires
        tick_fits(unix_day(now as int), DAILY_TICK_HOUR as int, DAILY_TICK_MINUTE as int),
    ensures
        ({
            let day = unix_day(now as int);
            let tick = tick_on(day, DAILY_TICK_HOUR as int, DAILY_TICK_MINUTE as int);
            &&& r.is_some() == needs_catch_up(tick, now as int, runs@, probe_queued)
            &&& r.is_some() ==> r.unwrap() == is_weekday(day)
        }),
{
    let day: i64 = match now.checked_div_euclid(86_400) {
        Some(d) => d,
        None => 0,
    };
    let tick = berlin_tick_on(day, DAILY_TICK_HOUR, DAILY_TICK_MINUTE);
    if !tick_needs_catch_up(tick, now, runs, probe_queued) {
        return None;
    }
    let wd = weekday_of(day);
    Some(wd != 0 && wd != 6)
}

} // verus!
