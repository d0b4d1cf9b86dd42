//! Epoch converter: civil date and time to a day count from J2000.0.
//!
//! The day count is measured in nano-days from the J2000.0 reference
//! instant (2000-01-01 12:00 dynamical time) and is the sole independent
//! variable of the trigonometric series. The formula treats January and
//! February as months 13 and 14 of the previous year, so that the leap
//! day falls at the end of the counting year, and adds an empirical
//! Earth-rotation correction.

use vstd::prelude::*;
use vstd::arithmetic::div_mod::lemma_div_is_ordered;
use vstd::arithmetic::div_mod::lemma_div_pos_is_pos;
use vstd::arithmetic::div_mod::lemma_fundamental_div_mod;
use vstd::arithmetic::div_mod::lemma_fundamental_div_mod_converse_div;
use vstd::arithmetic::div_mod::lemma_mod_multiples_vanish;
use vstd::arithmetic::div_mod::lemma_multiply_divide_lt;
use vstd::arithmetic::mul::lemma_mul_inequality;
use crate::num::NANO;
use crate::num::fdiv64;
use crate::num::lemma_fdiv_sign_bound;
use crate::num::lemma_mul_fdiv_bound;
use crate::num::mul_fdiv;

verus! {

/// Earliest calendar year the converter accepts.
pub const YEAR_MIN: i64 = 1000;

/// Latest calendar year the converter accepts.
pub const YEAR_MAX: i64 = 2999;

/// Bound on the magnitude of any epoch produced from a valid civil
/// date and time, in nano-days.
pub const DAY_NANO_ABS_MAX: i64 = 370_000_000_000_000;

/// Deployment-wide configuration: the fixed civil time-zone offset and
/// the standard horizon depression angle.
#[derive(Clone, Copy, Debug)]
pub struct Settings {
    /// Civil time-zone offset east of Greenwich, in seconds.
    pub zone_offset_seconds: i64,
    /// Standard horizon depression angle, in micro-degrees.
    pub horizon_r_micro: i64,
}

impl Settings {
    /// Ranges under which every computation of the crate stays exact.
    pub open spec fn valid(self) -> bool {
        &&& -86400 <= self.zone_offset_seconds <= 86400
        &&& 0 <= self.horizon_r_micro <= 10_000_000
    }
}

impl Default for Settings {
    /// The deployment default: civil offset UTC+9 and the standard
    /// horizon depression angle of 0.585556 degrees.
    fn default() -> (s: Settings)
        ensures
            s.valid(),
            s.zone_offset_seconds == 32400,
            s.horizon_r_micro == 585556,
    {
        Settings { zone_offset_seconds: 32400, horizon_r_micro: 585556 }
    }
}

/// A proleptic Gregorian leap year.
pub open spec fn spec_is_leap_year(y: int) -> bool {
    y % 4 == 0 && (y % 100 != 0 || y % 400 == 0)
}

/// The number of days of month `m` of year `y`.
pub open spec fn spec_days_in_month(y: int, m: int) -> int {
    if m == 2 {
        if spec_is_leap_year(y) {
            29
        } else {
            28
        }
    } else if m == 4 || m == 6 || m == 9 || m == 11 {
        30
    } else {
        31
    }
}

/// A civil calendar date.
#[derive(Clone, Copy, Debug, PartialEq, Eq, Structural)]
pub struct CivilDate {
    pub year: i64,
    pub month: i64,
    pub day: i64,
}

impl CivilDate {
    /// A real Gregorian date within the supported year range.
    pub open spec fn valid(self) -> bool {
        &&& YEAR_MIN as int <= self.year <= YEAR_MAX as int
        &&& 1 <= self.month <= 12
        &&& 1 <= self.day <= spec_days_in_month(self.year as int, self.month as int)
    }

    /// Attaches a wall-clock time to the date.
    pub fn and_hms(self, hour: i64, minute: i64, second: i64) -> (dt: CivilDateTime)
        ensures
            dt.date == self,
            dt.hour == hour,
            dt.minute == minute,
            dt.second == second,
    {
        CivilDateTime { date: self, hour, minute, second }
    }

    /// Whether the date is a real Gregorian date within the supported
    /// range, decided at run time.
    pub fn check_valid(&self) -> (b: bool)
        ensures
            b == self.valid(),
    {
        let leap = self.year % 4 == 0 && (self.year % 100 != 0 || self.year % 400 == 0);
        let dim: i64 = if self.month == 2 {
            if leap {
                29
            } else {
                28
            }
        } else if self.month == 4 || self.month == 6 || self.month == 9 || self.month == 11 {
            30
        } else {
            31
        };
        YEAR_MIN <= self.year && self.year <= YEAR_MAX && 1 <= self.month && self.month <= 12
            && 1 <= self.day && self.day <= dim
    }
}

/// A civil calendar date with a wall-clock time.
#[derive(Clone, Copy, Debug, PartialEq, Eq, Structural)]
pub struct CivilDateTime {
    pub date: CivilDate,
    pub hour: i64,
    pub minute: i64,
    pub second: i64,
}

impl CivilDateTime {
    /// A valid date with a valid wall-clock reading.
    pub open spec fn valid(self) -> bool {
        &&& self.date.valid()
        &&& 0 <= self.hour < 24
        &&& 0 <= self.minute < 60
        &&& 0 <= self.second < 60
    }

    /// Seconds elapsed since the midnight that began this civil day.
    pub open spec fn spec_sec_of_day(self) -> int {
        self.hour * 3600 + self.minute * 60 + self.second
    }
}

/// Strict "earlier than" on civil date-times: lexicographic on the
/// date, then by wall-clock seconds.
pub open spec fn spec_civil_lt(a: CivilDateTime, b: CivilDateTime) -> bool {
    ||| a.date.year < b.date.year
    ||| (a.date.year == b.date.year && a.date.month < b.date.month)
    ||| (a.date.year == b.date.year && a.date.month == b.date.month && a.date.day < b.date.day)
    ||| (a.date == b.date && a.spec_sec_of_day() < b.spec_sec_of_day())
}

/// The year of the day-count formula: January and February belong to
/// the previous year.
pub open spec fn spec_fixed_year(y: int, m: int) -> int {
    if m <= 2 {
        y - 2001
    } else {
        y - 2000
    }
}

/// The month of the day-count formula: January and February become
/// months 13 and 14.
pub open spec fn spec_fixed_month(m: int) -> int {
    if m <= 2 {
        m + 12
    } else {
        m
    }
}

/// The whole-day part of the day count: a linear year/month/day ramp
/// with a month-length correction and a leap-day term.
pub open spec fn spec_day_whole(y: int, m: int, d: int) -> int {
    let fy = spec_fixed_year(y, m);
    let fm = spec_fixed_month(m);
    365 * fy + 30 * fm + d + (3 * (fm + 1)) / 5 + fy / 4
}

/// The empirical Earth-rotation correction, in nano-days.
pub open spec fn spec_rot_nano(y: int) -> int {
    ((570 + 8 * (y - 1990)) * NANO as int) / 864000
}

/// The day-of-time fraction, in nano-days.
pub open spec fn spec_frac_nano(sec_of_day: int) -> int {
    (sec_of_day * NANO as int) / 86400
}

/// Days from the J2000.0 epoch to the given civil instant, in
/// nano-days, for a civil zone `off` seconds east of Greenwich.
pub open spec fn spec_j2000day(dt: CivilDateTime, off: int) -> int {
    spec_day_whole(dt.date.year as int, dt.date.month as int, dt.date.day as int) * (NANO as int)
        - 33_500_000_000 - (off * NANO as int) / 86400 + spec_frac_nano(dt.spec_sec_of_day())
        + spec_rot_nano(dt.date.year as int)
}

/// The series time variable: the epoch divided by the Julian year of
/// 365.25 days, in nano-units.
pub open spec fn spec_j2000year(day_nano: int) -> int {
    (day_nano * 4) / 1461
}

/// Days from the J2000.0 epoch to the given civil instant, in
/// nano-days.
pub fn j2000day(dt: &CivilDateTime, settings: &Settings) -> (r: i64)
    requires
        dt.valid(),
        settings.valid(),
    ensures
        r == spec_j2000day(*dt, settings.zone_offset_seconds as int),
        -DAY_NANO_ABS_MAX <= r <= DAY_NANO_ABS_MAX,
{
    let y = dt.date.year;
    let m = dt.date.month;
    let d = dt.date.day;
    let fy: i64 = if m <= 2 { y - 2001 } else { y - 2000 };
    let fm: i64 = if m <= 2 { m + 12 } else { m };
    let q1 = fdiv64(3 * (fm + 1), 5);
    let q2 = fdiv64(fy, 4);
    proof {
        lemma_fdiv_sign_bound(3 * (fm as int + 1), 5);
        lemma_fdiv_sign_bound(fy as int, 4);
    }
    let dw = 365 * fy + 30 * fm + d + q1 + q2;
    let sec = dt.hour * 3600 + dt.minute * 60 + dt.second;
    proof {
        lemma_mul_fdiv_bound(settings.zone_offset_seconds as int, NANO as int, 86400, 86400,
            NANO as int);
        lemma_mul_fdiv_bound(sec as int, NANO as int, 86400, 86400, NANO as int);
        lemma_mul_fdiv_bound(570 + 8 * (y as int - 1990), NANO as int, 864000, 8650, NANO as int);
    }
    let off_nano = fdiv64(settings.zone_offset_seconds * NANO, 86400);
    let frac = fdiv64(sec * NANO, 86400);
    let rot = fdiv64((570 + 8 * (y - 1990)) * NANO, 864000);
    dw * NANO - 33_500_000_000 - off_nano + frac + rot
}

/// Stepping from any valid day of a month to the first day of the next
/// month moves the whole-day count strictly forward.
proof fn lemma_day_whole_month_step(y: int, m: int, d: int)
    requires
        1 <= m <= 11,
        1 <= d <= spec_days_in_month(y, m),
    ensures
        spec_day_whole(y, m, d) < spec_day_whole(y, m + 1, 1),
{
    if m == 2 {
        let e = y - 2000;
        lemma_div_is_ordered(e - 1, e, 4);
        if d == 29 {
            assert(y % 4 == 0);
            lemma_mod_multiples_vanish(-500, y, 4);
            assert(4 * (-500) + y == e);
            assert(e % 4 == 0);
            lemma_fundamental_div_mod(e, 4);
            let k = e / 4;
            assert(e - 1 == (k - 1) * 4 + 3);
            lemma_fundamental_div_mod_converse_div(e - 1, 4, k - 1, 3);
        }
    }
}

/// Within one year, the whole-day count of the first of a later month
/// is no earlier.
proof fn lemma_day_whole_month_chain(y: int, m1: int, m2: int)
    requires
        1 <= m1 <= m2 <= 12,
    ensures
        spec_day_whole(y, m1, 1) <= spec_day_whole(y, m2, 1),
    decreases m2 - m1,
{
    if m1 < m2 {
        lemma_day_whole_month_step(y, m1, 1);
        lemma_day_whole_month_chain(y, m1 + 1, m2);
    }
}

/// Any valid day of a year precedes the first of January of the next
/// year in the whole-day count.
proof fn lemma_day_whole_year_step(y: int, m: int, d: int)
    requires
        1 <= m <= 12,
        1 <= d <= spec_days_in_month(y, m),
    ensures
        spec_day_whole(y, m, d) < spec_day_whole(y + 1, 1, 1),
{
    if m <= 11 {
        lemma_day_whole_month_step(y, m, d);
        lemma_day_whole_month_chain(y, m + 1, 12);
        assert(spec_day_whole(y, 12, 1) <= spec_day_whole(y, 12, 31));
    }
    assert(spec_day_whole(y, 12, 31) + 1 == spec_day_whole(y + 1, 1, 1));
}

/// The whole-day count of the first of January grows with the year.
proof fn lemma_day_whole_year_chain(y1: int, y2: int)
    requires
        y1 <= y2,
    ensures
        spec_day_whole(y1, 1, 1) <= spec_day_whole(y2, 1, 1),
{
    lemma_div_is_ordered(y1 - 2001, y2 - 2001, 4);
    lemma_mul_inequality(y1 - 2001, y2 - 2001, 365);
}

/// The whole-day count orders valid dates as the calendar does.
proof fn lemma_day_whole_lt(a: CivilDate, b: CivilDate)
    requires
        a.valid(),
        b.valid(),
        a.year < b.year || (a.year == b.year && a.month < b.month) || (a.year == b.year
            && a.month == b.month && a.day < b.day),
    ensures
        spec_day_whole(a.year as int, a.month as int, a.day as int) < spec_day_whole(
            b.year as int, b.month as int, b.day as int),
{
    let (ya, ma, da) = (a.year as int, a.month as int, a.day as int);
    let (yb, mb, db) = (b.year as int, b.month as int, b.day as int);
    if ya == yb {
        if ma == mb {
        } else {
            lemma_day_whole_month_step(ya, ma, da);
            lemma_day_whole_month_chain(ya, ma + 1, mb);
            assert(spec_day_whole(yb, mb, 1) <= spec_day_whole(yb, mb, db));
        }
    } else {
        lemma_day_whole_year_step(ya, ma, da);
        lemma_day_whole_year_chain(ya + 1, yb);
        lemma_day_whole_month_chain(yb, 1, mb);
        assert(spec_day_whole(yb, mb, 1) <= spec_day_whole(yb, mb, db));
    }
}

/// The time-of-day fraction stays within one day and grows strictly
/// with the wall-clock second.
proof fn lemma_frac_nano_bounds(sec: int)
    requires
        0 <= sec <= 86399,
    ensures
        0 <= spec_frac_nano(sec) < NANO as int,
{
    lemma_div_pos_is_pos(sec * NANO as int, 86400);
    lemma_mul_inequality(sec, 86399, NANO as int);
    lemma_multiply_divide_lt(sec * NANO as int, 86400, NANO as int);
}

/// The Earth-rotation correction never shrinks as years pass.
proof fn lemma_rot_nano_mono(y1: int, y2: int)
    requires
        y1 <= y2,
    ensures
        spec_rot_nano(y1) <= spec_rot_nano(y2),
{
    lemma_mul_inequality(570 + 8 * (y1 - 1990), 570 + 8 * (y2 - 1990), NANO as int);
    lemma_div_is_ordered((570 + 8 * (y1 - 1990)) * NANO as int,
        (570 + 8 * (y2 - 1990)) * NANO as int, 864000);
}

/// Epoch conversion is strictly monotone in civil time for a fixed
/// civil time-zone offset: a later civil instant always maps to a
/// larger day count.
pub proof fn lemma_j2000day_monotonic(a: CivilDateTime, b: CivilDateTime, off: int)
    requires
        a.valid(),
        b.valid(),
        spec_civil_lt(a, b),
    ensures
        spec_j2000day(a, off) < spec_j2000day(b, off),
{
    let dwa = spec_day_whole(a.date.year as int, a.date.month as int, a.date.day as int);
    let dwb = spec_day_whole(b.date.year as int, b.date.month as int, b.date.day as int);
    lemma_frac_nano_bounds(a.spec_sec_of_day());
    lemma_frac_nano_bounds(b.spec_sec_of_day());
    if a.date == b.date {
        crate::num::lemma_fdiv_strict_mono(a.spec_sec_of_day() * NANO as int,
            b.spec_sec_of_day() * NANO as int, 86400);
        assert((b.spec_sec_of_day() - a.spec_sec_of_day()) * NANO as int >= NANO as int) by (nonlinear_arith)
            requires
                b.spec_sec_of_day() - a.spec_sec_of_day() >= 1,
        ;
        assert(b.spec_sec_of_day() * NANO as int - a.spec_sec_of_day() * NANO as int
            == (b.spec_sec_of_day() - a.spec_sec_of_day()) * NANO as int) by (nonlinear_arith);
    } else {
        lemma_day_whole_lt(a.date, b.date);
        lemma_rot_nano_mono(a.date.year as int, b.date.year as int);
        assert((dwb - dwa) * NANO as int >= NANO as int) by (nonlinear_arith)
            requires
                dwb - dwa >= 1,
        ;
        assert(dwb * NANO as int - dwa * NANO as int == (dwb - dwa) * NANO as int)
            by (nonlinear_arith);
    }
}

/// The series time variable for an epoch, in nano-units.
pub fn j2000year(day_nano: i64) -> (t: i64)
    requires
        -1_600_000_000_000_000 <= day_nano <= 1_600_000_000_000_000,
    ensures
        t == spec_j2000year(day_nano as int),
        -4_400_000_000_000 <= t <= 4_400_000_000_000,
{
    proof {
        lemma_mul_fdiv_bound(day_nano as int, 4, 1461, 1_600_000_000_000_000, 4);
    }
    mul_fdiv(day_nano, 4, 1461)
}

} // verus!
