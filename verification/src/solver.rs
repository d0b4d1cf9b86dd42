//! The two fixed-point solvers: the Moon-age search and the
//! moonrise/moonset search.
//!
//! Both iterate a Newton-like correction until the residual falls
//! under its threshold, and both carry an explicit iteration budget:
//! exhausting it yields a typed non-convergence result instead of an
//! unbounded loop. The rise/set solver checks the horizon equation's
//! domain before taking the inverse cosine and reports a circumpolar
//! Moon as a distinct outcome, never an undefined number.

use vstd::prelude::*;
use crate::angle::DEG90;
use crate::angle::DEG180;
use crate::angle::DEG360;
use crate::angle::adjust0to360;
use crate::angle::adjust180abs;
use crate::angle::spec_adjust0to360;
use crate::angle::spec_adjust180abs;
use crate::coord::ecliptic2equatorial;
use crate::coord::get_sidereal_time;
use crate::coord::spec_equatorial_latitude;
use crate::coord::spec_equatorial_longitude;
use crate::coord::spec_sidereal_time;
use crate::coord::ecliptic_tilt_angle;
use crate::coord::spec_ecliptic_tilt_angle;
use crate::epoch::CivilDate;
use crate::epoch::DAY_NANO_ABS_MAX;
use crate::epoch::Settings;
use crate::epoch::spec_j2000day;
use crate::epoch::j2000day;
use crate::num::NANO;
use crate::num::abs64;
use crate::num::lemma_mul_fdiv_bound;
use crate::num::mul_fdiv;
use crate::num::spec_abs;
use crate::series::get_moon_ecliptic;
use crate::series::get_moon_longitude;
use crate::series::get_moon_parallax;
use crate::series::get_sun_longitude;
use crate::series::spec_moon_ecliptic;
use crate::series::spec_moon_longitude;
use crate::series::spec_moon_parallax;
use crate::series::spec_sun_longitude;
use crate::trig::acos;
use crate::trig::cos;
use crate::trig::mul_nano;
use crate::trig::sin;
use crate::trig::spec_acos;
use crate::trig::spec_cos;
use crate::trig::spec_mul_nano;
use crate::trig::spec_sin;

verus! {

/// Which horizon crossing the rise/set solver looks for.
#[derive(Clone, Copy, Debug, PartialEq, Eq, Structural)]
pub enum MoonCalcMode {
    /// The negative hour-angle branch: the Moon coming up.
    Rising,
    /// The positive hour-angle branch: the Moon going down.
    Setting,
}

/// Why a solver did not hand back a number.
#[derive(Clone, Copy, Debug, PartialEq, Eq, Structural)]
pub enum MoonError {
    /// The iteration budget ran out before the residual fell under its
    /// threshold.
    NonConvergence,
    /// The horizon equation has no real root: the Moon stays above the
    /// horizon for the whole day.
    AlwaysAbove,
    /// The horizon equation has no real root: the Moon stays below the
    /// horizon for the whole day.
    AlwaysBelow,
}

/// Iteration budget of both solvers.
pub const ITER_CAP: u32 = 50;

/// Elongation threshold of the age solver: 0.05 degrees, in
/// micro-degrees.
pub const AGE_THRESHOLD_MICRO: i64 = 50_000;

/// Step threshold of the rise/set solver: five millionths of a day, in
/// nano-days.
pub const RISE_SET_THRESHOLD_NANO: i64 = 5_000;

/// The age solver never hands back more than one synodic month (with
/// headroom): 29.6 days in nano-days.
pub const AGE_NANO_MAX: i64 = 29_600_000_000;

/// A geographic position: degrees east and degrees north, in
/// micro-degrees.
#[derive(Clone, Copy, Debug, PartialEq, Eq, Structural)]
pub struct GeoPosition {
    pub longitude: i64,
    pub latitude: i64,
}

impl GeoPosition {
    /// Longitude within a half turn of Greenwich, latitude between the
    /// poles.
    pub open spec fn valid(self) -> bool {
        &&& -DEG180 as int <= self.longitude <= DEG180 as int
        &&& -DEG90 as int <= self.latitude <= DEG90 as int
    }

    /// Decides validity at run time.
    pub fn check_valid(&self) -> (b: bool)
        ensures
            b == self.valid(),
    {
        -DEG180 <= self.longitude && self.longitude <= DEG180 && -DEG90 <= self.latitude
            && self.latitude <= DEG90
    }
}

/// An executable result agrees with a mathematical one.
pub open spec fn result_matches(r: Result<i64, MoonError>, s: Result<int, MoonError>) -> bool {
    match (r, s) {
        (Ok(a), Ok(b)) => a == b,
        (Err(a), Err(b)) => a == b,
        _ => false,
    }
}

/// One backward step of the age search, and the steps after it. The
/// raw lunar-solar elongation drives the termination test; only the
/// first step normalizes it into `[0, 360)` before computing the
/// correction, to avoid a huge spurious step when the raw difference
/// straddles a full turn.
pub open spec fn spec_age_step(t0: int, tn: int, first: bool, fuel: nat) -> Result<
    int,
    MoonError,
>
    decreases fuel,
{
    if fuel == 0 {
        Err(MoonError::NonConvergence)
    } else {
        let delta = spec_moon_longitude(tn) - spec_sun_longitude(tn);
        let adjusted = if first {
            spec_adjust0to360(delta)
        } else {
            delta
        };
        let gn = (adjusted * NANO as int) / 12_190_800;
        let tn2 = tn - gn;
        if spec_abs(delta) < AGE_THRESHOLD_MICRO as int {
            Ok(t0 - tn2)
        } else {
            spec_age_step(t0, tn2, false, (fuel - 1) as nat)
        }
    }
}

/// Runs the age search from the step spec above.
fn age_step(t0: i64, tn: i64, first: bool, fuel: u32) -> (r: Result<i64, MoonError>)
    requires
        fuel <= ITER_CAP,
        -DAY_NANO_ABS_MAX <= t0 <= DAY_NANO_ABS_MAX,
        -(DAY_NANO_ABS_MAX as int) - (ITER_CAP - fuel) * 30_000_000_000 <= tn
            <= DAY_NANO_ABS_MAX as int + (ITER_CAP - fuel) * 30_000_000_000,
    ensures
        result_matches(r, spec_age_step(t0 as int, tn as int, first, fuel as nat)),
    decreases fuel,
{
    if fuel == 0 {
        return Err(MoonError::NonConvergence);
    }
    let delta = get_moon_longitude(tn) - get_sun_longitude(tn);
    let adjusted = if first {
        adjust0to360(delta)
    } else {
        delta
    };
    proof {
        lemma_mul_fdiv_bound(adjusted as int, NANO as int, 12_190_800, 360_000_000, NANO as int);
    }
    let gn = mul_fdiv(adjusted, NANO, 12_190_800);
    let tn2 = tn - gn;
    if abs64(delta) < AGE_THRESHOLD_MICRO {
        Ok(t0 - tn2)
    } else {
        age_step(t0, tn2, false, fuel - 1)
    }
}

/// What the age solver hands back for a date: the fixed-point search
/// started at local noon, with a result outside the plausible synodic
/// window treated as a failed search.
pub open spec fn spec_moon_age(date: CivilDate, off: int) -> Result<int, MoonError> {
    let t0 = spec_j2000day(
        crate::epoch::CivilDateTime { date, hour: 12, minute: 0, second: 0 },
        off,
    );
    match spec_age_step(t0, t0, true, ITER_CAP as nat) {
        Ok(age) => if 0 <= age < AGE_NANO_MAX as int {
            Ok(age)
        } else {
            Err(MoonError::NonConvergence)
        },
        Err(e) => Err(e),
    }
}

/// The denominator of the horizon equation: the product of the
/// cosines of declination and latitude, scaled by `1e9`.
pub open spec fn spec_horizon_den(decl: int, lat: int) -> int {
    spec_mul_nano(spec_cos(decl), spec_cos(lat))
}

/// The numerator of the horizon equation: the sine of the target
/// altitude minus the product of the sines of declination and
/// latitude, scaled by `1e9`.
pub open spec fn spec_horizon_num(decl: int, lat: int, k: int) -> int {
    spec_sin(k) - spec_mul_nano(spec_sin(decl), spec_sin(lat))
}

/// The circumpolar condition: the horizon-crossing equation has no
/// real root, because the cosine of the hour angle would leave
/// `[-1, 1]` (or its denominator vanishes at a pole).
pub open spec fn spec_circumpolar(decl: int, lat: int, k: int) -> bool {
    let den = spec_horizon_den(decl, lat);
    let num = spec_horizon_num(decl, lat, k);
    den <= 0 || spec_abs((num * NANO as int) / den) > NANO as int
}

/// The hour angle at which the Moon crosses the target altitude `k`:
/// negative for a rise, positive for a set, in micro-degrees; or the
/// circumpolar outcome, told apart by which side of the horizon the
/// Moon keeps to.
pub open spec fn spec_horizon_hour_angle(decl: int, lat: int, k: int, mode: MoonCalcMode) -> Result<
    int,
    MoonError,
> {
    let den = spec_horizon_den(decl, lat);
    let num = spec_horizon_num(decl, lat, k);
    if den <= 0 {
        if num > 0 {
            Err(MoonError::AlwaysBelow)
        } else {
            Err(MoonError::AlwaysAbove)
        }
    } else {
        let cos_tk = (num * NANO as int) / den;
        if cos_tk > NANO as int {
            Err(MoonError::AlwaysBelow)
        } else if cos_tk < -(NANO as int) {
            Err(MoonError::AlwaysAbove)
        } else {
            match mode {
                MoonCalcMode::Rising => Ok(-spec_acos(cos_tk)),
                MoonCalcMode::Setting => Ok(spec_acos(cos_tk)),
            }
        }
    }
}

/// Solves the horizon equation for the signed hour angle, checking the
/// inverse cosine's domain first: it reports a circumpolar Moon
/// exactly when the equation has no real root, and never feeds an
/// out-of-range value to the inverse cosine.
pub fn horizon_hour_angle(decl: i64, lat: i64, k: i64, mode: MoonCalcMode) -> (r: Result<
    i64,
    MoonError,
>)
    requires
        -DEG90 <= decl <= DEG90,
        -DEG90 <= lat <= DEG90,
        -400_000_000 <= k <= 400_000_000,
    ensures
        result_matches(r, spec_horizon_hour_angle(decl as int, lat as int, k as int, mode)),
        (r is Err) == spec_circumpolar(decl as int, lat as int, k as int),
        r is Ok ==> -DEG180 <= r.unwrap() <= DEG180,
{
    let den = mul_nano(cos(decl), cos(lat));
    let num = sin(k) - mul_nano(sin(decl), sin(lat));
    if den <= 0 {
        if num > 0 {
            Err(MoonError::AlwaysBelow)
        } else {
            Err(MoonError::AlwaysAbove)
        }
    } else {
        proof {
            lemma_mul_fdiv_bound(num as int, NANO as int, den as int, 2_100_000_000, NANO as int);
            crate::num::lemma_fdiv_sign_bound(num as int * NANO as int, den as int);
        }
        let cos_tk = mul_fdiv(num, NANO, den);
        if cos_tk > NANO {
            Err(MoonError::AlwaysBelow)
        } else if cos_tk < -NANO {
            Err(MoonError::AlwaysAbove)
        } else {
            let tk = acos(cos_tk);
            match mode {
                MoonCalcMode::Rising => Ok(-tk),
                MoonCalcMode::Setting => Ok(tk),
            }
        }
    }
}

/// One trial of the rise/set search at day-fraction `d`, and the
/// trials after it: the Moon's position at `midnight + d` is turned
/// into the hour angle needed to sit at the target altitude, compared
/// with the hour angle it actually has, and the difference drives the
/// next correction.
pub open spec fn spec_rise_set_step(
    midnight: int,
    sidereal: int,
    tilt: int,
    lon: int,
    lat: int,
    r_h: int,
    mode: MoonCalcMode,
    d: int,
    fuel: nat,
) -> Result<int, MoonError>
    decreases fuel,
{
    if fuel == 0 {
        Err(MoonError::NonConvergence)
    } else {
        let tmp = midnight + d;
        let parallax = spec_moon_parallax(tmp);
        let ecl = spec_moon_ecliptic(tmp);
        let ra = spec_equatorial_longitude(ecl.longitude as int, ecl.latitude as int, tilt);
        let decl = spec_equatorial_latitude(ecl.longitude as int, ecl.latitude as int, tilt);
        let k = -r_h + parallax;
        match spec_horizon_hour_angle(decl, lat, k, mode) {
            Err(e) => Err(e),
            Ok(tk) => {
                let tang = sidereal + (d * 3_609_856_474) / 10_000_000_000 + lon - ra;
                let delta = (spec_adjust180abs(tk - tang) * NANO as int) / 347_800_000;
                let d2 = d + delta;
                if spec_abs(delta) < RISE_SET_THRESHOLD_NANO as int {
                    Ok(d2)
                } else {
                    spec_rise_set_step(midnight, sidereal, tilt, lon, lat, r_h, mode, d2,
                        (fuel - 1) as nat)
                }
            },
        }
    }
}

/// Runs the rise/set search from the step spec above.
fn rise_set_step(
    midnight: i64,
    sidereal: i64,
    tilt: i64,
    lon: i64,
    lat: i64,
    r_h: i64,
    mode: MoonCalcMode,
    d: i64,
    fuel: u32,
) -> (r: Result<i64, MoonError>)
    requires
        fuel <= ITER_CAP,
        -DAY_NANO_ABS_MAX <= midnight <= DAY_NANO_ABS_MAX,
        -1_700_000_000_000 <= sidereal <= 1_700_000_000_000,
        0 <= tilt < DEG360,
        -DEG180 <= lon <= DEG180,
        -DEG90 <= lat <= DEG90,
        0 <= r_h <= 10_000_000,
        -500_000_000 - (ITER_CAP - fuel) * 520_000_000 <= d
            <= 500_000_000 + (ITER_CAP - fuel) * 520_000_000,
    ensures
        result_matches(r, spec_rise_set_step(midnight as int, sidereal as int, tilt as int,
            lon as int, lat as int, r_h as int, mode, d as int, fuel as nat)),
        r is Ok ==> -27_000_000_000 <= r.unwrap() <= 27_000_000_000,
    decreases fuel,
{
    if fuel == 0 {
        return Err(MoonError::NonConvergence);
    }
    let tmp = midnight + d;
    let parallax = get_moon_parallax(tmp);
    let ecl = get_moon_ecliptic(tmp);
    let equatorial = ecliptic2equatorial(ecl, tilt);
    let k = -r_h + parallax;
    match horizon_hour_angle(equatorial.latitude, lat, k, mode) {
        Err(e) => Err(e),
        Ok(tk) => {
            proof {
                lemma_mul_fdiv_bound(d as int, 3_609_856_474, 10_000_000_000, 27_000_000_000,
                    3_609_856_474);
            }
            let tang = sidereal + mul_fdiv(d, 3_609_856_474, 10_000_000_000) + lon
                - equatorial.longitude;
            proof {
                crate::angle::lemma_adjust180abs_range(tk as int - tang as int);
                lemma_mul_fdiv_bound(spec_adjust180abs(tk as int - tang as int), NANO as int,
                    347_800_000, 180_000_000, NANO as int);
            }
            let delta = mul_fdiv(adjust180abs(tk - tang), NANO, 347_800_000);
            let d2 = d + delta;
            if abs64(delta) < RISE_SET_THRESHOLD_NANO {
                Ok(d2)
            } else {
                rise_set_step(midnight, sidereal, tilt, lon, lat, r_h, mode, d2, fuel - 1)
            }
        },
    }
}

/// What the rise/set solver hands back for a date and position: the
/// fixed-point search started at half a day past local midnight.
pub open spec fn spec_moon_rise_set(
    date: CivilDate,
    geocode: GeoPosition,
    mode: MoonCalcMode,
    off: int,
    r_h: int,
) -> Result<int, MoonError> {
    let midnight = spec_j2000day(
        crate::epoch::CivilDateTime { date, hour: 0, minute: 0, second: 0 },
        off,
    );
    spec_rise_set_step(midnight, spec_sidereal_time(midnight, off),
        spec_ecliptic_tilt_angle(midnight), geocode.longitude as int, geocode.latitude as int,
        r_h, mode, 500_000_000, ITER_CAP as nat)
}

/// The day-fraction, in nano-days from local midnight of the given
/// date, at which the Moon rises or sets at the given position; or the
/// circumpolar or non-convergence outcome.
pub fn get_moon_rise_set(
    date: &CivilDate,
    geocode: &GeoPosition,
    mode: MoonCalcMode,
    settings: &Settings,
) -> (r: Result<i64, MoonError>)
    requires
        date.valid(),
        geocode.valid(),
        settings.valid(),
    ensures
        result_matches(r, spec_moon_rise_set(*date, *geocode, mode,
            settings.zone_offset_seconds as int, settings.horizon_r_micro as int)),
        r is Ok ==> -27_000_000_000 <= r.unwrap() <= 27_000_000_000,
{
    let midnight_dt = date.and_hms(0, 0, 0);
    let midnight = j2000day(&midnight_dt, settings);
    let sidereal = get_sidereal_time(midnight, settings);
    let tilt = ecliptic_tilt_angle(midnight);
    rise_set_step(midnight, sidereal, tilt, geocode.longitude, geocode.latitude,
        settings.horizon_r_micro, mode, 500_000_000, ITER_CAP)
}

/// The Moon's synodic age at local noon of the given date, in
/// nano-days. An age is always in `[0, 29.6)` days; inputs on which
/// the search leaves that window report `NonConvergence`.
pub fn get_moon_age(date: &CivilDate, settings: &Settings) -> (r: Result<i64, MoonError>)
    requires
        date.valid(),
        settings.valid(),
    ensures
        result_matches(r, spec_moon_age(*date, settings.zone_offset_seconds as int)),
        r is Ok ==> 0 <= r.unwrap() < AGE_NANO_MAX,
{
    let noon = date.and_hms(12, 0, 0);
    let t0 = j2000day(&noon, settings);
    match age_step(t0, t0, true, ITER_CAP) {
        Ok(age) => {
            if 0 <= age && age < AGE_NANO_MAX {
                Ok(age)
            } else {
                Err(MoonError::NonConvergence)
            }
        },
        Err(e) => Err(e),
    }
}

} // verus!
