//! Ecliptic-to-equatorial conversion and the sidereal-time reference
//! term.

use vstd::prelude::*;
use crate::angle::DEG90;
use crate::angle::DEG180;
use crate::angle::DEG360;
use crate::angle::adjust0to360;
use crate::angle::spec_adjust0to360;
use crate::epoch::Settings;
use crate::epoch::spec_j2000year;
use crate::epoch::j2000year;
use crate::num::MICRO;
use crate::num::NANO;
use crate::num::TERA;
use crate::num::lemma_mul_fdiv_bound;
use crate::num::mul_fdiv;
use crate::series::EPOCH_NANO_ABS_MAX;
use crate::series::Ecliptic;
use crate::trig::cos;
use crate::trig::sin;
use crate::trig::atan_div;
use crate::trig::isqrt64;
use crate::trig::mul_nano;
use crate::trig::spec_atan_div;
use crate::trig::spec_cos;
use crate::trig::spec_isqrt;
use crate::trig::spec_mul_nano;
use crate::trig::spec_sin;

verus! {

/// An equatorial position: right ascension (`longitude`) and
/// declination (`latitude`), in micro-degrees.
#[derive(Clone, Copy, Debug, PartialEq, Eq, Structural)]
pub struct Equatorial {
    pub longitude: i64,
    pub latitude: i64,
}

/// The obliquity of the ecliptic at the given epoch, in micro-degrees
/// within `[0, 360)`.
pub open spec fn spec_ecliptic_tilt_angle(day_nano: int) -> int {
    let t = spec_j2000year(day_nano);
    spec_adjust0to360(23_439_291 - (t * 130_042) / TERA as int)
}

/// The obliquity of the ecliptic at the given epoch, in micro-degrees.
pub fn ecliptic_tilt_angle(day_nano: i64) -> (r: i64)
    requires
        -EPOCH_NANO_ABS_MAX <= day_nano <= EPOCH_NANO_ABS_MAX,
    ensures
        r == spec_ecliptic_tilt_angle(day_nano as int),
        0 <= r < DEG360,
{
    let t = j2000year(day_nano);
    proof {
        lemma_mul_fdiv_bound(t as int, 130_042, TERA as int, 4_400_000_000_000, 130_042);
    }
    adjust0to360(23_439_291 - mul_fdiv(t, 130_042, TERA))
}

/// The Greenwich sidereal-time reference term at the given epoch for
/// the configured civil zone, in micro-degrees, not normalized.
pub open spec fn spec_sidereal_time(day_nano: int, off: int) -> int {
    let t = spec_j2000year(day_nano);
    let t2 = (t * t) / NANO as int;
    100_460_600 + (t * 360_007_700_536) / TERA as int + (t2 * 38_790) / (1_000_000_000_000_000)
        - (off * MICRO as int) / 240
}

/// The sidereal-time reference term used by the rise/set solver's
/// hour-angle balance, in micro-degrees.
pub fn get_sidereal_time(day_nano: i64, settings: &Settings) -> (r: i64)
    requires
        -EPOCH_NANO_ABS_MAX <= day_nano <= EPOCH_NANO_ABS_MAX,
        settings.valid(),
    ensures
        r == spec_sidereal_time(day_nano as int, settings.zone_offset_seconds as int),
        -1_700_000_000_000 <= r <= 1_700_000_000_000,
{
    let t = j2000year(day_nano);
    proof {
        lemma_mul_fdiv_bound(t as int, t as int, NANO as int, 4_400_000_000_000,
            4_400_000_000_000);
    }
    let t2 = mul_fdiv(t, t, NANO);
    proof {
        lemma_mul_fdiv_bound(t as int, 360_007_700_536, TERA as int, 4_400_000_000_000,
            360_007_700_536);
        lemma_mul_fdiv_bound(t2 as int, 38_790, 1_000_000_000_000_000, 19_360_000_000_000_000,
            38_790);
        lemma_mul_fdiv_bound(settings.zone_offset_seconds as int, MICRO as int, 240, 86_400,
            MICRO as int);
    }
    100_460_600 + mul_fdiv(t, 360_007_700_536, TERA) + mul_fdiv(t2, 38_790,
        1_000_000_000_000_000) - mul_fdiv(settings.zone_offset_seconds, MICRO, 240)
}

/// The right ascension produced by the ecliptic-to-equatorial
/// conversion, in micro-degrees within `[0, 360)`. The quadrant of the
/// arctangent is corrected by a half turn when the first projection is
/// negative.
#[verifier::opaque]
pub open spec fn spec_equatorial_longitude(lam: int, bet: int, e: int) -> int {
    let u = spec_mul_nano(spec_cos(bet), spec_cos(lam));
    let v = -spec_mul_nano(spec_sin(bet), spec_sin(e)) + spec_mul_nano(
        spec_mul_nano(spec_cos(bet), spec_sin(lam)), spec_cos(e));
    if u < 0 {
        spec_adjust0to360(spec_atan_div(v, u) + DEG180 as int)
    } else {
        spec_adjust0to360(spec_atan_div(v, u))
    }
}

/// The declination produced by the ecliptic-to-equatorial conversion,
/// in micro-degrees within `[-90, 90]`.
#[verifier::opaque]
pub open spec fn spec_equatorial_latitude(lam: int, bet: int, e: int) -> int {
    let u = spec_mul_nano(spec_cos(bet), spec_cos(lam));
    let v = -spec_mul_nano(spec_sin(bet), spec_sin(e)) + spec_mul_nano(
        spec_mul_nano(spec_cos(bet), spec_sin(lam)), spec_cos(e));
    let w = spec_mul_nano(spec_sin(bet), spec_cos(e)) + spec_mul_nano(
        spec_mul_nano(spec_cos(bet), spec_sin(lam)), spec_sin(e));
    spec_atan_div(w, spec_isqrt(u * u + v * v))
}

/// Whatever position and obliquity are handed in, the declination of
/// the ecliptic-to-equatorial conversion stays between the poles.
pub proof fn lemma_equatorial_latitude_range(lam: int, bet: int, e: int)
    ensures
        -(DEG90 as int) <= spec_equatorial_latitude(lam, bet, e) <= DEG90 as int,
{
    reveal(spec_equatorial_latitude);
    let u = spec_mul_nano(spec_cos(bet), spec_cos(lam));
    let v = -spec_mul_nano(spec_sin(bet), spec_sin(e)) + spec_mul_nano(
        spec_mul_nano(spec_cos(bet), spec_sin(lam)), spec_cos(e));
    let w = spec_mul_nano(spec_sin(bet), spec_cos(e)) + spec_mul_nano(
        spec_mul_nano(spec_cos(bet), spec_sin(lam)), spec_sin(e));
    crate::trig::lemma_atan_div_range(w, spec_isqrt(u * u + v * v));
}

/// Converts an ecliptic position to an equatorial one, given the
/// obliquity `e` of the ecliptic, all in micro-degrees. The declination
/// always lands in `[-90, 90]` degrees and the right ascension in
/// `[0, 360)`.
pub fn ecliptic2equatorial(ecliptic: Ecliptic, e: i64) -> (r: Equatorial)
    requires
        0 <= ecliptic.longitude < DEG360,
        0 <= ecliptic.latitude < DEG360,
        0 <= e < DEG360,
    ensures
        r.longitude == spec_equatorial_longitude(ecliptic.longitude as int,
            ecliptic.latitude as int, e as int),
        r.latitude == spec_equatorial_latitude(ecliptic.longitude as int,
            ecliptic.latitude as int, e as int),
        0 <= r.longitude < DEG360,
        -DEG90 <= r.latitude <= DEG90,
{
    proof {
        reveal(spec_equatorial_longitude);
        reveal(spec_equatorial_latitude);
    }
    let lam = ecliptic.longitude;
    let bet = ecliptic.latitude;
    let sin_b = sin(bet);
    let cos_b = cos(bet);
    let sin_l = sin(lam);
    let cos_l = cos(lam);
    let sin_e = sin(e);
    let cos_e = cos(e);
    let u = mul_nano(cos_b, cos_l);
    let v = -mul_nano(sin_b, sin_e) + mul_nano(mul_nano(cos_b, sin_l), cos_e);
    let w = mul_nano(sin_b, cos_e) + mul_nano(mul_nano(cos_b, sin_l), sin_e);
    let a: i64;
    if u < 0 {
        a = adjust0to360(atan_div(v, u) + DEG180);
    } else {
        a = adjust0to360(atan_div(v, u));
    }
    proof {
        assert(0 <= u as int * u as int <= 1_300_000_000_000_000_000
            && 0 <= v as int * v as int <= 5_300_000_000_000_000_000) by (nonlinear_arith)
            requires
                -1_100_000_000 <= u as int <= 1_100_000_000,
                -2_300_000_000 <= v as int <= 2_300_000_000,
        ;
        assert(3_000_000_001int * 3_000_000_001int > 6_600_000_000_000_000_000int)
            by (nonlinear_arith);
    }
    let uu = crate::num::mul_i64(u, u);
    let vv = crate::num::mul_i64(v, v);
    let rho = isqrt64(uu + vv, 3_000_000_000);
    let d = atan_div(w, rho);
    Equatorial { longitude: a, latitude: d }
}

} // verus!
