//! Angle utilities: unit conversions and range normalization.
//!
//! Angles are measured in micro-degrees (`1e-6` degree per unit) and
//! radians in nano-radians (`1e-9` radian per unit).

use vstd::prelude::*;
use vstd::arithmetic::div_mod::lemma_mod_division_less_than_divisor;
use vstd::arithmetic::div_mod::lemma_mod_twice;
use crate::num::DEG2RAD_NANO_PER_MICRO;
use crate::num::MICRO_DEG_PER_TERA_RAD;
use crate::num::NANO;
use crate::num::TERA;
use crate::num::lemma_mul_fdiv_bound;
use crate::num::fmod64;
use crate::num::mul_fdiv;
use crate::num::spec_abs;

verus! {

/// A full turn, in micro-degrees.
pub const DEG360: i64 = 360_000_000;

/// Half a turn, in micro-degrees.
pub const DEG180: i64 = 180_000_000;

/// A quarter turn, in micro-degrees.
pub const DEG90: i64 = 90_000_000;

/// The representative of `x` in `[0, 360)` degrees: the Euclidean
/// remainder modulo a full turn.
pub open spec fn spec_adjust0to360(x: int) -> int {
    x % (DEG360 as int)
}

/// Normalizes an angle into `[0, 360)` degrees.
pub fn adjust0to360(deg: i64) -> (r: i64)
    ensures
        r == spec_adjust0to360(deg as int),
        0 <= r < DEG360,
{
    fmod64(deg, DEG360)
}

/// Normalization into `[0, 360)` lands in `[0, 360)` and is idempotent.
pub proof fn lemma_adjust0to360_idempotent(x: int)
    ensures
        0 <= spec_adjust0to360(x) < DEG360 as int,
        spec_adjust0to360(spec_adjust0to360(x)) == spec_adjust0to360(x),
{
    lemma_mod_twice(x, DEG360 as int);
}

/// Normalization into `[0, 360)` lands there whatever the input.
pub proof fn lemma_adjust0to360_range_forall()
    ensures
        forall|x: int| 0 <= #[trigger] spec_adjust0to360(x) < DEG360 as int,
{
    assert forall|x: int| 0 <= #[trigger] spec_adjust0to360(x) < DEG360 as int by {
        lemma_mod_division_less_than_divisor(x, DEG360 as int);
    }
}

/// The representative of `x` in `[-180, 180]` degrees, reached by
/// repeatedly shifting by a full turn, as the solver's step correction
/// does.
pub open spec fn spec_adjust180abs(x: int) -> int
    decreases spec_abs(x),
{
    if x > DEG180 as int {
        spec_adjust180abs(x - DEG360 as int)
    } else if x < -(DEG180 as int) {
        spec_adjust180abs(x + DEG360 as int)
    } else {
        x
    }
}

/// Normalizes an angle into `[-180, 180]` degrees.
pub fn adjust180abs(deg: i64) -> (r: i64)
    ensures
        r == spec_adjust180abs(deg as int),
        -DEG180 <= r <= DEG180,
{
    let mut result = deg;
    loop
        invariant
            spec_adjust180abs(result as int) == spec_adjust180abs(deg as int),
        ensures
            -DEG180 <= result <= DEG180,
            spec_adjust180abs(result as int) == spec_adjust180abs(deg as int),
        decreases spec_abs(result as int),
    {
        if result > DEG180 {
            result = result - DEG360;
        } else if result < -DEG180 {
            result = result + DEG360;
        } else {
            break;
        }
    }
    result
}

/// Normalization into `[-180, 180]` lands in `[-180, 180]`.
pub proof fn lemma_adjust180abs_range(x: int)
    ensures
        -(DEG180 as int) <= spec_adjust180abs(x) <= DEG180 as int,
    decreases spec_abs(x),
{
    if x > DEG180 as int {
        lemma_adjust180abs_range(x - DEG360 as int);
    } else if x < -(DEG180 as int) {
        lemma_adjust180abs_range(x + DEG360 as int);
    }
}

/// Normalization into `[-180, 180]` is idempotent.
pub proof fn lemma_adjust180abs_idempotent(x: int)
    ensures
        spec_adjust180abs(spec_adjust180abs(x)) == spec_adjust180abs(x),
{
    lemma_adjust180abs_range(x);
}

/// What `deg2rad` computes: micro-degrees to nano-radians.
pub open spec fn spec_deg2rad(x: int) -> int {
    (x * DEG2RAD_NANO_PER_MICRO as int) / NANO as int
}

/// Converts an angle in micro-degrees to nano-radians.
pub fn deg2rad(deg: i64) -> (r: i64)
    requires
        -100_000_000_000_000_000 <= deg <= 100_000_000_000_000_000,
    ensures
        r == spec_deg2rad(deg as int),
        -1_800_000_000_000_000_000 <= r <= 1_800_000_000_000_000_000,
{
    proof {
        lemma_mul_fdiv_bound(
            deg as int,
            DEG2RAD_NANO_PER_MICRO as int,
            NANO as int,
            100_000_000_000_000_000,
            DEG2RAD_NANO_PER_MICRO as int,
        );
    }
    mul_fdiv(deg, DEG2RAD_NANO_PER_MICRO, NANO)
}

/// What `rad2deg` computes: nano-radians to micro-degrees.
pub open spec fn spec_rad2deg(x: int) -> int {
    (x * MICRO_DEG_PER_TERA_RAD as int) / TERA as int
}

/// Converts an angle in nano-radians to micro-degrees.
pub fn rad2deg(rad: i64) -> (r: i64)
    requires
        -100_000_000_000_000_000 <= rad <= 100_000_000_000_000_000,
    ensures
        r == spec_rad2deg(rad as int),
{
    proof {
        lemma_mul_fdiv_bound(
            rad as int,
            MICRO_DEG_PER_TERA_RAD as int,
            TERA as int,
            100_000_000_000_000_000,
            MICRO_DEG_PER_TERA_RAD as int,
        );
    }
    mul_fdiv(rad, MICRO_DEG_PER_TERA_RAD, TERA)
}

} // verus!
