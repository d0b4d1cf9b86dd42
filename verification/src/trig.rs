//! Fixed-point trigonometric kernels.
//!
//! Sines and cosines take angles in micro-degrees and return values
//! scaled by `1e9`; the inverse functions return angles in micro-degrees.
//! Each kernel reduces its argument into a small interval and evaluates
//! a truncated power series there, clamped into the function's
//! mathematical range.

use vstd::prelude::*;
use vstd::arithmetic::div_mod::lemma_div_is_ordered;
use vstd::arithmetic::div_mod::lemma_div_multiples_vanish;
use crate::angle::DEG90;
use crate::angle::DEG180;
use crate::angle::DEG360;
use crate::angle::adjust0to360;
use crate::angle::deg2rad;
use crate::angle::rad2deg;
use crate::angle::spec_adjust0to360;
use crate::angle::spec_deg2rad;
use crate::angle::spec_rad2deg;
use crate::num::NANO;
use crate::num::abs64;
use crate::num::fdiv64;
use crate::num::lemma_mul_fdiv_bound;
use crate::num::mul_fdiv;
use crate::num::mul_i64;
use crate::num::clamp64;
use crate::num::spec_clamp;

verus! {

/// The integer square root: the unique `r >= 0` with
/// `r * r <= n < (r + 1) * (r + 1)`.
pub open spec fn spec_isqrt(n: int) -> int {
    choose|r: int| 0 <= r && #[trigger] (r * r) <= n && n < (r + 1) * (r + 1)
}

/// Two integer square roots of the same value coincide.
pub proof fn lemma_isqrt_unique(n: int, r1: int, r2: int)
    requires
        0 <= r1,
        0 <= r2,
        r1 * r1 <= n < (r1 + 1) * (r1 + 1),
        r2 * r2 <= n < (r2 + 1) * (r2 + 1),
    ensures
        r1 == r2,
{
    assert(r1 == r2) by (nonlinear_arith)
        requires
            0 <= r1,
            0 <= r2,
            r1 * r1 <= n < (r1 + 1) * (r1 + 1),
            r2 * r2 <= n < (r2 + 1) * (r2 + 1),
    ;
}

/// Pins down [`spec_isqrt`] from a witness.
pub proof fn lemma_isqrt_is(n: int, r: int)
    requires
        0 <= r,
        r * r <= n < (r + 1) * (r + 1),
    ensures
        spec_isqrt(n) == r,
{
    assert(0 <= r && r * r <= n && n < (r + 1) * (r + 1));
    let c = spec_isqrt(n);
    assert(0 <= c && c * c <= n && n < (c + 1) * (c + 1)) by {
        assert(exists|q: int| 0 <= q && #[trigger] (q * q) <= n && n < (q + 1) * (q + 1)) by {
            assert(0 <= r && r * r <= n && n < (r + 1) * (r + 1));
        }
    }
    lemma_isqrt_unique(n, c, r);
}

/// Integer square root by bisection.
pub fn isqrt(n: u128) -> (r: u128)
    ensures
        r * r <= n < (r + 1) * (r + 1),
        r as int == spec_isqrt(n as int),
        r <= 0xffff_ffff_ffff_ffff,
{
    let mut lo: u128 = 0;
    let mut hi: u128 = 0x1_0000_0000_0000_0000;
    proof {
        assert((0x1_0000_0000_0000_0000 as int) * (0x1_0000_0000_0000_0000 as int)
            == 0x1_0000_0000_0000_0000_0000_0000_0000_0000 as int) by (nonlinear_arith);
    }
    while lo + 1 < hi
        invariant
            lo < hi <= 0x1_0000_0000_0000_0000,
            lo * lo <= n,
            n < hi * hi,
        decreases hi - lo,
    {
        let mid = lo + (hi - lo) / 2;
        proof {
            assert(mid * mid <= u128::MAX) by (nonlinear_arith)
                requires
                    mid <= 0xffff_ffff_ffff_ffff as int,
            ;
        }
        if mid * mid <= n {
            lo = mid;
        } else {
            hi = mid;
        }
    }
    proof {
        lemma_isqrt_is(n as int, lo as int);
    }
    lo
}

/// Integer square root of a nonnegative `i64`-ranged value, as `i64`.
///
/// The bound `cap` is any value whose square is known to dominate `n`;
/// it keeps the result in `i64` range.
pub fn isqrt64(n: i128, cap: i64) -> (r: i64)
    requires
        0 <= n,
        0 <= cap,
        n < (cap as int + 1) * (cap as int + 1),
    ensures
        r as int == spec_isqrt(n as int),
        0 <= r <= cap,
        r as int * r as int <= n < (r as int + 1) * (r as int + 1),
{
    let r = isqrt(n as u128);
    proof {
        assert(r as int <= cap as int) by (nonlinear_arith)
            requires
                0 <= r as int,
                0 <= cap as int,
                r as int * r as int <= n as int,
                (n as int) < (cap as int + 1) * (cap as int + 1),
        ;
    }
    r as i64
}

/// The product of two values scaled by `1e9`, rescaled by `1e9`.
pub open spec fn spec_mul_nano(a: int, b: int) -> int {
    (a * b) / NANO as int
}

/// Multiplies two `1e9`-scaled values, keeping the scale.
pub fn mul_nano(a: i64, b: i64) -> (r: i64)
    requires
        -1_100_000_000 <= a <= 1_100_000_000,
        -1_100_000_000 <= b <= 1_100_000_000,
    ensures
        r == spec_mul_nano(a as int, b as int),
        -1_210_000_001 <= r <= 1_210_000_000,
        (-NANO <= a <= NANO && -NANO <= b <= NANO) ==> -1_000_000_001 <= r <= NANO,
{
    proof {
        lemma_mul_fdiv_bound(a as int, b as int, NANO as int, 1_100_000_000, 1_100_000_000);
        if -NANO <= a <= NANO && -NANO <= b <= NANO {
            lemma_mul_fdiv_bound(a as int, b as int, NANO as int, NANO as int, NANO as int);
        }
    }
    mul_fdiv(a, b, NANO)
}

/// The sine series on the first quadrant: argument in micro-degrees
/// within `[0, 90]` degrees, result scaled by `1e9` and clamped into
/// `[0, 1]`.
#[verifier::opaque]
pub open spec fn spec_sin_quarter(y: int) -> int {
    let r = spec_deg2rad(y);
    let p2 = (r * r) / NANO as int;
    let p3 = (p2 * r) / NANO as int;
    let p5 = (p3 * p2) / NANO as int;
    let p7 = (p5 * p2) / NANO as int;
    let p9 = (p7 * p2) / NANO as int;
    let s = r - p3 / 6 + p5 / 120 - p7 / 5040 + p9 / 362880;
    spec_clamp(s, 0, NANO as int)
}

/// Evaluates the first-quadrant sine series.
pub fn sin_quarter(y: i64) -> (res: i64)
    requires
        0 <= y <= DEG90,
    ensures
        res == spec_sin_quarter(y as int),
        0 <= res <= NANO,
{
    proof {
        reveal(spec_sin_quarter);
    }
    let r = deg2rad(y);
    proof {
        lemma_mul_fdiv_bound(r as int, r as int, NANO as int, 1_580_000_000, 1_580_000_000);
    }
    let p2 = mul_fdiv(r, r, NANO);
    proof {
        lemma_mul_fdiv_bound(p2 as int, r as int, NANO as int, 2_496_400_000, 1_580_000_000);
    }
    let p3 = mul_fdiv(p2, r, NANO);
    proof {
        lemma_mul_fdiv_bound(p3 as int, p2 as int, NANO as int, 3_944_312_000, 2_496_400_000);
    }
    let p5 = mul_fdiv(p3, p2, NANO);
    proof {
        lemma_mul_fdiv_bound(p5 as int, p2 as int, NANO as int, 9_846_581_000, 2_496_400_000);
    }
    let p7 = mul_fdiv(p5, p2, NANO);
    proof {
        lemma_mul_fdiv_bound(p7 as int, p2 as int, NANO as int, 24_581_006_000, 2_496_400_000);
    }
    let p9 = mul_fdiv(p7, p2, NANO);
    let s = r - fdiv64(p3, 6) + fdiv64(p5, 120) - fdiv64(p7, 5040) + fdiv64(p9, 362880);
    clamp64(s, 0, NANO)
}

/// The sine of an angle already normalized into `[0, 360)` degrees,
/// by quadrant reduction to [`spec_sin_quarter`].
pub open spec fn spec_sin_norm(x: int) -> int {
    if x < DEG90 as int {
        spec_sin_quarter(x)
    } else if x < DEG180 as int {
        spec_sin_quarter(DEG180 as int - x)
    } else if x < DEG180 as int + DEG90 as int {
        -spec_sin_quarter(x - DEG180 as int)
    } else {
        -spec_sin_quarter(DEG360 as int - x)
    }
}

/// The sine of an arbitrary angle in micro-degrees, scaled by `1e9`.
pub open spec fn spec_sin(x: int) -> int {
    spec_sin_norm(spec_adjust0to360(x))
}

/// The cosine of an arbitrary angle in micro-degrees, scaled by `1e9`.
pub open spec fn spec_cos(x: int) -> int {
    spec_sin(x + DEG90 as int)
}

/// Sine of an angle in micro-degrees; the result is scaled by `1e9`.
pub fn sin(deg: i64) -> (res: i64)
    ensures
        res == spec_sin(deg as int),
        -NANO <= res <= NANO,
{
    let x = adjust0to360(deg);
    if x < DEG90 {
        sin_quarter(x)
    } else if x < DEG180 {
        sin_quarter(DEG180 - x)
    } else if x < DEG180 + DEG90 {
        -sin_quarter(x - DEG180)
    } else {
        -sin_quarter(DEG360 - x)
    }
}

/// Cosine of an angle in micro-degrees; the result is scaled by `1e9`.
pub fn cos(deg: i64) -> (res: i64)
    requires
        deg <= i64::MAX - DEG90,
    ensures
        res == spec_cos(deg as int),
        -NANO <= res <= NANO,
{
    sin(deg + DEG90)
}

/// The arctangent series after two half-angle reductions: the ratio
/// argument is scaled by `1e9` and lies in `[0, 1]`; the result is in
/// micro-degrees, clamped into `[0, 45]` degrees.
#[verifier::opaque]
pub open spec fn spec_atan_ratio(u: int) -> int {
    let n = NANO as int;
    let s1 = spec_isqrt(n * n + u * u);
    let w1 = (u * n) / (n + s1);
    let s2 = spec_isqrt(n * n + w1 * w1);
    let w2 = (w1 * n) / (n + s2);
    let q2 = (w2 * w2) / n;
    let q3 = (q2 * w2) / n;
    let q5 = (q3 * q2) / n;
    let q7 = (q5 * q2) / n;
    let q9 = (q7 * q2) / n;
    let a = w2 - q3 / 3 + q5 / 5 - q7 / 7 + q9 / 9;
    spec_clamp(spec_rad2deg(4 * a), 0, 45_000_000)
}

/// Evaluates the reduced arctangent series on a ratio in `[0, 1]`,
/// scaled by `1e9`.
pub fn atan_ratio(u: i64) -> (res: i64)
    requires
        0 <= u <= NANO,
    ensures
        res == spec_atan_ratio(u as int),
        0 <= res <= 45_000_000,
{
    proof {
        reveal(spec_atan_ratio);
    }
    let uu = mul_i64(u, u);
    let nn = mul_i64(NANO, NANO);
    proof {
        assert(0 <= u as int * u as int <= 1_000_000_000_000_000_000) by (nonlinear_arith)
            requires
                0 <= u as int <= 1_000_000_000,
        ;
        assert(NANO as int * NANO as int == 1_000_000_000_000_000_000) by (nonlinear_arith);
        assert(1_414_213_564int * 1_414_213_564int > 2_000_000_000_000_000_000) by (nonlinear_arith);
    }
    let s1 = isqrt64(nn + uu, 1_414_213_563);
    proof {
        lemma_mul_fdiv_bound(u as int, NANO as int, NANO as int + s1 as int, NANO as int, NANO as int);
        lemma_div_is_ordered(u as int * NANO as int, (NANO as int + s1 as int) * NANO as int,
            NANO as int + s1 as int);
        lemma_div_multiples_vanish(NANO as int, NANO as int + s1 as int);
    }
    let w1 = mul_fdiv(u, NANO, NANO + s1);
    let ww = mul_i64(w1, w1);
    proof {
        assert(0 <= w1 as int * w1 as int <= 1_000_000_000_000_000_000) by (nonlinear_arith)
            requires
                0 <= w1 as int <= 1_000_000_000,
        ;
        assert(1_414_213_564int * 1_414_213_564int > 2_000_000_000_000_000_000) by (nonlinear_arith);
    }
    let s2 = isqrt64(nn + ww, 1_414_213_563);
    proof {
        lemma_mul_fdiv_bound(w1 as int, NANO as int, NANO as int + s2 as int, NANO as int,
            NANO as int);
        lemma_div_is_ordered(w1 as int * NANO as int, (NANO as int + s2 as int) * NANO as int,
            NANO as int + s2 as int);
        lemma_div_multiples_vanish(NANO as int, NANO as int + s2 as int);
    }
    let w2 = mul_fdiv(w1, NANO, NANO + s2);
    proof {
        lemma_mul_fdiv_bound(w2 as int, w2 as int, NANO as int, NANO as int, NANO as int);
    }
    let q2 = mul_fdiv(w2, w2, NANO);
    proof {
        lemma_mul_fdiv_bound(q2 as int, w2 as int, NANO as int, NANO as int, NANO as int);
    }
    let q3 = mul_fdiv(q2, w2, NANO);
    proof {
        lemma_mul_fdiv_bound(q3 as int, q2 as int, NANO as int, NANO as int, NANO as int);
    }
    let q5 = mul_fdiv(q3, q2, NANO);
    proof {
        lemma_mul_fdiv_bound(q5 as int, q2 as int, NANO as int, NANO as int, NANO as int);
    }
    let q7 = mul_fdiv(q5, q2, NANO);
    proof {
        lemma_mul_fdiv_bound(q7 as int, q2 as int, NANO as int, NANO as int, NANO as int);
    }
    let q9 = mul_fdiv(q7, q2, NANO);
    let a = w2 - fdiv64(q3, 3) + fdiv64(q5, 5) - fdiv64(q7, 7) + fdiv64(q9, 9);
    clamp64(rad2deg(4 * a), 0, 45_000_000)
}

/// The quadrant-less arctangent of `y / x`, in micro-degrees within
/// `[-90, 90]`. At `x == 0` it takes the limiting value, and at the
/// degenerate origin it is zero.
pub open spec fn spec_atan_div(y: int, x: int) -> int {
    if x == 0 && y == 0 {
        0
    } else if x == 0 {
        if y > 0 {
            DEG90 as int
        } else {
            -(DEG90 as int)
        }
    } else {
        let ay = if y < 0 { -y } else { y };
        let ax = if x < 0 { -x } else { x };
        let base = if ay <= ax {
            spec_atan_ratio((ay * NANO as int) / ax)
        } else {
            DEG90 as int - spec_atan_ratio((ax * NANO as int) / ay)
        };
        if (y < 0) != (x < 0) {
            -base
        } else {
            base
        }
    }
}

/// Arctangent of the quotient `y / x` of two same-scale values, in
/// micro-degrees.
pub fn atan_div(y: i64, x: i64) -> (res: i64)
    requires
        -4_000_000_000 <= y <= 4_000_000_000,
        -4_000_000_000 <= x <= 4_000_000_000,
    ensures
        res == spec_atan_div(y as int, x as int),
        -DEG90 <= res <= DEG90,
        0 <= y && 0 < x ==> 0 <= res,
{
    if x == 0 && y == 0 {
        0
    } else if x == 0 {
        if y > 0 {
            DEG90
        } else {
            -DEG90
        }
    } else {
        let ay = abs64(y);
        let ax = abs64(x);
        let base: i64;
        if ay <= ax {
            proof {
                lemma_mul_fdiv_bound(ay as int, NANO as int, ax as int, ax as int, NANO as int);
                lemma_div_is_ordered(ay as int * NANO as int, ax as int * NANO as int, ax as int);
                lemma_div_multiples_vanish(NANO as int, ax as int);
            }
            base = atan_ratio(mul_fdiv(ay, NANO, ax));
        } else {
            proof {
                lemma_mul_fdiv_bound(ax as int, NANO as int, ay as int, ay as int, NANO as int);
                lemma_div_is_ordered(ax as int * NANO as int, ay as int * NANO as int, ay as int);
                lemma_div_multiples_vanish(NANO as int, ay as int);
            }
            base = DEG90 - atan_ratio(mul_fdiv(ax, NANO, ay));
        }
        if (y < 0) != (x < 0) {
            -base
        } else {
            base
        }
    }
}

/// The quadrant-less arctangent lands within a quarter turn of zero,
/// whatever its inputs: every branch is a sign applied to an angle
/// between zero and ninety degrees.
pub proof fn lemma_atan_div_range(y: int, x: int)
    ensures
        -(DEG90 as int) <= spec_atan_div(y, x) <= DEG90 as int,
{
    reveal(spec_atan_ratio);
}

/// The arccosine of a cosine value scaled by `1e9`, in micro-degrees
/// within `[0, 180]`.
pub open spec fn spec_acos(c: int) -> int {
    let s = spec_isqrt(NANO as int * NANO as int - c * c);
    if c == 0 {
        DEG90 as int
    } else if c > 0 {
        spec_atan_div(s, c)
    } else {
        DEG180 as int - spec_atan_div(s, -c)
    }
}

/// Arccosine of a value in `[-1, 1]` scaled by `1e9`; the result is in
/// micro-degrees.
pub fn acos(c: i64) -> (res: i64)
    requires
        -NANO <= c <= NANO,
    ensures
        res == spec_acos(c as int),
        0 <= res <= DEG180,
{
    let cc = mul_i64(c, c);
    let nn = mul_i64(NANO, NANO);
    proof {
        assert(0 <= c as int * c as int <= NANO as int * NANO as int) by (nonlinear_arith)
            requires
                -(NANO as int) <= c as int <= NANO as int,
        ;
        assert((NANO as int * NANO as int - c as int * c as int)
            < (NANO as int + 1) * (NANO as int + 1)) by (nonlinear_arith)
            requires
                0 <= c as int * c as int,
                NANO == 1_000_000_000i64,
        ;
    }
    let s = isqrt64(nn - cc, NANO);
    if c == 0 {
        DEG90
    } else if c > 0 {
        atan_div(s, c)
    } else {
        DEG180 - atan_div(s, -c)
    }
}

} // verus!
