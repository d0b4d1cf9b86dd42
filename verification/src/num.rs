//! Fixed-point arithmetic helpers.
//!
//! Every real-valued quantity of the ephemeris is carried as a scaled
//! integer: angles in micro-degrees, sines and day counts in nano-units.
//! Division is always by a positive divisor and uses the mathematical
//! floor, which coincides with Verus's Euclidean `/`.

use vstd::prelude::*;
use vstd::arithmetic::div_mod::lemma_div_is_ordered;
use vstd::arithmetic::div_mod::lemma_div_plus_one;
use vstd::arithmetic::div_mod::lemma_fundamental_div_mod;
use vstd::arithmetic::div_mod::lemma_fundamental_div_mod_converse_div;
use vstd::arithmetic::div_mod::lemma_mod_division_less_than_divisor;

verus! {

/// Micro-units per unit: the scale of angles in micro-degrees.
pub const MICRO: i64 = 1_000_000;

/// Nano-units per unit: the scale of day counts and of sine values.
pub const NANO: i64 = 1_000_000_000;

/// Pico-units per unit, used by the finer unit conversions.
pub const TERA: i64 = 1_000_000_000_000;

/// `pi / 180` scaled by `1e3`: nano-radians per micro-degree.
pub const DEG2RAD_NANO_PER_MICRO: i64 = 17_453_292_520;

/// `180 / pi` scaled by `1e9`: with the `TERA` divisor it takes
/// nano-radians to micro-degrees.
pub const MICRO_DEG_PER_TERA_RAD: i64 = 57_295_779_513;

/// Floor division by a positive divisor keeps the quotient between the
/// dividend and zero.
pub proof fn lemma_fdiv_sign_bound(a: int, d: int)
    requires
        1 <= d,
    ensures
        0 <= a ==> 0 <= a / d <= a,
        a < 0 ==> a <= a / d <= 0,
{
    lemma_fundamental_div_mod(a, d);
    lemma_mod_division_less_than_divisor(a, d);
    assert(0 <= a ==> 0 <= a / d <= a) by (nonlinear_arith)
        requires
            1 <= d,
            a == d * (a / d) + (a % d),
            0 <= a % d < d,
    ;
    assert(a < 0 ==> a <= a / d <= 0) by (nonlinear_arith)
        requires
            1 <= d,
            a == d * (a / d) + (a % d),
            0 <= a % d < d,
    ;
}

/// Negating the dividend of a floor division negates the quotient, up to
/// one unit.
pub proof fn lemma_fdiv_neg(x: int, d: int)
    requires
        1 <= d,
    ensures
        -(x / d) - 1 <= (-x) / d <= -(x / d),
{
    lemma_fundamental_div_mod(x, d);
    lemma_mod_division_less_than_divisor(x, d);
    let q = x / d;
    let r = x % d;
    if r == 0 {
        assert(-x == (-q) * d + 0) by (nonlinear_arith)
            requires
                x == d * q + r,
                r == 0,
        ;
        lemma_fundamental_div_mod_converse_div(-x, d, -q, 0);
    } else {
        assert(-x == (-q - 1) * d + (d - r)) by (nonlinear_arith)
            requires
                x == d * q + r,
        ;
        lemma_fundamental_div_mod_converse_div(-x, d, -q - 1, d - r);
    }
}

/// The floor quotient of a product, bounded from bounds on the factors.
pub proof fn lemma_mul_fdiv_bound(a: int, b: int, d: int, aa: int, bb: int)
    requires
        1 <= d,
        0 <= aa,
        0 <= bb,
        -aa <= a <= aa,
        -bb <= b <= bb,
    ensures
        -(aa * bb) <= a * b <= aa * bb,
        -((aa * bb) / d) - 1 <= (a * b) / d <= (aa * bb) / d,
{
    assert(-(aa * bb) <= a * b <= aa * bb) by (nonlinear_arith)
        requires
            0 <= aa,
            0 <= bb,
            -aa <= a <= aa,
            -bb <= b <= bb,
    ;
    lemma_div_is_ordered(a * b, aa * bb, d);
    lemma_div_is_ordered(-(aa * bb), a * b, d);
    lemma_fdiv_neg(aa * bb, d);
}

/// Floor division is strictly monotone across a full divisor step.
pub proof fn lemma_fdiv_strict_mono(a: int, b: int, d: int)
    requires
        1 <= d,
        a + d <= b,
    ensures
        a / d < b / d,
{
    lemma_div_plus_one(a, d);
    lemma_div_is_ordered(a + d, b, d);
}

/// Floor division of `a` by a positive divisor `d`, on `i64`.
pub fn fdiv64(a: i64, d: i64) -> (q: i64)
    requires
        1 <= d,
    ensures
        q == a as int / d as int,
{
    proof {
        lemma_fdiv_sign_bound(a as int, d as int);
    }
    a.checked_div_euclid(d).unwrap()
}

/// Euclidean remainder of `a` modulo a positive modulus `m`, on `i64`.
pub fn fmod64(a: i64, m: i64) -> (r: i64)
    requires
        1 <= m,
    ensures
        r == a as int % m as int,
        0 <= r < m,
{
    proof {
        lemma_mod_division_less_than_divisor(a as int, m as int);
    }
    a.checked_rem_euclid(m).unwrap()
}

/// Exact product of two `i64` values, widened to `i128`.
pub fn mul_i64(a: i64, b: i64) -> (p: i128)
    ensures
        p == a as int * b as int,
{
    proof {
        assert(-0x4000_0000_0000_0000_0000_0000_0000_0000 <= (a as int) * (b as int)
            <= 0x4000_0000_0000_0000_0000_0000_0000_0000) by (nonlinear_arith)
            requires
                -0x8000_0000_0000_0000 <= a as int <= 0x7fff_ffff_ffff_ffff,
                -0x8000_0000_0000_0000 <= b as int <= 0x7fff_ffff_ffff_ffff,
        ;
    }
    (a as i128) * (b as i128)
}

/// `a * b / d` with floor division, computed through an `i128` product.
pub fn mul_fdiv(a: i64, b: i64, d: i64) -> (q: i64)
    requires
        1 <= d,
        i64::MIN <= (a as int * b as int) / (d as int) <= i64::MAX,
    ensures
        q == (a as int * b as int) / (d as int),
{
    let p = mul_i64(a, b);
    proof {
        lemma_fdiv_sign_bound(p as int, d as int);
    }
    let q = p.checked_div_euclid(d as i128).unwrap();
    q as i64
}

/// `x` forced into the closed interval `[lo, hi]`.
pub open spec fn spec_clamp(x: int, lo: int, hi: int) -> int {
    if x < lo {
        lo
    } else if x > hi {
        hi
    } else {
        x
    }
}

/// Executable clamp matching [`spec_clamp`].
pub fn clamp64(x: i64, lo: i64, hi: i64) -> (r: i64)
    requires
        lo <= hi,
    ensures
        r == spec_clamp(x as int, lo as int, hi as int),
        lo <= r <= hi,
{
    if x < lo {
        lo
    } else if x > hi {
        hi
    } else {
        x
    }
}

/// Absolute value on the spec side.
pub open spec fn spec_abs(x: int) -> int {
    if x < 0 {
        -x
    } else {
        x
    }
}

/// Executable absolute value matching [`spec_abs`].
pub fn abs64(x: i64) -> (r: i64)
    requires
        i64::MIN < x,
    ensures
        r == spec_abs(x as int),
{
    if x < 0 {
        -x
    } else {
        x
    }
}

} // verus!
