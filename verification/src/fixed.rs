//! Fixed-point scale used for plane coordinates and amplitudes, and a
//! fixed-point sine for the synthetic wave source: a rational approximation
//! on a half period, extended over the full period by odd symmetry, whose
//! result always stays within one amplitude unit.

use vstd::prelude::*;
use vstd::arithmetic::div_mod::lemma_div_pos_is_pos;
use vstd::arithmetic::div_mod::lemma_div_is_ordered;
use vstd::arithmetic::div_mod::lemma_div_multiples_vanish;
use vstd::arithmetic::div_mod::lemma_mod_division_less_than_divisor;
use vstd::arithmetic::div_mod::lemma_mod_bound;

verus! {

/// The fixed-point unit: a plane coordinate or amplitude of `FP_ONE`
/// stands for the real value 1.0.
pub const FP_ONE: i64 = 10000;

/// The angle pi in fixed-point units (rounded to the scale of `FP_ONE`).
pub const FP_PI: i64 = 31416;

/// The rational half-period sine approximation on `[0, FP_PI]`:
/// `16 a (pi - a) / (5 pi^2 - 4 a (pi - a))`, carried out in fixed point
/// with one final division.
pub open spec fn spec_half_sine(a: int) -> int {
    16 * (a * (FP_PI - a)) * FP_ONE / (5 * (FP_PI * FP_PI) - 4 * (a * (FP_PI - a)))
}

/// The fixed-point sine of a nonnegative angle: the angle is reduced into
/// one period, the first half maps through the half-period approximation,
/// the second half through its odd mirror.
pub open spec fn spec_sin_fp(angle: int) -> int {
    let a = angle % (2 * FP_PI as int);
    if a <= FP_PI {
        spec_half_sine(a)
    } else {
        -spec_half_sine(a - FP_PI)
    }
}

/// The half-period approximation stays within `[0, FP_ONE]` on `[0, FP_PI]`.
proof fn lemma_half_sine_bounds(a: int)
    requires
        0 <= a <= FP_PI,
    ensures
        0 <= spec_half_sine(a) <= FP_ONE,
{
    let p = a * (FP_PI - a);
    assert(0 <= p && 4 * p <= FP_PI * FP_PI) by (nonlinear_arith)
        requires
            0 <= a <= FP_PI,
            p == a * (FP_PI - a),
    ;
    let num = 16 * p * FP_ONE;
    let den = 5 * (FP_PI * FP_PI) - 4 * p;
    assert(den >= 4 * (FP_PI * FP_PI));
    lemma_div_pos_is_pos(num, den);
    assert(num <= FP_ONE * den);
    lemma_div_is_ordered(num, FP_ONE * den, den);
    lemma_div_multiples_vanish(FP_ONE as int, den);
    assert(den * FP_ONE == FP_ONE * den) by (nonlinear_arith);
}

/// The reduced sine stays within one amplitude unit either way.
pub proof fn lemma_sin_fp_bounds(angle: int)
    ensures
        -FP_ONE <= spec_sin_fp(angle) <= FP_ONE,
{
    let a = angle % (2 * FP_PI as int);
    lemma_mod_bound(angle, 2 * FP_PI as int);
    if a <= FP_PI {
        lemma_half_sine_bounds(a);
    } else {
        lemma_half_sine_bounds(a - FP_PI);
    }
}

/// The fixed-point sine of a nonnegative angle, as the synthetic wave
/// source applies it.
pub fn sin_fp(angle: i64) -> (r: i64)
    requires
        0 <= angle,
    ensures
        r == spec_sin_fp(angle as int),
        -FP_ONE <= r <= FP_ONE,
{
    proof {
        lemma_mod_bound(angle as int, 2 * FP_PI as int);
        lemma_sin_fp_bounds(angle as int);
    }
    let a = angle % (2 * FP_PI);
    if a <= FP_PI {
        half_sine(a)
    } else {
        -half_sine(a - FP_PI)
    }
}

/// The executable half-period approximation.
fn half_sine(a: i64) -> (r: i64)
    requires
        0 <= a <= FP_PI,
    ensures
        r == spec_half_sine(a as int),
        0 <= r <= FP_ONE,
{
    proof {
        lemma_half_sine_bounds(a as int);
        assert(0 <= a * (FP_PI - a) <= FP_PI * FP_PI) by (nonlinear_arith)
            requires
                0 <= a <= FP_PI,
        ;
    }
    let p = a * (FP_PI - a);
    let num = 16 * p * FP_ONE;
    let den = 5 * (FP_PI * FP_PI) - 4 * p;
    proof {
        lemma_div_pos_is_pos(num as int, den as int);
        lemma_mod_division_less_than_divisor(num as int, den as int);
    }
    num / den
}

} // verus!
