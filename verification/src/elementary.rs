//! Elementary functions in fixed-point arithmetic: sine and cosine, the
//! integer square root and a bell curve.
//!
//! Angles are fixed-point radians. Sine follows Bhaskara's rational
//! approximation, which meets the sine at the multiples of a quarter turn.

use crate::fixed::{floor_div, floor_mod, lemma_div_bounds, lemma_mul_nonneg_bounds, mul_div, ONE};
use vstd::prelude::*;

verus! {

/// Half a turn: the fixed-point value that stands for pi.
pub const PI: i64 = 3_141_592;

/// A full turn.
pub const TAU: i64 = 6_283_184;

/// A quarter turn.
pub const HALF_PI: i64 = 1_570_796;

/// The magnitude of the argument beyond which the bell curve is cut to zero.
pub const BELL_LIMIT: i64 = 32_000_000;

/// Bhaskara's approximation of the sine of `x`, for `x` from zero to half a
/// turn.
pub open spec fn half_turn_sine_spec(x: int) -> int {
    let t = x * (PI - x);
    (16 * t * ONE) / (5 * PI * PI - 4 * t)
}

/// The sine of an angle: the half-turn approximation, mirrored for the second
/// half of the turn.
pub open spec fn sin_spec(angle: int) -> int {
    let reduced = angle % (TAU as int);
    if reduced <= PI {
        half_turn_sine_spec(reduced)
    } else {
        -half_turn_sine_spec(reduced - PI)
    }
}

/// The cosine of an angle: the sine a quarter turn further on.
pub open spec fn cos_spec(angle: int) -> int {
    sin_spec(angle % (TAU as int) + HALF_PI)
}

/// `root` is the largest integer whose square does not exceed `n`.
pub open spec fn is_floor_sqrt(n: int, root: int) -> bool {
    0 <= root && root * root <= n && n < (root + 1) * (root + 1)
}

/// The largest integer whose square does not exceed `n`, for `n` not below
/// zero.
pub open spec fn sqrt_spec(n: int) -> int {
    choose|root: int| is_floor_sqrt(n, root)
}

/// One over the first five terms of the series of the exponential of `u`
/// squared.
pub open spec fn bell_series_spec(u: int) -> int {
    let t = (u * u) / (ONE as int);
    let t2 = (t * t) / (2 * ONE);
    let t3 = (t2 * t) / (3 * ONE);
    let t4 = (t3 * t) / (4 * ONE);
    (ONE * ONE) / (ONE + t + t2 + t3 + t4)
}

/// Between zero and half a turn the approximated sine lies between zero and
/// one.
pub proof fn lemma_half_turn_sine_bounds(x: int)
    requires
        0 <= x <= PI,
    ensures
        0 <= half_turn_sine_spec(x) <= ONE,
        0 <= x * (PI - x) <= 2_467_400_073_616,
        5 * PI * PI - 4 * (x * (PI - x)) >= 39_478_401_177_856,
{
    let t = x * (PI - x);
    let p = PI as int;
    assert(0 <= t) by (nonlinear_arith)
        requires
            t == x * (p - x),
            0 <= x <= p,
    ;
    assert(4 * t <= p * p) by (nonlinear_arith)
        requires
            t == x * (p - x),
    ;
    assert(p * p == 9_869_600_294_464) by (nonlinear_arith)
        requires
            p == 3_141_592,
    ;
    let den = 5 * PI * PI - 4 * t;
    assert(5 * PI * PI == 5 * (p * p)) by (nonlinear_arith)
        requires
            p == PI,
    ;
    assert(16 * t * ONE == (16 * t) * (ONE as int)) by (nonlinear_arith);
    assert((16 * t) * (ONE as int) <= (ONE as int) * den) by (nonlinear_arith)
        requires
            20 * t <= 5 * (p * p),
            den == 5 * (p * p) - 4 * t,
    ;
    lemma_div_bounds(16 * t * ONE, den, 0, ONE as int);
}

/// At the multiples of a quarter turn the approximated sine and cosine take
/// the values of the sine and the cosine.
pub proof fn lemma_quarter_turns()
    ensures
        sin_spec(0) == 0,
        sin_spec(HALF_PI as int) == ONE,
        sin_spec(PI as int) == 0,
        sin_spec(PI + HALF_PI) == -ONE,
        cos_spec(0) == ONE,
        cos_spec(HALF_PI as int) == 0,
        cos_spec(PI as int) == -ONE,
        cos_spec(PI + HALF_PI) == 0,
{
    assert(half_turn_sine_spec(0) == 0) by (nonlinear_arith);
    assert(half_turn_sine_spec(3_141_592) == 0) by (nonlinear_arith);
    assert(half_turn_sine_spec(1_570_796) == 1_000_000) by (nonlinear_arith);
    assert((PI + HALF_PI + HALF_PI) % (TAU as int) == 0);
}

/// The approximated sine of any angle lies between minus one and one.
pub proof fn lemma_sin_bounds(angle: int)
    ensures
        -ONE <= sin_spec(angle) <= ONE,
{
    let reduced = angle % (TAU as int);
    if reduced <= PI {
        lemma_half_turn_sine_bounds(reduced);
    } else {
        lemma_half_turn_sine_bounds(reduced - PI);
    }
}

/// The approximated cosine of any angle lies between minus one and one.
pub proof fn lemma_cos_bounds(angle: int)
    ensures
        -ONE <= cos_spec(angle) <= ONE,
{
    lemma_sin_bounds(angle % (TAU as int) + HALF_PI);
}

/// From zero to half a turn the approximated sine is not negative.
pub proof fn lemma_sin_nonneg(angle: int)
    requires
        0 <= angle <= PI,
    ensures
        0 <= sin_spec(angle) <= ONE,
        sin_spec(angle) == half_turn_sine_spec(angle),
{
    lemma_half_turn_sine_bounds(angle);
}

/// No number has two floor square roots.
pub proof fn lemma_floor_sqrt_unique(n: int, r1: int, r2: int)
    requires
        is_floor_sqrt(n, r1),
        is_floor_sqrt(n, r2),
    ensures
        r1 == r2,
{
    if r1 < r2 {
        assert((r1 + 1) * (r1 + 1) <= r2 * r2) by (nonlinear_arith)
            requires
                0 <= r1,
                r1 + 1 <= r2,
        ;
    } else if r2 < r1 {
        assert((r2 + 1) * (r2 + 1) <= r1 * r1) by (nonlinear_arith)
            requires
                0 <= r2,
                r2 + 1 <= r1,
        ;
    }
}

/// A number that satisfies the definition of the floor square root is the
/// floor square root.
pub proof fn lemma_sqrt_spec_is(n: int, root: int)
    requires
        is_floor_sqrt(n, root),
    ensures
        sqrt_spec(n) == root,
{
    lemma_floor_sqrt_unique(n, root, sqrt_spec(n));
}

/// The floor square root of a number below the square of `bound` is below
/// `bound`.
pub proof fn lemma_sqrt_below(n: int, root: int, bound: int)
    requires
        is_floor_sqrt(n, root),
        0 <= bound,
        n < bound * bound,
    ensures
        root < bound,
{
    if root >= bound {
        assert(bound * bound <= root * root) by (nonlinear_arith)
            requires
                0 <= bound <= root,
        ;
    }
}

/// The bell curve at `u`: one over the first five terms of the series of the
/// exponential of `u` squared, and zero beyond the limit, where that quotient
/// has long come down to zero. It is one at zero and falls towards zero on
/// both sides, as the Gaussian does.
pub open spec fn bell_spec(u: int) -> int {
    if -BELL_LIMIT <= u <= BELL_LIMIT {
        bell_series_spec(u)
    } else {
        0
    }
}

/// The bell curve lies between zero and one.
pub proof fn lemma_bell_bounds(u: int)
    ensures
        0 <= bell_spec(u) <= ONE,
{
    if -BELL_LIMIT <= u <= BELL_LIMIT {
        lemma_bell_series_bounds(u);
    }
}

/// From nine on, the series under the bell curve yields zero: the cut at the
/// limit is no jump.
pub proof fn lemma_bell_series_vanishes(u: int)
    requires
        -BELL_LIMIT <= u <= BELL_LIMIT,
        u <= -9 * ONE || 9 * ONE <= u,
    ensures
        bell_series_spec(u) == 0,
{
    lemma_bell_terms(u);
    let t = (u * u) / (ONE as int);
    let t2 = (t * t) / (2 * ONE);
    let t3 = (t2 * t) / (3 * ONE);
    let t4 = (t3 * t) / (4 * ONE);
    assert(u * u >= 81_000_000 * ONE) by (nonlinear_arith)
        requires
            u <= -9_000_000 || 9_000_000 <= u,
    ;
    lemma_div_bounds(u * u, ONE as int, 81_000_000, u * u);
    assert(t * t >= 3_280_500_000 * (2 * ONE)) by (nonlinear_arith)
        requires
            t >= 81_000_000,
    ;
    lemma_div_bounds(t * t, 2 * ONE, 3_280_500_000, t * t);
    assert(t2 * t >= 88_573_500_000 * (3 * ONE)) by (nonlinear_arith)
        requires
            t >= 81_000_000,
            t2 >= 3_280_500_000,
    ;
    lemma_div_bounds(t2 * t, 3 * ONE, 88_573_500_000, t2 * t);
    assert(t3 * t >= 1_793_613_375_000 * (4 * ONE)) by (nonlinear_arith)
        requires
            t >= 81_000_000,
            t3 >= 88_573_500_000,
    ;
    lemma_div_bounds(t3 * t, 4 * ONE, 1_793_613_375_000, t3 * t);
    let den = ONE + t + t2 + t3 + t4;
    assert(ONE * ONE == 1_000_000_000_000) by (nonlinear_arith);
    vstd::arithmetic::div_mod::lemma_basic_div(ONE * ONE, den);
}

/// Within the limit the series under the bell curve lies between zero and
/// one.
pub proof fn lemma_bell_series_bounds(u: int)
    requires
        -BELL_LIMIT <= u <= BELL_LIMIT,
    ensures
        0 <= bell_series_spec(u) <= ONE,
{
    lemma_bell_terms(u);
    let t = (u * u) / (ONE as int);
    let t2 = (t * t) / (2 * ONE);
    let t3 = (t2 * t) / (3 * ONE);
    let t4 = (t3 * t) / (4 * ONE);
    let den = ONE + t + t2 + t3 + t4;
    assert(ONE * ONE <= (ONE as int) * den) by (nonlinear_arith)
        requires
            den >= ONE,
    ;
    lemma_div_bounds(ONE * ONE, den, 0, ONE as int);
}

/// The sizes of the terms under the bell curve's quotient.
pub proof fn lemma_bell_terms(u: int)
    requires
        -BELL_LIMIT <= u <= BELL_LIMIT,
    ensures
        ({
            let t = (u * u) / (ONE as int);
            let t2 = (t * t) / (2 * ONE);
            let t3 = (t2 * t) / (3 * ONE);
            let t4 = (t3 * t) / (4 * ONE);
            &&& 0 <= t <= 1_024_000_000
            &&& 0 <= t2 <= 524_288_000_000
            &&& 0 <= t3 <= 178_956_970_666_667
            &&& 0 <= t4 <= 45_812_984_490_666_752
        }),
{
    let t = (u * u) / (ONE as int);
    let t2 = (t * t) / (2 * ONE);
    let t3 = (t2 * t) / (3 * ONE);
    let t4 = (t3 * t) / (4 * ONE);
    assert(0 <= u * u <= 1_024_000_000 * 1_000_000) by (nonlinear_arith)
        requires
            -32_000_000 <= u <= 32_000_000,
    ;
    lemma_div_bounds(u * u, ONE as int, 0, 1_024_000_000);
    lemma_mul_nonneg_bounds(t, t, 1_024_000_000, 1_024_000_000);
    assert(1_024_000_000 * 1_024_000_000 == 524_288_000_000 * (2 * ONE)) by (nonlinear_arith);
    lemma_div_bounds(t * t, 2 * ONE, 0, 524_288_000_000);
    lemma_mul_nonneg_bounds(t2, t, 524_288_000_000, 1_024_000_000);
    assert(524_288_000_000 * 1_024_000_000 <= 178_956_970_666_667 * (3 * ONE))
        by (nonlinear_arith);
    lemma_div_bounds(t2 * t, 3 * ONE, 0, 178_956_970_666_667);
    lemma_mul_nonneg_bounds(t3, t, 178_956_970_666_667, 1_024_000_000);
    assert(178_956_970_666_667 * 1_024_000_000 <= 45_812_984_490_666_752 * (4 * ONE))
        by (nonlinear_arith);
    lemma_div_bounds(t3 * t, 4 * ONE, 0, 45_812_984_490_666_752);
}

/// Computes the approximated sine of an angle from zero to half a turn.
fn half_turn_sine(x: i64) -> (r: i64)
    requires
        0 <= x <= PI,
    ensures
        r == half_turn_sine_spec(x as int),
        0 <= r <= ONE,
{
    proof {
        lemma_half_turn_sine_bounds(x as int);
    }
    let t: i64 = x * (PI - x);
    let den: i64 = 5 * PI * PI - 4 * t;
    assert((16 * t) * ONE == 16 * t * ONE) by (nonlinear_arith);
    mul_div(16 * t, ONE, den)
}

/// Computes the sine of an angle.
pub fn sin(angle: i64) -> (r: i64)
    ensures
        r == sin_spec(angle as int),
        -ONE <= r <= ONE,
{
    proof {
        lemma_sin_bounds(angle as int);
    }
    let reduced: i64 = floor_mod(angle, TAU);
    if reduced <= PI {
        half_turn_sine(reduced)
    } else {
        -half_turn_sine(reduced - PI)
    }
}

/// Computes the cosine of an angle.
pub fn cos(angle: i64) -> (r: i64)
    ensures
        r == cos_spec(angle as int),
        -ONE <= r <= ONE,
{
    let reduced: i64 = floor_mod(angle, TAU);
    sin(reduced + HALF_PI)
}

/// Computes the largest integer whose square does not exceed `n`.
pub fn isqrt(n: u128) -> (root: u64)
    ensures
        is_floor_sqrt(n as int, root as int),
        root == sqrt_spec(n as int),
{
    let mut low: u128 = 0;
    let mut high: u128 = 0x1_0000_0000_0000_0000;
    assert(0x1_0000_0000_0000_0000 * 0x1_0000_0000_0000_0000 > u128::MAX) by (nonlinear_arith);
    while high - low > 1
        invariant
            low < high <= 0x1_0000_0000_0000_0000,
            low * low <= n,
            n < high * high,
        decreases high - low,
    {
        let mid: u128 = low + (high - low) / 2;
        assert(mid * mid <= 0xFFFF_FFFF_FFFF_FFFF * 0xFFFF_FFFF_FFFF_FFFF) by (nonlinear_arith)
            requires
                0 <= mid <= 0xFFFF_FFFF_FFFF_FFFF,
        ;
        assert(0xFFFF_FFFF_FFFF_FFFF * 0xFFFF_FFFF_FFFF_FFFF <= u128::MAX) by (nonlinear_arith);
        if mid * mid <= n {
            low = mid;
        } else {
            high = mid;
        }
    }
    proof {
        lemma_sqrt_spec_is(n as int, low as int);
    }
    low as u64
}

/// Computes the bell curve at `u`.
pub fn bell(u: i64) -> (r: i64)
    ensures
        r == bell_spec(u as int),
        0 <= r <= ONE,
{
    if u < -BELL_LIMIT || u > BELL_LIMIT {
        return 0;
    }
    proof {
        lemma_bell_terms(u as int);
        lemma_bell_series_bounds(u as int);
    }
    let t: i64 = mul_div(u, u, ONE);
    let t2: i64 = mul_div(t, t, 2 * ONE);
    let t3: i64 = mul_div(t2, t, 3 * ONE);
    let t4: i64 = mul_div(t3, t, 4 * ONE);
    let den: i64 = ONE + t + t2 + t3 + t4;
    floor_div(ONE * ONE, den)
}

} // verus!
