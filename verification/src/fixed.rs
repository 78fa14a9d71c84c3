//! Fixed-point arithmetic.
//!
//! Every real quantity of the terrain model is held as an `i64` that counts
//! millionths: the integer `ONE` stands for 1.0. Quotients round towards
//! negative infinity.

use vstd::prelude::*;

verus! {

/// The integer that stands for 1.0.
pub const ONE: i64 = 1_000_000;

/// `a * b / d`, rounded towards negative infinity.
pub open spec fn mul_div_spec(a: int, b: int, d: int) -> int {
    (a * b) / d
}

/// The fixed-point product of `a` and `b`.
pub open spec fn fx_mul_spec(a: int, b: int) -> int {
    (a * b) / (ONE as int)
}

/// The blend of `a` and `b` that gives `b` the weight `weight_b` and `a` the
/// rest, rounded once.
pub open spec fn mix_values_spec(a: int, b: int, weight_b: int) -> int {
    (b * weight_b + a * (ONE - weight_b)) / (ONE as int)
}

/// `value` held to the closed range from `low` to `high`.
pub open spec fn clamp_spec(value: int, low: int, high: int) -> int {
    if value < low {
        low
    } else if value > high {
        high
    } else {
        value
    }
}

/// The larger of two numbers.
pub open spec fn max_spec(a: int, b: int) -> int {
    if a >= b {
        a
    } else {
        b
    }
}

/// The smaller of two numbers.
pub open spec fn min_spec(a: int, b: int) -> int {
    if a <= b {
        a
    } else {
        b
    }
}

/// The distance between two numbers.
pub open spec fn abs_diff_spec(a: int, b: int) -> int {
    if a >= b {
        a - b
    } else {
        b - a
    }
}

/// A quotient by a positive divisor lies between any two numbers whose
/// multiples by that divisor enclose the dividend.
pub proof fn lemma_div_bounds(n: int, d: int, low: int, high: int)
    requires
        d > 0,
        low * d <= n,
        n <= high * d,
    ensures
        low <= n / d <= high,
{
    assert(low <= n / d) by (nonlinear_arith)
        requires
            d > 0,
            low * d <= n,
    ;
    assert(n / d <= high) by (nonlinear_arith)
        requires
            d > 0,
            n <= high * d,
    ;
}

/// A quotient of a number that is not negative by a positive divisor lies
/// between zero and that number.
pub proof fn lemma_div_shrinks(n: int, d: int)
    requires
        0 <= n,
        0 < d,
    ensures
        0 <= n / d <= n,
{
    assert(n <= n * d) by (nonlinear_arith)
        requires
            0 <= n,
            1 <= d,
    ;
    lemma_div_bounds(n, d, 0, n);
}

/// A product of two bounded factors is bounded by the product of the bounds.
pub proof fn lemma_mul_bounds(a: int, b: int, la: int, lb: int)
    requires
        -la <= a <= la,
        -lb <= b <= lb,
    ensures
        -(la * lb) <= a * b <= la * lb,
{
    assert(-(la * lb) <= a * b <= la * lb) by (nonlinear_arith)
        requires
            -la <= a <= la,
            -lb <= b <= lb,
    ;
}

/// A product of two non-negative bounded factors lies between zero and the
/// product of the bounds.
pub proof fn lemma_mul_nonneg_bounds(a: int, b: int, la: int, lb: int)
    requires
        0 <= a <= la,
        0 <= b <= lb,
    ensures
        0 <= a * b <= la * lb,
{
    assert(0 <= a * b <= la * lb) by (nonlinear_arith)
        requires
            0 <= a <= la,
            0 <= b <= lb,
    ;
}

/// A fixed-point product with a factor between zero and one does not leave the
/// range from zero to the other factor's bound.
pub proof fn lemma_fx_mul_unit(a: int, b: int, la: int)
    requires
        0 <= a <= la,
        0 <= b <= ONE,
    ensures
        0 <= fx_mul_spec(a, b) <= la,
{
    lemma_mul_nonneg_bounds(a, b, la, ONE as int);
    lemma_div_bounds(a * b, ONE as int, 0, la);
}

/// A blend with a weight between zero and one stays between any two bounds
/// that hold both blended values.
pub proof fn lemma_mix_convex(a: int, b: int, weight_b: int, low: int, high: int)
    requires
        0 <= weight_b <= ONE,
        low <= a <= high,
        low <= b <= high,
    ensures
        low <= mix_values_spec(a, b, weight_b) <= high,
{
    let w = weight_b;
    let v = ONE - weight_b;
    assert(low * w <= b * w <= high * w) by (nonlinear_arith)
        requires
            0 <= w,
            low <= b <= high,
    ;
    assert(low * v <= a * v <= high * v) by (nonlinear_arith)
        requires
            0 <= v,
            low <= a <= high,
    ;
    assert(low * w + low * v == low * (ONE as int)) by (nonlinear_arith)
        requires
            w + v == ONE,
    ;
    assert(high * w + high * v == high * (ONE as int)) by (nonlinear_arith)
        requires
            w + v == ONE,
    ;
    lemma_div_bounds(b * w + a * v, ONE as int, low, high);
}

/// A blend under a weight between minus one and one is at most three times as
/// far from zero as the blended values.
pub proof fn lemma_mix_magnitude(a: int, b: int, weight_b: int, limit: int)
    requires
        -limit <= a <= limit,
        -limit <= b <= limit,
        -ONE <= weight_b <= ONE,
    ensures
        -3 * limit <= mix_values_spec(a, b, weight_b) <= 3 * limit,
{
    lemma_mul_bounds(b, weight_b, limit, ONE as int);
    lemma_mul_bounds(a, ONE - weight_b, limit, 2 * ONE);
    assert(limit * ONE + limit * (2 * ONE) == (3 * limit) * ONE) by (nonlinear_arith);
    assert(-(limit * ONE) - limit * (2 * ONE) == (-3 * limit) * ONE) by (nonlinear_arith);
    lemma_div_bounds(b * weight_b + a * (ONE - weight_b), ONE as int, -3 * limit, 3 * limit);
}

/// A blend is the first value moved towards the second by the weight's part
/// of their difference.
pub proof fn lemma_mix_as_step(a: int, b: int, weight_b: int)
    ensures
        mix_values_spec(a, b, weight_b) == a + ((b - a) * weight_b) / (ONE as int),
{
    let step = (b - a) * weight_b;
    let q = step / (ONE as int);
    let r = step % (ONE as int);
    vstd::arithmetic::div_mod::lemma_fundamental_div_mod(step, ONE as int);
    assert(b * weight_b + a * (ONE - weight_b) == (a + q) * ONE + r) by (nonlinear_arith)
        requires
            step == (b - a) * weight_b,
            step == ONE * q + r,
    ;
    vstd::arithmetic::div_mod::lemma_fundamental_div_mod_converse(
        b * weight_b + a * (ONE - weight_b),
        ONE as int,
        a + q,
        r,
    );
}

/// Computes `a / d` for a positive divisor, rounded towards negative infinity.
pub fn floor_div(a: i64, d: i64) -> (r: i64)
    requires
        d > 0,
    ensures
        r == a as int / d as int,
{
    proof {
        let n = a as int;
        let k = d as int;
        if a >= 0 {
            assert(n <= n * k) by (nonlinear_arith)
                requires
                    n >= 0,
                    k >= 1,
            ;
            lemma_div_bounds(n, k, 0, n);
        } else {
            assert(n * k <= n) by (nonlinear_arith)
                requires
                    n <= 0,
                    k >= 1,
            ;
            lemma_div_bounds(n, k, n, 0);
        }
    }
    match a.checked_div_euclid(d) {
        Some(q) => q,
        None => 0,
    }
}

/// Computes the remainder of `a` by a positive divisor: the number from zero
/// up to, and without, `d` that differs from `a` by a multiple of `d`.
pub fn floor_mod(a: i64, d: i64) -> (r: i64)
    requires
        d > 0,
    ensures
        r == a as int % d as int,
        0 <= r < d,
{
    match a.checked_rem_euclid(d) {
        Some(q) => q,
        None => 0,
    }
}

/// Computes `a * b / d`, rounded towards negative infinity, through a wide
/// intermediate product.
pub fn mul_div(a: i64, b: i64, d: i64) -> (r: i64)
    requires
        d > 0,
        i64::MIN <= mul_div_spec(a as int, b as int, d as int) <= i64::MAX,
    ensures
        r == mul_div_spec(a as int, b as int, d as int),
{
    proof {
        lemma_mul_bounds(a as int, b as int, 0x8000_0000_0000_0000, 0x8000_0000_0000_0000);
    }
    let wide: i128 = (a as i128) * (b as i128);
    match wide.checked_div_euclid(d as i128) {
        Some(q) => q as i64,
        None => 0,
    }
}

/// Computes the fixed-point product of `a` and `b`.
pub fn fx_mul(a: i64, b: i64) -> (r: i64)
    requires
        i64::MIN <= fx_mul_spec(a as int, b as int) <= i64::MAX,
    ensures
        r == fx_mul_spec(a as int, b as int),
{
    mul_div(a, b, ONE)
}

/// Blends `a` and `b`: `b` counts with the weight `weight_b`, `a` with what is
/// left of one. A weight outside the range from zero to one extrapolates.
pub fn mix_values(a: i64, b: i64, weight_b: i64) -> (r: i64)
    requires
        i64::MIN <= mix_values_spec(a as int, b as int, weight_b as int) <= i64::MAX,
    ensures
        r == mix_values_spec(a as int, b as int, weight_b as int),
{
    proof {
        lemma_mix_as_step(a as int, b as int, weight_b as int);
        lemma_mul_bounds(
            b - a,
            weight_b as int,
            0xFFFF_FFFF_FFFF_FFFF,
            0x8000_0000_0000_0000,
        );
        let step = (b - a) * weight_b;
        if step >= 0 {
            lemma_div_shrinks(step, ONE as int);
        } else {
            assert(step * ONE <= step) by (nonlinear_arith)
                requires
                    step <= 0,
            ;
            lemma_div_bounds(step, ONE as int, step, 0);
        }
    }
    let step: i128 = (b as i128 - a as i128) * (weight_b as i128);
    match step.checked_div_euclid(ONE as i128) {
        Some(moved) => (a as i128 + moved) as i64,
        None => a,
    }
}

/// Holds a wide value to the closed range from `low` to `high`.
pub fn clamp_wide(value: i128, low: i64, high: i64) -> (r: i64)
    requires
        low <= high,
    ensures
        r == clamp_spec(value as int, low as int, high as int),
        low <= r <= high,
{
    if value < low as i128 {
        low
    } else if value > high as i128 {
        high
    } else {
        value as i64
    }
}

/// Computes the fixed-point product of `a` and `b` as a wide value.
pub fn fx_mul_wide(a: i64, b: i64) -> (r: i128)
    ensures
        r == fx_mul_spec(a as int, b as int),
        -0x4000_0000_0000_0000_0000_0000_0000_0000 <= r <= 0x4000_0000_0000_0000_0000_0000_0000_0000,
{
    proof {
        lemma_mul_bounds(a as int, b as int, 0x8000_0000_0000_0000, 0x8000_0000_0000_0000);
        let p = a * b;
        if p >= 0 {
            lemma_div_shrinks(p, ONE as int);
        } else {
            assert(p * ONE <= p) by (nonlinear_arith)
                requires
                    p <= 0,
            ;
            lemma_div_bounds(p, ONE as int, p, 0);
        }
    }
    let wide: i128 = (a as i128) * (b as i128);
    match wide.checked_div_euclid(ONE as i128) {
        Some(q) => q,
        None => 0,
    }
}

/// Holds `value` to the closed range from `low` to `high`.
pub fn clamp(value: i64, low: i64, high: i64) -> (r: i64)
    requires
        low <= high,
    ensures
        r == clamp_spec(value as int, low as int, high as int),
        low <= r <= high,
{
    if value < low {
        low
    } else if value > high {
        high
    } else {
        value
    }
}

/// The larger of two numbers.
pub fn max_of(a: i64, b: i64) -> (r: i64)
    ensures
        r == max_spec(a as int, b as int),
{
    if a >= b {
        a
    } else {
        b
    }
}

/// The smaller of two numbers.
pub fn min_of(a: i64, b: i64) -> (r: i64)
    ensures
        r == min_spec(a as int, b as int),
{
    if a <= b {
        a
    } else {
        b
    }
}

/// The distance between two numbers, where it fits the type.
pub fn abs_diff(a: i64, b: i64) -> (r: i64)
    requires
        abs_diff_spec(a as int, b as int) <= i64::MAX,
    ensures
        r == abs_diff_spec(a as int, b as int),
        r >= 0,
{
    if a >= b {
        a - b
    } else {
        b - a
    }
}

} // verus!
