//! The noise field: a seeded value noise over space.
//!
//! Every point of the integer lattice carries a pseudo-random value between
//! zero and one, a function of the seed and the point. Between lattice points
//! the field blends the eight surrounding values along smoothed weights, so
//! that it is continuous everywhere.

use crate::fixed::{
    floor_div, floor_mod, lemma_div_bounds, lemma_mix_convex, lemma_mul_nonneg_bounds, mix_values,
    mix_values_spec, ONE,
};
use crate::vector::Vec3;
use vstd::prelude::*;

verus! {

/// The modulus of the lattice hash, a prime.
pub const HASH_MODULUS: u64 = 2_147_483_647;

/// The multiplier of the lattice hash.
pub const HASH_MULTIPLIER: u64 = 48_271;

/// The increment of the lattice hash.
pub const HASH_INCREMENT: u64 = 1_013_904_223;

/// One round of the lattice hash: folds the coordinate `v` into the state
/// `h`.
pub open spec fn hash_round_spec(h: int, v: int) -> int {
    let s = (h + v % (HASH_MODULUS as int) + 1) % (HASH_MODULUS as int);
    (((s * s) % (HASH_MODULUS as int)) * HASH_MULTIPLIER + HASH_INCREMENT) % (HASH_MODULUS as int)
}

/// The value that the lattice point `(x, y, z)` carries under `seed`, between
/// zero and one.
pub open spec fn lattice_value_spec(seed: int, x: int, y: int, z: int) -> int {
    let h0 = seed % (HASH_MODULUS as int);
    let h1 = hash_round_spec(h0, x);
    let h2 = hash_round_spec(h1, y);
    let h3 = hash_round_spec(h2, z);
    let h4 = hash_round_spec(h3, 0);
    h4 % (ONE + 1)
}

/// The smoothed weight of a position `t` between two lattice points: three
/// `t` squared less two `t` cubed.
pub open spec fn fade_spec(t: int) -> int {
    (t * t * (3 * ONE - 2 * t)) / (ONE * ONE)
}

/// The field along the x axis: the blend of the lattice values at `x` and at
/// `x + 1`.
pub open spec fn blend_x_spec(seed: int, x: int, y: int, z: int, wx: int) -> int {
    mix_values_spec(lattice_value_spec(seed, x, y, z), lattice_value_spec(seed, x + 1, y, z), wx)
}

/// The field over a face: the blend along y of two blends along x.
pub open spec fn blend_xy_spec(seed: int, x: int, y: int, z: int, wx: int, wy: int) -> int {
    mix_values_spec(blend_x_spec(seed, x, y, z, wx), blend_x_spec(seed, x, y + 1, z, wx), wy)
}

/// The value of the noise field of `seed` at the point `(px, py, pz)`.
pub open spec fn sample_spec(seed: int, px: int, py: int, pz: int) -> int {
    let x = px / (ONE as int);
    let y = py / (ONE as int);
    let z = pz / (ONE as int);
    let wx = fade_spec(px % (ONE as int));
    let wy = fade_spec(py % (ONE as int));
    let wz = fade_spec(pz % (ONE as int));
    mix_values_spec(
        blend_xy_spec(seed, x, y, z, wx, wy),
        blend_xy_spec(seed, x, y, z + 1, wx, wy),
        wz,
    )
}

/// A lattice value lies between zero and one.
pub proof fn lemma_lattice_value_bounds(seed: int, x: int, y: int, z: int)
    ensures
        0 <= lattice_value_spec(seed, x, y, z) <= ONE,
{
}

/// The smoothed weight of a position between zero and one lies between zero
/// and one.
pub proof fn lemma_fade_bounds(t: int)
    requires
        0 <= t <= ONE,
    ensures
        0 <= fade_spec(t) <= ONE,
        0 <= t * t * (3 * ONE - 2 * t) <= ONE * ONE * ONE,
{
    let one = ONE as int;
    let n = t * t * (3 * ONE - 2 * t);
    assert(0 <= n) by (nonlinear_arith)
        requires
            n == t * t * (3 * one - 2 * t),
            0 <= t <= one,
            one > 0,
    ;
    assert(n <= one * one * one) by (nonlinear_arith)
        requires
            n == t * t * (3 * one - 2 * t),
            0 <= t <= one,
    ;
    assert(one * one * one == one * (one * one)) by (nonlinear_arith);
    assert(ONE * ONE > 0) by (nonlinear_arith);
    lemma_div_bounds(n, ONE * ONE, 0, one);
}

/// The blends under the field lie between zero and one for weights between
/// zero and one.
pub proof fn lemma_blend_bounds(seed: int, x: int, y: int, z: int, wx: int, wy: int)
    requires
        0 <= wx <= ONE,
        0 <= wy <= ONE,
    ensures
        0 <= blend_x_spec(seed, x, y, z, wx) <= ONE,
        0 <= blend_xy_spec(seed, x, y, z, wx, wy) <= ONE,
{
    lemma_lattice_value_bounds(seed, x, y, z);
    lemma_lattice_value_bounds(seed, x + 1, y, z);
    lemma_lattice_value_bounds(seed, x, y + 1, z);
    lemma_lattice_value_bounds(seed, x + 1, y + 1, z);
    lemma_mix_convex(
        lattice_value_spec(seed, x, y, z),
        lattice_value_spec(seed, x + 1, y, z),
        wx,
        0,
        ONE as int,
    );
    lemma_mix_convex(
        lattice_value_spec(seed, x, y + 1, z),
        lattice_value_spec(seed, x + 1, y + 1, z),
        wx,
        0,
        ONE as int,
    );
    lemma_mix_convex(
        blend_x_spec(seed, x, y, z, wx),
        blend_x_spec(seed, x, y + 1, z, wx),
        wy,
        0,
        ONE as int,
    );
}

/// The noise field takes values between zero and one.
pub proof fn lemma_sample_bounds(seed: int, px: int, py: int, pz: int)
    ensures
        0 <= sample_spec(seed, px, py, pz) <= ONE,
{
    let x = px / (ONE as int);
    let y = py / (ONE as int);
    let z = pz / (ONE as int);
    let wx = fade_spec(px % (ONE as int));
    let wy = fade_spec(py % (ONE as int));
    let wz = fade_spec(pz % (ONE as int));
    lemma_fade_bounds(px % (ONE as int));
    lemma_fade_bounds(py % (ONE as int));
    lemma_fade_bounds(pz % (ONE as int));
    lemma_blend_bounds(seed, x, y, z, wx, wy);
    lemma_blend_bounds(seed, x, y, z + 1, wx, wy);
    lemma_mix_convex(
        blend_xy_spec(seed, x, y, z, wx, wy),
        blend_xy_spec(seed, x, y, z + 1, wx, wy),
        wz,
        0,
        ONE as int,
    );
}

/// Computes one round of the lattice hash.
fn hash_round(h: u64, v: i64) -> (r: u64)
    requires
        h < HASH_MODULUS,
    ensures
        r == hash_round_spec(h as int, v as int),
        r < HASH_MODULUS,
{
    let folded: u64 = floor_mod(v, HASH_MODULUS as i64) as u64;
    let s: u64 = (h + folded + 1) % HASH_MODULUS;
    proof {
        lemma_mul_nonneg_bounds(s as int, s as int, 0x7FFF_FFFF, 0x7FFF_FFFF);
    }
    let squared: u64 = (s * s) % HASH_MODULUS;
    proof {
        lemma_mul_nonneg_bounds(squared as int, HASH_MULTIPLIER as int, 0x7FFF_FFFF, 48_271);
    }
    (squared * HASH_MULTIPLIER + HASH_INCREMENT) % HASH_MODULUS
}

/// Computes the value that a lattice point carries under `seed`.
pub fn lattice_value(seed: u32, x: i64, y: i64, z: i64) -> (r: i64)
    ensures
        r == lattice_value_spec(seed as int, x as int, y as int, z as int),
        0 <= r <= ONE,
{
    let h0: u64 = (seed as u64) % HASH_MODULUS;
    let h1: u64 = hash_round(h0, x);
    let h2: u64 = hash_round(h1, y);
    let h3: u64 = hash_round(h2, z);
    let h4: u64 = hash_round(h3, 0);
    (h4 % (ONE as u64 + 1)) as i64
}

/// Computes the smoothed weight of a position between two lattice points.
pub fn fade(t: i64) -> (r: i64)
    requires
        0 <= t <= ONE,
    ensures
        r == fade_spec(t as int),
        0 <= r <= ONE,
{
    proof {
        lemma_fade_bounds(t as int);
        lemma_mul_nonneg_bounds(t as int, t as int, ONE as int, ONE as int);
        assert(ONE * ONE * ONE == 1_000_000_000_000_000_000) by (nonlinear_arith);
        assert(ONE * ONE == 1_000_000_000_000) by (nonlinear_arith);
    }
    let square: i64 = t * t;
    let cubic: i64 = square * (3 * ONE - 2 * t);
    floor_div(cubic, ONE * ONE)
}

/// Computes the field over one face of a lattice cell.
fn blend_xy(seed: u32, x: i64, y: i64, z: i64, wx: i64, wy: i64) -> (r: i64)
    requires
        0 <= wx <= ONE,
        0 <= wy <= ONE,
        x < i64::MAX,
        y < i64::MAX,
    ensures
        r == blend_xy_spec(seed as int, x as int, y as int, z as int, wx as int, wy as int),
        0 <= r <= ONE,
{
    proof {
        lemma_blend_bounds(seed as int, x as int, y as int, z as int, wx as int, wy as int);
        lemma_blend_bounds(seed as int, x as int, y + 1, z as int, wx as int, wy as int);
    }
    let near: i64 = mix_values(lattice_value(seed, x, y, z), lattice_value(seed, x + 1, y, z), wx);
    let far: i64 = mix_values(
        lattice_value(seed, x, y + 1, z),
        lattice_value(seed, x + 1, y + 1, z),
        wx,
    );
    mix_values(near, far, wy)
}

/// Samples the noise field of `seed` at `point`. The value depends on the
/// seed and the point alone and lies between zero and one.
pub fn sample(seed: u32, point: Vec3) -> (r: i64)
    ensures
        r == sample_spec(seed as int, point.x as int, point.y as int, point.z as int),
        0 <= r <= ONE,
{
    proof {
        lemma_sample_bounds(seed as int, point.x as int, point.y as int, point.z as int);
    }
    let x: i64 = floor_div(point.x, ONE);
    let y: i64 = floor_div(point.y, ONE);
    let z: i64 = floor_div(point.z, ONE);
    proof {
        lemma_div_bounds(point.x as int, ONE as int, -9_223_372_036_855, 9_223_372_036_855);
        lemma_div_bounds(point.y as int, ONE as int, -9_223_372_036_855, 9_223_372_036_855);
        lemma_div_bounds(point.z as int, ONE as int, -9_223_372_036_855, 9_223_372_036_855);
    }
    let wx: i64 = fade(floor_mod(point.x, ONE));
    let wy: i64 = fade(floor_mod(point.y, ONE));
    let wz: i64 = fade(floor_mod(point.z, ONE));
    proof {
        lemma_blend_bounds(seed as int, x as int, y as int, z as int, wx as int, wy as int);
        lemma_blend_bounds(seed as int, x as int, y as int, z + 1, wx as int, wy as int);
    }
    let below: i64 = blend_xy(seed, x, y, z, wx, wy);
    let above: i64 = blend_xy(seed, x, y, z + 1, wx, wy);
    mix_values(below, above, wz)
}

} // verus!
