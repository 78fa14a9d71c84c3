//! The altitude of a cell.
//!
//! Eleven octaves of the noise field, sampled on spheres of different radii
//! round different centres, are mixed with the field of the continents. Two
//! pairs of octaves pass through a ridge function, which turns the smooth
//! noise into thin raised bands: the mountain ranges.

use crate::elementary::{bell, bell_spec, lemma_bell_bounds, PI, TAU};
use crate::fixed::{
    clamp, clamp_spec, floor_div, fx_mul, fx_mul_spec, lemma_div_bounds, lemma_fx_mul_unit,
    lemma_mix_convex, lemma_mix_magnitude, lemma_mul_nonneg_bounds, max_of, max_spec, mix_values,
    mix_values_spec, ONE,
};
use crate::math_util::{
    cartesian_coordinates, cartesian_x_spec, cartesian_y_spec, cartesian_z_spec,
    lemma_cartesian_bounds, lemma_fx_mul_shrinks, CartesianError,
};
use crate::noise::{lemma_sample_bounds, sample, sample_spec};
use crate::vector::Vec3;
use vstd::prelude::*;

verus! {

/// Lowest altitude of the model.
pub const MIN_ALTITUDE: i64 = -15_000_000_000;

/// Highest altitude of the model.
pub const MAX_ALTITUDE: i64 = 15_000_000_000;

/// The difference between the highest and the lowest altitude.
pub const ALTITUDE_SPAN: i64 = 30_000_000_000;

/// The radius of the ball from which the centres of the octaves are drawn.
pub const OFFSET_RADIUS: i64 = 1_000_000_000;

/// How far from zero a radius and the coordinates of a centre may lie for an
/// octave to be sampled: their sum has to fit the type.
pub const COORDINATE_LIMIT: i64 = 0x3FFF_FFFF_FFFF_FFFF;

/// The width factor of the ridge function for the mountain ranges.
pub const RIDGE_WIDTH: i64 = 25_000_000;

/// The number of octaves that the altitude takes.
pub const ALTITUDE_OCTAVES: usize = 11;

/// The octaves of the noise field at one cell, as the altitude takes them.
#[derive(Debug, Clone, Copy, PartialEq, Eq, Structural)]
pub struct AltitudeSamples {
    /// First octave of the first ridge.
    pub ridge_a: i64,
    /// First octave of the second ridge.
    pub ridge_b: i64,
    /// Fine octave of the first ridge.
    pub fine_a: i64,
    /// Fine octave of the second ridge.
    pub fine_b: i64,
    /// The five octaves of rising frequency that roughen coasts and ranges.
    pub rough_1: i64,
    pub rough_2: i64,
    pub rough_3: i64,
    pub rough_4: i64,
    pub rough_5: i64,
    /// The octave that scales the weights of the others.
    pub strength: i64,
    /// The octave that both ridges share.
    pub shared: i64,
}

impl AltitudeSamples {
    /// Every octave lies between zero and one.
    pub open spec fn wf(self) -> bool {
        &&& 0 <= self.ridge_a <= ONE
        &&& 0 <= self.ridge_b <= ONE
        &&& 0 <= self.fine_a <= ONE
        &&& 0 <= self.fine_b <= ONE
        &&& 0 <= self.rough_1 <= ONE
        &&& 0 <= self.rough_2 <= ONE
        &&& 0 <= self.rough_3 <= ONE
        &&& 0 <= self.rough_4 <= ONE
        &&& 0 <= self.rough_5 <= ONE
        &&& 0 <= self.strength <= ONE
        &&& 0 <= self.shared <= ONE
    }
}

/// The radius of the sphere on which the octave `index` of the altitude is
/// sampled.
pub open spec fn altitude_radius_spec(index: int) -> int {
    if index == 0 || index == 1 {
        750_000
    } else if index == 2 || index == 3 {
        8_000_000
    } else if index == 4 {
        4_000_000
    } else if index == 5 {
        8_000_000
    } else if index == 6 {
        16_000_000
    } else if index == 7 {
        64_000_000
    } else if index == 8 {
        128_000_000
    } else if index == 9 {
        1_500_000
    } else {
        1_000_000
    }
}

/// The longitude of the column `x` of a grid of the given width.
pub open spec fn longitude_spec(x: int, width: int) -> int {
    (x * TAU) / width
}

/// The noise field of `seed` at the point of colatitude `alpha` and longitude
/// `beta` on the sphere of the given radius round `offset`.
pub open spec fn polar_noise_spec(
    seed: int,
    alpha: int,
    beta: int,
    radius: int,
    offset: Vec3,
) -> int {
    sample_spec(
        seed,
        cartesian_x_spec(alpha, beta, radius) + offset.x,
        cartesian_y_spec(alpha, radius) + offset.y,
        cartesian_z_spec(alpha, beta, radius) + offset.z,
    )
}

/// The octaves of the altitude at colatitude `alpha` and longitude `beta`,
/// sampled round the first eleven of the given centres.
pub open spec fn altitude_samples_spec(
    seed: int,
    alpha: int,
    beta: int,
    octaves: Seq<Vec3>,
) -> AltitudeSamples {
    AltitudeSamples {
        ridge_a: polar_noise_spec(seed, alpha, beta, altitude_radius_spec(0), octaves[0]) as i64,
        ridge_b: polar_noise_spec(seed, alpha, beta, altitude_radius_spec(1), octaves[1]) as i64,
        fine_a: polar_noise_spec(seed, alpha, beta, altitude_radius_spec(2), octaves[2]) as i64,
        fine_b: polar_noise_spec(seed, alpha, beta, altitude_radius_spec(3), octaves[3]) as i64,
        rough_1: polar_noise_spec(seed, alpha, beta, altitude_radius_spec(4), octaves[4]) as i64,
        rough_2: polar_noise_spec(seed, alpha, beta, altitude_radius_spec(5), octaves[5]) as i64,
        rough_3: polar_noise_spec(seed, alpha, beta, altitude_radius_spec(6), octaves[6]) as i64,
        rough_4: polar_noise_spec(seed, alpha, beta, altitude_radius_spec(7), octaves[7]) as i64,
        rough_5: polar_noise_spec(seed, alpha, beta, altitude_radius_spec(8), octaves[8]) as i64,
        strength: polar_noise_spec(seed, alpha, beta, altitude_radius_spec(9), octaves[9]) as i64,
        shared: polar_noise_spec(seed, alpha, beta, altitude_radius_spec(10), octaves[10]) as i64,
    }
}

/// The factor by which an octave scales the weights of the others: from a
/// quarter to one and three quarters.
pub open spec fn strength_spec(noise: int) -> int {
    fx_mul_spec(noise, 1_500_000) + 250_000
}

/// The blend of `a` and `b` under the weight `factor` scaled by `strength`.
pub open spec fn blend_spec(a: int, b: int, factor: int, strength: int) -> int {
    mix_values_spec(a, b, fx_mul_spec(factor, strength))
}

/// The ridge function: noise from zero to one is stretched to the range from
/// minus one to one and scaled by the width factor; the result is the mean of
/// one and the difference of two bell curves, one centred a unit above zero,
/// one a unit below. It is one half away from the middle of the noise's range
/// and swings to one and to zero in a narrow band round it.
pub open spec fn ridge_spec(noise: int, width_factor: int) -> int {
    let scaled = fx_mul_spec(2 * noise - ONE, width_factor);
    (bell_spec(scaled - ONE) - bell_spec(scaled + ONE) + ONE) / 2
}

/// The field of the continents, roughened by the five octaves of rising
/// frequency under falling weights.
pub open spec fn coast_spec(continent: int, s: AltitudeSamples) -> int {
    let k = strength_spec(s.strength as int);
    let a1 = blend_spec(continent, s.rough_1 as int, 220_000, k);
    let a2 = blend_spec(a1, s.rough_2 as int, 150_000, k);
    let a3 = blend_spec(a2, s.rough_3 as int, 100_000, k);
    let a4 = blend_spec(a3, s.rough_4 as int, 30_000, k);
    blend_spec(a4, s.rough_5 as int, 5_000, k)
}

/// One ridge: its first octave, blended with the shared and with a fine
/// octave, through the ridge function.
pub open spec fn single_ridge_spec(first: int, fine: int, shared: int, k: int) -> int {
    ridge_spec(blend_spec(blend_spec(first, shared, 500_000, k), fine, 40_000, k), RIDGE_WIDTH as int)
}

/// The mountain ranges: two ridges blended, roughened by the five octaves of
/// rising frequency.
pub open spec fn ranges_spec(s: AltitudeSamples) -> int {
    let k = strength_spec(s.strength as int);
    let first = single_ridge_spec(s.ridge_a as int, s.fine_a as int, s.shared as int, k);
    let second = single_ridge_spec(s.ridge_b as int, s.fine_b as int, s.shared as int, k);
    let c1 = blend_spec(first, second, 500_000, k);
    let c2 = blend_spec(c1, s.rough_1 as int, 350_000, k);
    let c3 = mix_values_spec(c2, s.rough_2 as int, 75_000);
    let c4 = mix_values_spec(c3, s.rough_3 as int, 50_000);
    let c5 = mix_values_spec(c4, s.rough_4 as int, 20_000);
    mix_values_spec(c5, s.rough_5 as int, 10_000)
}

/// The continents flattened towards sea level where no range rises: the coast
/// field, blended towards a value near one half by the excess of the coast
/// field over the upper half of the ranges.
pub open spec fn shelf_spec(coast: int, ranges: int) -> int {
    mix_values_spec(
        coast,
        fx_mul_spec(coast, 20_000) + 490_000,
        coast - max_spec(0, 2 * ranges - ONE),
    )
}

/// The raw altitude of a cell, nominally between zero and one, from the field
/// of the continents at the cell and the octaves there.
pub open spec fn raw_altitude_spec(continent: int, s: AltitudeSamples) -> int {
    let coast = coast_spec(continent, s);
    let ranges = ranges_spec(s);
    blend_spec(shelf_spec(coast, ranges), ranges, 225_000, strength_spec(s.strength as int))
}

/// The altitude that a raw altitude stands for: the raw value, held to the
/// range from zero to one, mapped linearly onto the range of altitudes.
pub open spec fn calculate_altitude_spec(raw_altitude: int) -> int {
    MIN_ALTITUDE + fx_mul_spec(clamp_spec(raw_altitude, 0, ONE as int), ALTITUDE_SPAN as int)
}

/// An octave sampled on a sphere lies between zero and one.
pub proof fn lemma_polar_noise_bounds(seed: int, alpha: int, beta: int, radius: int, offset: Vec3)
    ensures
        0 <= polar_noise_spec(seed, alpha, beta, radius, offset) <= ONE,
{
    lemma_sample_bounds(
        seed,
        cartesian_x_spec(alpha, beta, radius) + offset.x,
        cartesian_y_spec(alpha, radius) + offset.y,
        cartesian_z_spec(alpha, beta, radius) + offset.z,
    );
}

/// The strength of an octave lies between a quarter and one and three
/// quarters.
pub proof fn lemma_strength_bounds(noise: int)
    requires
        0 <= noise <= ONE,
    ensures
        250_000 <= strength_spec(noise) <= 1_750_000,
{
    lemma_mul_nonneg_bounds(noise, 1_500_000, ONE as int, 1_500_000);
    lemma_div_bounds(noise * 1_500_000, ONE as int, 0, 1_500_000);
}

/// A blend under a factor of at most one half, scaled by a strength, stays
/// between any two bounds that hold both blended values.
pub proof fn lemma_blend_bounds(a: int, b: int, factor: int, strength: int, low: int, high: int)
    requires
        low <= a <= high,
        low <= b <= high,
        0 <= factor <= 500_000,
        250_000 <= strength <= 1_750_000,
    ensures
        low <= blend_spec(a, b, factor, strength) <= high,
        0 <= fx_mul_spec(factor, strength) <= 875_000,
{
    lemma_mul_nonneg_bounds(factor, strength, 500_000, 1_750_000);
    lemma_div_bounds(factor * strength, ONE as int, 0, 875_000);
    lemma_mix_convex(a, b, fx_mul_spec(factor, strength), low, high);
}

/// The ridge function of noise between zero and one lies between zero and
/// one.
pub proof fn lemma_ridge_bounds(noise: int, width_factor: int)
    ensures
        0 <= ridge_spec(noise, width_factor) <= ONE,
{
    let scaled = fx_mul_spec(2 * noise - ONE, width_factor);
    lemma_bell_bounds(scaled - ONE);
    lemma_bell_bounds(scaled + ONE);
}

/// The coast field lies between zero and one.
pub proof fn lemma_coast_bounds(continent: int, s: AltitudeSamples)
    requires
        0 <= continent <= ONE,
        s.wf(),
    ensures
        0 <= coast_spec(continent, s) <= ONE,
{
    let k = strength_spec(s.strength as int);
    lemma_strength_bounds(s.strength as int);
    let a1 = blend_spec(continent, s.rough_1 as int, 220_000, k);
    let a2 = blend_spec(a1, s.rough_2 as int, 150_000, k);
    let a3 = blend_spec(a2, s.rough_3 as int, 100_000, k);
    let a4 = blend_spec(a3, s.rough_4 as int, 30_000, k);
    lemma_blend_bounds(continent, s.rough_1 as int, 220_000, k, 0, ONE as int);
    lemma_blend_bounds(a1, s.rough_2 as int, 150_000, k, 0, ONE as int);
    lemma_blend_bounds(a2, s.rough_3 as int, 100_000, k, 0, ONE as int);
    lemma_blend_bounds(a3, s.rough_4 as int, 30_000, k, 0, ONE as int);
    lemma_blend_bounds(a4, s.rough_5 as int, 5_000, k, 0, ONE as int);
}

/// One ridge lies between zero and one.
pub proof fn lemma_single_ridge_bounds(first: int, fine: int, shared: int, k: int)
    requires
        0 <= first <= ONE,
        0 <= fine <= ONE,
        0 <= shared <= ONE,
        250_000 <= k <= 1_750_000,
    ensures
        0 <= single_ridge_spec(first, fine, shared, k) <= ONE,
        0 <= blend_spec(first, shared, 500_000, k) <= ONE,
        0 <= blend_spec(blend_spec(first, shared, 500_000, k), fine, 40_000, k) <= ONE,
{
    lemma_blend_bounds(first, shared, 500_000, k, 0, ONE as int);
    lemma_blend_bounds(blend_spec(first, shared, 500_000, k), fine, 40_000, k, 0, ONE as int);
    lemma_ridge_bounds(
        blend_spec(blend_spec(first, shared, 500_000, k), fine, 40_000, k),
        RIDGE_WIDTH as int,
    );
}

/// The mountain ranges lie between zero and one.
pub proof fn lemma_ranges_bounds(s: AltitudeSamples)
    requires
        s.wf(),
    ensures
        0 <= ranges_spec(s) <= ONE,
{
    let k = strength_spec(s.strength as int);
    lemma_strength_bounds(s.strength as int);
    let first = single_ridge_spec(s.ridge_a as int, s.fine_a as int, s.shared as int, k);
    let second = single_ridge_spec(s.ridge_b as int, s.fine_b as int, s.shared as int, k);
    lemma_single_ridge_bounds(s.ridge_a as int, s.fine_a as int, s.shared as int, k);
    lemma_single_ridge_bounds(s.ridge_b as int, s.fine_b as int, s.shared as int, k);
    let c1 = blend_spec(first, second, 500_000, k);
    let c2 = blend_spec(c1, s.rough_1 as int, 350_000, k);
    let c3 = mix_values_spec(c2, s.rough_2 as int, 75_000);
    let c4 = mix_values_spec(c3, s.rough_3 as int, 50_000);
    let c5 = mix_values_spec(c4, s.rough_4 as int, 20_000);
    lemma_blend_bounds(first, second, 500_000, k, 0, ONE as int);
    lemma_blend_bounds(c1, s.rough_1 as int, 350_000, k, 0, ONE as int);
    lemma_mix_convex(c2, s.rough_2 as int, 75_000, 0, ONE as int);
    lemma_mix_convex(c3, s.rough_3 as int, 50_000, 0, ONE as int);
    lemma_mix_convex(c4, s.rough_4 as int, 20_000, 0, ONE as int);
    lemma_mix_convex(c5, s.rough_5 as int, 10_000, 0, ONE as int);
}

/// The shelf lies within three of zero.
pub proof fn lemma_shelf_bounds(coast: int, ranges: int)
    requires
        0 <= coast <= ONE,
        0 <= ranges <= ONE,
    ensures
        -3 * ONE <= shelf_spec(coast, ranges) <= 3 * ONE,
        490_000 <= fx_mul_spec(coast, 20_000) + 490_000 <= 510_000,
{
    lemma_fx_mul_unit(20_000, coast, 20_000);
    assert(coast * 20_000 == 20_000 * coast) by (nonlinear_arith);
    lemma_mix_magnitude(
        coast,
        fx_mul_spec(coast, 20_000) + 490_000,
        coast - max_spec(0, 2 * ranges - ONE),
        ONE as int,
    );
}

/// The raw altitude lies within three of zero.
pub proof fn lemma_raw_altitude_bounds(continent: int, s: AltitudeSamples)
    requires
        0 <= continent <= ONE,
        s.wf(),
    ensures
        -3 * ONE <= raw_altitude_spec(continent, s) <= 3 * ONE,
{
    lemma_coast_bounds(continent, s);
    lemma_ranges_bounds(s);
    lemma_strength_bounds(s.strength as int);
    let coast = coast_spec(continent, s);
    let ranges = ranges_spec(s);
    lemma_shelf_bounds(coast, ranges);
    lemma_blend_bounds(
        shelf_spec(coast, ranges),
        ranges,
        225_000,
        strength_spec(s.strength as int),
        -3 * ONE,
        3 * ONE,
    );
}

/// Every altitude that comes of a raw altitude lies between the lowest and
/// the highest altitude of the model.
pub proof fn lemma_calculate_altitude_bounds(raw_altitude: int)
    ensures
        MIN_ALTITUDE <= calculate_altitude_spec(raw_altitude) <= MAX_ALTITUDE,
{
    let held = clamp_spec(raw_altitude, 0, ONE as int);
    lemma_fx_mul_unit(ALTITUDE_SPAN as int, held, ALTITUDE_SPAN as int);
    assert(held * ALTITUDE_SPAN == ALTITUDE_SPAN * held) by (nonlinear_arith);
}

/// Computes the longitude of a column of the grid.
pub fn longitude(x: usize, width: u32) -> (beta: i64)
    requires
        x < width,
    ensures
        beta == longitude_spec(x as int, width as int),
        0 <= beta <= TAU,
{
    proof {
        assert(0 <= x * TAU <= width * TAU) by (nonlinear_arith)
            requires
                0 <= x < width,
        ;
        assert(TAU * width == width * TAU) by (nonlinear_arith);
        lemma_div_bounds(x * TAU, width as int, 0, TAU as int);
    }
    floor_div((x as i64) * TAU, width as i64)
}

/// Samples the noise field of `seed` at the point of colatitude `alpha` and
/// longitude `beta` on the sphere of the given radius round `offset`. A
/// colatitude below zero or above half a turn is refused.
pub fn random_noise_from_polar_coordinates(
    seed: u32,
    alpha: i64,
    beta: i64,
    radius: i64,
    offset: Vec3,
) -> (r: Result<i64, CartesianError>)
    requires
        -COORDINATE_LIMIT <= radius <= COORDINATE_LIMIT,
        -COORDINATE_LIMIT <= offset.x <= COORDINATE_LIMIT,
        -COORDINATE_LIMIT <= offset.y <= COORDINATE_LIMIT,
        -COORDINATE_LIMIT <= offset.z <= COORDINATE_LIMIT,
    ensures
        match r {
            Ok(value) => {
                &&& 0 <= alpha <= PI
                &&& value == polar_noise_spec(
                    seed as int,
                    alpha as int,
                    beta as int,
                    radius as int,
                    offset,
                )
                &&& 0 <= value <= ONE
            },
            Err(error) => (alpha < 0 || alpha > PI) && error == CartesianError::InvalidAlpha(alpha),
        },
{
    proof {
        lemma_cartesian_bounds(alpha as int, beta as int, radius as int, COORDINATE_LIMIT as int);
    }
    match cartesian_coordinates(alpha, beta, radius) {
        Ok(point) => {
            let moved = Vec3 {
                x: point.x + offset.x,
                y: point.y + offset.y,
                z: point.z + offset.z,
            };
            Ok(sample(seed, moved))
        },
        Err(error) => Err(error),
    }
}

/// Computes the radius of the sphere on which an octave of the altitude is
/// sampled.
pub fn altitude_radius(index: usize) -> (radius: i64)
    ensures
        radius == altitude_radius_spec(index as int),
        0 < radius <= COORDINATE_LIMIT,
{
    if index == 0 || index == 1 {
        750_000
    } else if index == 2 || index == 3 {
        8_000_000
    } else if index == 4 {
        4_000_000
    } else if index == 5 {
        8_000_000
    } else if index == 6 {
        16_000_000
    } else if index == 7 {
        64_000_000
    } else if index == 8 {
        128_000_000
    } else if index == 9 {
        1_500_000
    } else {
        1_000_000
    }
}

/// Whether every centre of the list lies within the coordinate limit of the
/// origin along each axis, so that an octave can be sampled round it.
pub open spec fn offsets_bounded(octaves: Seq<Vec3>) -> bool {
    forall|i: int|
        0 <= i < octaves.len() ==> {
            &&& -COORDINATE_LIMIT <= (#[trigger] octaves[i]).x <= COORDINATE_LIMIT
            &&& -COORDINATE_LIMIT <= octaves[i].y <= COORDINATE_LIMIT
            &&& -COORDINATE_LIMIT <= octaves[i].z <= COORDINATE_LIMIT
        }
}

/// Samples the octave `index` of the altitude.
fn altitude_octave(
    seed: u32,
    alpha: i64,
    beta: i64,
    octaves: &Vec<Vec3>,
    index: usize,
) -> (r: Result<
    i64,
    CartesianError,
>)
    requires
        index < ALTITUDE_OCTAVES <= octaves@.len(),
        offsets_bounded(octaves@),
    ensures
        match r {
            Ok(value) => {
                &&& 0 <= alpha <= PI
                &&& value == polar_noise_spec(
                    seed as int,
                    alpha as int,
                    beta as int,
                    altitude_radius_spec(index as int),
                    octaves@[index as int],
                )
                &&& 0 <= value <= ONE
            },
            Err(error) => (alpha < 0 || alpha > PI) && error == CartesianError::InvalidAlpha(alpha),
        },
{
    random_noise_from_polar_coordinates(seed, alpha, beta, altitude_radius(index), octaves[index])
}

/// Samples the octaves of the altitude at colatitude `alpha` and longitude
/// `beta`, round the first eleven of the given centres. A colatitude below
/// zero or above half a turn is refused.
pub fn sample_altitude_octaves(seed: u32, alpha: i64, beta: i64, octaves: &Vec<Vec3>) -> (r: Result<
    AltitudeSamples,
    CartesianError,
>)
    requires
        octaves@.len() >= ALTITUDE_OCTAVES,
        offsets_bounded(octaves@),
    ensures
        match r {
            Ok(s) => {
                &&& 0 <= alpha <= PI
                &&& s == altitude_samples_spec(seed as int, alpha as int, beta as int, octaves@)
                &&& s.wf()
            },
            Err(error) => (alpha < 0 || alpha > PI) && error == CartesianError::InvalidAlpha(alpha),
        },
{
    let ridge_a: i64 = altitude_octave(seed, alpha, beta, octaves, 0)?;
    let ridge_b: i64 = altitude_octave(seed, alpha, beta, octaves, 1)?;
    let fine_a: i64 = altitude_octave(seed, alpha, beta, octaves, 2)?;
    let fine_b: i64 = altitude_octave(seed, alpha, beta, octaves, 3)?;
    let rough_1: i64 = altitude_octave(seed, alpha, beta, octaves, 4)?;
    let rough_2: i64 = altitude_octave(seed, alpha, beta, octaves, 5)?;
    let rough_3: i64 = altitude_octave(seed, alpha, beta, octaves, 6)?;
    let rough_4: i64 = altitude_octave(seed, alpha, beta, octaves, 7)?;
    let rough_5: i64 = altitude_octave(seed, alpha, beta, octaves, 8)?;
    let strength: i64 = altitude_octave(seed, alpha, beta, octaves, 9)?;
    let shared: i64 = altitude_octave(seed, alpha, beta, octaves, 10)?;
    Ok(
        AltitudeSamples {
            ridge_a,
            ridge_b,
            fine_a,
            fine_b,
            rough_1,
            rough_2,
            rough_3,
            rough_4,
            rough_5,
            strength,
            shared,
        },
    )
}

/// Computes the factor by which an octave scales the weights of the others.
pub fn strength_of(noise: i64) -> (k: i64)
    requires
        0 <= noise <= ONE,
    ensures
        k == strength_spec(noise as int),
        250_000 <= k <= 1_750_000,
{
    proof {
        lemma_strength_bounds(noise as int);
    }
    fx_mul(noise, 1_500_000) + 250_000
}

/// Blends `a` and `b` under the weight `factor` scaled by `strength`.
fn blend(a: i64, b: i64, factor: i64, strength: i64) -> (r: i64)
    requires
        -3 * ONE <= a <= 3 * ONE,
        -3 * ONE <= b <= 3 * ONE,
        0 <= factor <= 500_000,
        250_000 <= strength <= 1_750_000,
    ensures
        r == blend_spec(a as int, b as int, factor as int, strength as int),
{
    proof {
        lemma_blend_bounds(
            a as int,
            b as int,
            factor as int,
            strength as int,
            -3 * ONE,
            3 * ONE,
        );
    }
    mix_values(a, b, fx_mul(factor, strength))
}

/// Passes noise through the ridge function of the given width factor.
pub fn mountain_range_noise_from_random_noise(noise: i64, width_factor: i64) -> (r: i64)
    requires
        0 <= noise <= ONE,
        i64::MIN + ONE < width_factor < i64::MAX - ONE,
    ensures
        r == ridge_spec(noise as int, width_factor as int),
        0 <= r <= ONE,
{
    proof {
        lemma_ridge_bounds(noise as int, width_factor as int);
        if width_factor >= 0 {
            lemma_fx_mul_shrinks(2 * noise - ONE, width_factor as int, width_factor as int);
        } else {
            lemma_fx_mul_shrinks(2 * noise - ONE, width_factor as int, -width_factor);
        }
    }
    let scaled: i64 = fx_mul(2 * noise - ONE, width_factor);
    let rise: i64 = bell(scaled - ONE);
    let fall: i64 = bell(scaled + ONE);
    floor_div(rise - fall + ONE, 2)
}

/// Computes the coast field from the field of the continents and the octaves.
fn coast(continent: i64, s: &AltitudeSamples) -> (r: i64)
    requires
        0 <= continent <= ONE,
        s.wf(),
    ensures
        r == coast_spec(continent as int, *s),
        0 <= r <= ONE,
{
    let k: i64 = strength_of(s.strength);
    proof {
        lemma_coast_bounds(continent as int, *s);
        let a1 = blend_spec(continent as int, s.rough_1 as int, 220_000, k as int);
        let a2 = blend_spec(a1, s.rough_2 as int, 150_000, k as int);
        let a3 = blend_spec(a2, s.rough_3 as int, 100_000, k as int);
        lemma_blend_bounds(continent as int, s.rough_1 as int, 220_000, k as int, 0, ONE as int);
        lemma_blend_bounds(a1, s.rough_2 as int, 150_000, k as int, 0, ONE as int);
        lemma_blend_bounds(a2, s.rough_3 as int, 100_000, k as int, 0, ONE as int);
        lemma_blend_bounds(a3, s.rough_4 as int, 30_000, k as int, 0, ONE as int);
    }
    let a1: i64 = blend(continent, s.rough_1, 220_000, k);
    let a2: i64 = blend(a1, s.rough_2, 150_000, k);
    let a3: i64 = blend(a2, s.rough_3, 100_000, k);
    let a4: i64 = blend(a3, s.rough_4, 30_000, k);
    blend(a4, s.rough_5, 5_000, k)
}

/// Computes one ridge.
fn single_ridge(first: i64, fine: i64, shared: i64, k: i64) -> (r: i64)
    requires
        0 <= first <= ONE,
        0 <= fine <= ONE,
        0 <= shared <= ONE,
        250_000 <= k <= 1_750_000,
    ensures
        r == single_ridge_spec(first as int, fine as int, shared as int, k as int),
        0 <= r <= ONE,
{
    proof {
        lemma_single_ridge_bounds(first as int, fine as int, shared as int, k as int);
    }
    let with_shared: i64 = blend(first, shared, 500_000, k);
    let with_fine: i64 = blend(with_shared, fine, 40_000, k);
    mountain_range_noise_from_random_noise(with_fine, RIDGE_WIDTH)
}

/// Computes the mountain ranges from the octaves.
fn ranges(s: &AltitudeSamples) -> (r: i64)
    requires
        s.wf(),
    ensures
        r == ranges_spec(*s),
        0 <= r <= ONE,
{
    let k: i64 = strength_of(s.strength);
    let first: i64 = single_ridge(s.ridge_a, s.fine_a, s.shared, k);
    let second: i64 = single_ridge(s.ridge_b, s.fine_b, s.shared, k);
    proof {
        lemma_ranges_bounds(*s);
        let c1 = blend_spec(first as int, second as int, 500_000, k as int);
        let c2 = blend_spec(c1, s.rough_1 as int, 350_000, k as int);
        let c3 = mix_values_spec(c2, s.rough_2 as int, 75_000);
        let c4 = mix_values_spec(c3, s.rough_3 as int, 50_000);
        lemma_blend_bounds(first as int, second as int, 500_000, k as int, 0, ONE as int);
        lemma_blend_bounds(c1, s.rough_1 as int, 350_000, k as int, 0, ONE as int);
        lemma_mix_convex(c2, s.rough_2 as int, 75_000, 0, ONE as int);
        lemma_mix_convex(c3, s.rough_3 as int, 50_000, 0, ONE as int);
        lemma_mix_convex(c4, s.rough_4 as int, 20_000, 0, ONE as int);
    }
    let c1: i64 = blend(first, second, 500_000, k);
    let c2: i64 = blend(c1, s.rough_1, 350_000, k);
    let c3: i64 = mix_values(c2, s.rough_2, 75_000);
    let c4: i64 = mix_values(c3, s.rough_3, 50_000);
    let c5: i64 = mix_values(c4, s.rough_4, 20_000);
    mix_values(c5, s.rough_5, 10_000)
}

/// Computes the raw altitude of a cell from the field of the continents at
/// the cell and the octaves there.
pub fn raw_altitude(continent: i64, s: &AltitudeSamples) -> (raw: i64)
    requires
        0 <= continent <= ONE,
        s.wf(),
    ensures
        raw == raw_altitude_spec(continent as int, *s),
        -3 * ONE <= raw <= 3 * ONE,
{
    let coast_value: i64 = coast(continent, s);
    let ranges_value: i64 = ranges(s);
    proof {
        lemma_shelf_bounds(coast_value as int, ranges_value as int);
        lemma_raw_altitude_bounds(continent as int, *s);
    }
    let target: i64 = fx_mul(coast_value, 20_000) + 490_000;
    let excess: i64 = coast_value - max_of(0, 2 * ranges_value - ONE);
    let shelf: i64 = mix_values(coast_value, target, excess);
    blend(shelf, ranges_value, 225_000, strength_of(s.strength))
}

/// Maps a raw altitude onto the range of altitudes. A raw altitude below zero
/// counts as zero, one above one as one.
pub fn calculate_altitude(raw_altitude: i64) -> (altitude: i64)
    ensures
        altitude == calculate_altitude_spec(raw_altitude as int),
        MIN_ALTITUDE <= altitude <= MAX_ALTITUDE,
{
    proof {
        lemma_calculate_altitude_bounds(raw_altitude as int);
    }
    let held: i64 = clamp(raw_altitude, 0, ONE);
    proof {
        lemma_fx_mul_unit(ALTITUDE_SPAN as int, held as int, ALTITUDE_SPAN as int);
        assert(held * ALTITUDE_SPAN == ALTITUDE_SPAN * held) by (nonlinear_arith);
    }
    MIN_ALTITUDE + fx_mul(held, ALTITUDE_SPAN)
}

} // verus!
