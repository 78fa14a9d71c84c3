//! The temperature of a cell.
//!
//! It is warm at the equator and cold at the poles, a little warmer or colder
//! as two octaves of noise say, and colder the higher the land rises above
//! the sea.

use crate::altitude::{
    offsets_bounded, polar_noise_spec, random_noise_from_polar_coordinates, ALTITUDE_OCTAVES,
    MAX_ALTITUDE, MIN_ALTITUDE,
};
use crate::elementary::{sin, sin_spec, PI};
use crate::fixed::{
    clamp_spec, clamp_wide, fx_mul, fx_mul_spec, fx_mul_wide, lemma_div_bounds, lemma_mul_bounds,
    max_of, max_spec, mul_div, mul_div_spec, ONE,
};
use crate::math_util::CartesianError;
use crate::rainfall::RAINFALL_OCTAVES;
use crate::vector::Vec3;
use vstd::prelude::*;

verus! {

/// Lowest temperature of the model.
pub const MIN_TEMPERATURE: i64 = -35_000_000;

/// Highest temperature of the model.
pub const MAX_TEMPERATURE: i64 = 30_000_000;

/// The difference between the highest and the lowest temperature.
pub const TEMPERATURE_SPAN: i64 = 65_000_000;

/// How much of the scale of temperatures the highest altitude costs.
pub const TEMPERATURE_ALTITUDE_FACTOR: i64 = 2_050_000;

/// The number of octaves that the temperature takes.
pub const TEMPERATURE_OCTAVES: usize = 2;

/// The number of octaves of a world: those of the altitude, then those of the
/// rainfall, then those of the temperature.
pub const TOTAL_OCTAVES: usize = ALTITUDE_OCTAVES + RAINFALL_OCTAVES + TEMPERATURE_OCTAVES;

/// The latitude that the temperature of a cell goes by: nine parts of its
/// colatitude and one part of half a turn scaled by the mean of two octaves
/// of noise.
pub open spec fn heat_latitude_spec(seed: int, alpha: int, beta: int, octaves: Seq<Vec3>) -> int {
    let broad = polar_noise_spec(
        seed,
        alpha,
        beta,
        2_000_000,
        octaves[ALTITUDE_OCTAVES + RAINFALL_OCTAVES],
    );
    let fine = polar_noise_spec(
        seed,
        alpha,
        beta,
        16_000_000,
        octaves[ALTITUDE_OCTAVES + RAINFALL_OCTAVES + 1],
    );
    fx_mul_spec(alpha, 900_000) + fx_mul_spec(broad + fine, 157_079)
}

/// What the altitude takes from the temperature: nothing at sea level and
/// below, and above it the altitude's part of the highest altitude, times the
/// altitude factor.
pub open spec fn altitude_cooling_spec(altitude: int) -> int {
    max_spec(0, mul_div_spec(altitude, TEMPERATURE_ALTITUDE_FACTOR as int, MAX_ALTITUDE as int))
}

/// The temperature that a raw temperature stands for: the raw value mapped
/// linearly onto the range of temperatures and held to it.
pub open spec fn calculate_temperature_spec(raw_temperature: int) -> int {
    clamp_spec(
        fx_mul_spec(raw_temperature, TEMPERATURE_SPAN as int) + MIN_TEMPERATURE,
        MIN_TEMPERATURE as int,
        MAX_TEMPERATURE as int,
    )
}

/// The temperature of a cell from the latitude that its temperature goes by
/// and its altitude.
pub open spec fn temperature_spec(latitude: int, altitude: int) -> int {
    calculate_temperature_spec(sin_spec(latitude) - altitude_cooling_spec(altitude))
}

/// The altitude only cools: of two altitudes under one latitude the higher is
/// no warmer, and at sea level and below the altitude does not bear on the
/// temperature.
pub proof fn lemma_altitude_only_cools(latitude: int, lower: int, higher: int)
    requires
        lower <= higher,
    ensures
        temperature_spec(latitude, lower) >= temperature_spec(latitude, higher),
        higher <= 0 ==> temperature_spec(latitude, lower) == temperature_spec(latitude, higher),
{
    let factor = TEMPERATURE_ALTITUDE_FACTOR as int;
    let top = MAX_ALTITUDE as int;
    assert(lower * factor <= higher * factor) by (nonlinear_arith)
        requires
            lower <= higher,
            factor >= 0,
    ;
    vstd::arithmetic::div_mod::lemma_div_is_ordered(lower * factor, higher * factor, top);
    if higher <= 0 {
        assert(higher * factor <= 0) by (nonlinear_arith)
            requires
                higher <= 0,
                factor >= 0,
        ;
        vstd::arithmetic::div_mod::lemma_div_is_ordered(higher * factor, 0, top);
    }
    let warm = sin_spec(latitude) - altitude_cooling_spec(lower);
    let cold = sin_spec(latitude) - altitude_cooling_spec(higher);
    assert(cold * TEMPERATURE_SPAN <= warm * TEMPERATURE_SPAN) by (nonlinear_arith)
        requires
            cold <= warm,
    ;
    vstd::arithmetic::div_mod::lemma_div_is_ordered(
        cold * TEMPERATURE_SPAN,
        warm * TEMPERATURE_SPAN,
        ONE as int,
    );
}

/// The two parts of the latitude that the temperature goes by, each within
/// its bounds.
pub proof fn lemma_shift_bounds(alpha: int, noise: int)
    requires
        0 <= alpha <= PI,
        0 <= noise <= 2 * ONE,
    ensures
        0 <= fx_mul_spec(alpha, 900_000) <= 2_827_433,
        0 <= fx_mul_spec(noise, 157_079) <= 314_158,
{
    assert(0 <= alpha * 900_000 <= 2_827_432_800_000) by (nonlinear_arith)
        requires
            0 <= alpha <= 3_141_592,
    ;
    lemma_div_bounds(alpha * 900_000, ONE as int, 0, 2_827_433);
    assert(0 <= noise * 157_079 <= 314_158 * ONE) by (nonlinear_arith)
        requires
            0 <= noise <= 2_000_000,
    ;
    lemma_div_bounds(noise * 157_079, ONE as int, 0, 314_158);
}

/// The cooling lies between nothing and the altitude factor for altitudes of
/// the model.
pub proof fn lemma_altitude_cooling_bounds(altitude: int)
    requires
        MIN_ALTITUDE <= altitude <= MAX_ALTITUDE,
    ensures
        0 <= altitude_cooling_spec(altitude) <= TEMPERATURE_ALTITUDE_FACTOR,
        -TEMPERATURE_ALTITUDE_FACTOR <= mul_div_spec(
            altitude,
            TEMPERATURE_ALTITUDE_FACTOR as int,
            MAX_ALTITUDE as int,
        ) <= TEMPERATURE_ALTITUDE_FACTOR,
{
    let top = MAX_ALTITUDE as int;
    let factor = TEMPERATURE_ALTITUDE_FACTOR as int;
    lemma_mul_bounds(altitude, factor, top, factor);
    assert(top * factor == factor * top) by (nonlinear_arith);
    assert(-(top * factor) == (-factor) * top) by (nonlinear_arith);
    lemma_div_bounds(altitude * factor, top, -factor, factor);
}

/// Computes the latitude that the temperature of a cell goes by. A colatitude
/// below zero or above half a turn is refused.
pub fn heat_latitude(seed: u32, alpha: i64, beta: i64, octaves: &Vec<Vec3>) -> (r: Result<
    i64,
    CartesianError,
>)
    requires
        octaves@.len() >= TOTAL_OCTAVES,
        offsets_bounded(octaves@),
    ensures
        match r {
            Ok(latitude) => {
                &&& 0 <= alpha <= PI
                &&& latitude == heat_latitude_spec(seed as int, alpha as int, beta as int, octaves@)
                &&& 0 <= latitude <= PI
            },
            Err(error) => (alpha < 0 || alpha > PI) && error == CartesianError::InvalidAlpha(alpha),
        },
{
    let broad: i64 = random_noise_from_polar_coordinates(
        seed,
        alpha,
        beta,
        2_000_000,
        octaves[ALTITUDE_OCTAVES + RAINFALL_OCTAVES],
    )?;
    let fine: i64 = random_noise_from_polar_coordinates(
        seed,
        alpha,
        beta,
        16_000_000,
        octaves[ALTITUDE_OCTAVES + RAINFALL_OCTAVES + 1],
    )?;
    proof {
        lemma_shift_bounds(alpha as int, broad + fine);
    }
    Ok(fx_mul(alpha, 900_000) + fx_mul(broad + fine, 157_079))
}

/// Computes what the altitude takes from the temperature.
pub fn altitude_cooling(altitude: i64) -> (cooling: i64)
    requires
        MIN_ALTITUDE <= altitude <= MAX_ALTITUDE,
    ensures
        cooling == altitude_cooling_spec(altitude as int),
        0 <= cooling <= TEMPERATURE_ALTITUDE_FACTOR,
{
    proof {
        lemma_altitude_cooling_bounds(altitude as int);
    }
    max_of(0, mul_div(altitude, TEMPERATURE_ALTITUDE_FACTOR, MAX_ALTITUDE))
}

/// Maps a raw temperature onto the range of temperatures. What falls below
/// the lowest temperature counts as the lowest, what rises above the highest
/// as the highest.
pub fn calculate_temperature(raw_temperature: i64) -> (temperature: i64)
    ensures
        temperature == calculate_temperature_spec(raw_temperature as int),
        MIN_TEMPERATURE <= temperature <= MAX_TEMPERATURE,
{
    let scaled: i128 = fx_mul_wide(raw_temperature, TEMPERATURE_SPAN);
    clamp_wide(scaled + (MIN_TEMPERATURE as i128), MIN_TEMPERATURE, MAX_TEMPERATURE)
}

/// Computes the temperature of a cell from the latitude that its temperature
/// goes by and its altitude.
pub fn temperature_of(latitude: i64, altitude: i64) -> (temperature: i64)
    requires
        MIN_ALTITUDE <= altitude <= MAX_ALTITUDE,
    ensures
        temperature == temperature_spec(latitude as int, altitude as int),
        MIN_TEMPERATURE <= temperature <= MAX_TEMPERATURE,
{
    calculate_temperature(sin(latitude) - altitude_cooling(altitude))
}

} // verus!
