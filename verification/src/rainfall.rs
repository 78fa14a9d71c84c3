//! The rainfall of a cell.
//!
//! Rain falls in bands of latitude, wet at the equator and dry at the horse
//! latitudes, shifted a little by noise. Land that rises above the land
//! upwind of it catches rain; land in the lee of higher land stays dry.

use crate::altitude::{
    lemma_polar_noise_bounds, offsets_bounded, polar_noise_spec,
    random_noise_from_polar_coordinates, ALTITUDE_OCTAVES, MAX_ALTITUDE, MIN_ALTITUDE,
};
use crate::elementary::{cos, cos_spec, lemma_sin_bounds, sin, sin_spec, PI};
use crate::fixed::{
    clamp, clamp_spec, clamp_wide, floor_div, floor_mod, fx_mul, fx_mul_spec, fx_mul_wide,
    lemma_div_bounds, lemma_fx_mul_unit, lemma_mix_convex, lemma_mul_bounds,
    lemma_mul_nonneg_bounds, max_of, max_spec, mix_values, mix_values_spec, mul_div, mul_div_spec,
    ONE,
};
use crate::math_util::{lemma_fx_mul_shrinks, CartesianError};
use crate::vector::Vec3;
use vstd::prelude::*;

verus! {

/// Lowest yearly rainfall of the model.
pub const MIN_RAINFALL: i64 = 0;

/// Highest yearly rainfall of the model.
pub const MAX_RAINFALL: i64 = 13_000_000_000;

/// The difference between the highest and the lowest rainfall.
pub const RAINFALL_SPAN: i64 = 13_000_000_000;

/// The part of the highest rainfall by which the whole scale is lowered, so
/// that the driest places get no rain at all.
pub const RAINFALL_DRYNESS_FACTOR: i64 = 5_000;

/// That part as rainfall.
pub const RAINFALL_DRYNESS_OFFSET: i64 = 65_000_000;

/// The number of octaves that the rainfall takes.
pub const RAINFALL_OCTAVES: usize = 2;

/// The share of the bands of latitude in the rainfall; the rest is the
/// effect of the altitude.
pub const LATITUDE_WEIGHT: i64 = 850_000;

/// The altitudes that bear on the rainfall of a cell: its own, those of four
/// cells of its row upwind of it at rising distances, and that of one cell of
/// its column.
#[derive(Debug, Clone, Copy, PartialEq, Eq, Structural)]
pub struct Relief {
    pub own: i64,
    pub near: i64,
    pub middle: i64,
    pub far: i64,
    pub farthest: i64,
    pub across: i64,
}

impl Relief {
    /// Every altitude lies in the range of altitudes of the model.
    pub open spec fn wf(self) -> bool {
        &&& MIN_ALTITUDE <= self.own <= MAX_ALTITUDE
        &&& MIN_ALTITUDE <= self.near <= MAX_ALTITUDE
        &&& MIN_ALTITUDE <= self.middle <= MAX_ALTITUDE
        &&& MIN_ALTITUDE <= self.far <= MAX_ALTITUDE
        &&& MIN_ALTITUDE <= self.farthest <= MAX_ALTITUDE
        &&& MIN_ALTITUDE <= self.across <= MAX_ALTITUDE
    }
}

/// The latitude that the rainfall of a cell goes by: its colatitude, shifted
/// by up to a fifth of half a turn either way as two octaves of noise say.
pub open spec fn rain_latitude_spec(seed: int, alpha: int, beta: int, octaves: Seq<Vec3>) -> int {
    let broad = polar_noise_spec(seed, alpha, beta, 2_000_000, octaves[ALTITUDE_OCTAVES as int]);
    let fine = polar_noise_spec(seed, alpha, beta, 16_000_000, octaves[ALTITUDE_OCTAVES + 1]);
    alpha + fx_mul_spec(2 * mix_values_spec(broad, fine, 150_000) - ONE, 628_318)
}

/// The band of latitude: one and a half times the sine of the latitude, less
/// one half. Wet where it is high, dry where it is low.
pub open spec fn wet_band_spec(latitude: int) -> int {
    fx_mul_spec(1_500_000, sin_spec(latitude)) - 500_000
}

/// The wind: the cosine of the latitude. Its sign says from which side the
/// wind blows, its size how far upwind the land bears on the rain.
pub open spec fn wind_spec(latitude: int) -> int {
    cos_spec(latitude)
}

/// The column that lies upwind of the column `x` by the part `1 / divisor` of
/// the width, on a grid that wraps round.
pub open spec fn upwind_column_spec(x: int, width: int, wind: int, divisor: int) -> int {
    (x + (wind * width) / (divisor * ONE)) % width
}

/// The row that lies a tenth of the height from the row `y` as the wind says,
/// held to the grid.
pub open spec fn upwind_row_spec(y: int, height: int, wind: int) -> int {
    clamp_spec(y + (wind * height) / (10 * ONE), 0, height - 1)
}

/// An altitude as far as it rises above the sea.
pub open spec fn above_sea_spec(altitude: int) -> int {
    max_spec(altitude, 0)
}

/// The effect of the altitude on the rainfall: the cell's own altitude above
/// the sea, less the weighted altitudes above the sea of the cells upwind, as
/// a part of the highest altitude.
pub open spec fn altitude_modifier_spec(relief: Relief) -> int {
    let drag = fx_mul_spec(above_sea_spec(relief.near as int), 700_000) + fx_mul_spec(
        above_sea_spec(relief.middle as int),
        600_000,
    ) + fx_mul_spec(above_sea_spec(relief.far as int), 500_000) + fx_mul_spec(
        above_sea_spec(relief.farthest as int),
        400_000,
    ) + fx_mul_spec(above_sea_spec(relief.across as int), 500_000);
    mul_div_spec(above_sea_spec(relief.own as int) - drag, ONE as int, MAX_ALTITUDE as int)
}

/// A value with the contrast between its extremes raised: three parts of the
/// value and one part of its square, which keeps the value's sign.
pub open spec fn contrast_spec(value: int) -> int {
    let square = if value >= 0 {
        fx_mul_spec(value, value)
    } else {
        -fx_mul_spec(value, value)
    };
    mix_values_spec(square, value, 750_000)
}

/// The rainfall that a raw rainfall stands for: the raw value mapped linearly
/// onto the lowered scale and held to the range of rainfalls.
pub open spec fn calculate_rainfall_spec(raw_rainfall: int) -> int {
    clamp_spec(
        fx_mul_spec(raw_rainfall, RAINFALL_SPAN + RAINFALL_DRYNESS_OFFSET) + MIN_RAINFALL
            - RAINFALL_DRYNESS_OFFSET,
        0,
        MAX_RAINFALL as int,
    )
}

/// The rainfall of a cell from the latitude that its rain goes by and the
/// relief round it.
pub open spec fn rainfall_spec(latitude: int, relief: Relief) -> int {
    calculate_rainfall_spec(
        contrast_spec(
            mix_values_spec(
                altitude_modifier_spec(relief),
                wet_band_spec(latitude),
                LATITUDE_WEIGHT as int,
            ),
        ),
    )
}

/// The depth of the sea does not bear on the rain: two reliefs that agree in
/// how far each of their altitudes rises above the sea give the same
/// rainfall.
pub proof fn lemma_rain_ignores_sea_depth(latitude: int, relief: Relief, other: Relief)
    requires
        above_sea_spec(relief.own as int) == above_sea_spec(other.own as int),
        above_sea_spec(relief.near as int) == above_sea_spec(other.near as int),
        above_sea_spec(relief.middle as int) == above_sea_spec(other.middle as int),
        above_sea_spec(relief.far as int) == above_sea_spec(other.far as int),
        above_sea_spec(relief.farthest as int) == above_sea_spec(other.farthest as int),
        above_sea_spec(relief.across as int) == above_sea_spec(other.across as int),
    ensures
        rainfall_spec(latitude, relief) == rainfall_spec(latitude, other),
{
}

/// The latitude that the rain goes by lies within a fifth of half a turn of
/// the colatitude.
pub proof fn lemma_rain_latitude_bounds(seed: int, alpha: int, beta: int, octaves: Seq<Vec3>)
    ensures
        alpha - 628_318 <= rain_latitude_spec(seed, alpha, beta, octaves) <= alpha + 628_318,
{
    let broad = polar_noise_spec(seed, alpha, beta, 2_000_000, octaves[ALTITUDE_OCTAVES as int]);
    let fine = polar_noise_spec(seed, alpha, beta, 16_000_000, octaves[ALTITUDE_OCTAVES + 1]);
    lemma_polar_noise_bounds(seed, alpha, beta, 2_000_000, octaves[ALTITUDE_OCTAVES as int]);
    lemma_polar_noise_bounds(seed, alpha, beta, 16_000_000, octaves[ALTITUDE_OCTAVES + 1]);
    lemma_mix_convex(broad, fine, 150_000, 0, ONE as int);
    lemma_fx_mul_shrinks(2 * mix_values_spec(broad, fine, 150_000) - ONE, 628_318, 628_318);
}

/// The band of latitude lies between minus two and one.
pub proof fn lemma_wet_band_bounds(latitude: int)
    ensures
        -2 * ONE <= wet_band_spec(latitude) <= ONE,
{
    lemma_sin_bounds(latitude);
    lemma_mul_bounds(1_500_000, sin_spec(latitude), 1_500_000, ONE as int);
    lemma_div_bounds(1_500_000 * sin_spec(latitude), ONE as int, -1_500_000, 1_500_000);
}

/// The effect of the altitude lies between minus two and seven tenths, and
/// one.
pub proof fn lemma_altitude_modifier_bounds(relief: Relief)
    requires
        relief.wf(),
    ensures
        -2_700_000 <= altitude_modifier_spec(relief) <= ONE,
        0 <= fx_mul_spec(above_sea_spec(relief.near as int), 700_000) <= MAX_ALTITUDE,
        0 <= fx_mul_spec(above_sea_spec(relief.middle as int), 600_000) <= MAX_ALTITUDE,
        0 <= fx_mul_spec(above_sea_spec(relief.far as int), 500_000) <= MAX_ALTITUDE,
        0 <= fx_mul_spec(above_sea_spec(relief.farthest as int), 400_000) <= MAX_ALTITUDE,
        0 <= fx_mul_spec(above_sea_spec(relief.across as int), 500_000) <= MAX_ALTITUDE,
{
    let top = MAX_ALTITUDE as int;
    lemma_fx_mul_part(above_sea_spec(relief.near as int), 700_000, top);
    lemma_fx_mul_part(above_sea_spec(relief.middle as int), 600_000, top);
    lemma_fx_mul_part(above_sea_spec(relief.far as int), 500_000, top);
    lemma_fx_mul_part(above_sea_spec(relief.farthest as int), 400_000, top);
    lemma_fx_mul_part(above_sea_spec(relief.across as int), 500_000, top);
    let drag = fx_mul_spec(above_sea_spec(relief.near as int), 700_000) + fx_mul_spec(
        above_sea_spec(relief.middle as int),
        600_000,
    ) + fx_mul_spec(above_sea_spec(relief.far as int), 500_000) + fx_mul_spec(
        above_sea_spec(relief.farthest as int),
        400_000,
    ) + fx_mul_spec(above_sea_spec(relief.across as int), 500_000);
    let n = above_sea_spec(relief.own as int) - drag;
    assert(0 <= drag <= 40_500_000_000);
    assert(n * ONE <= ONE * top) by (nonlinear_arith)
        requires
            n <= top,
    ;
    assert((-2_700_000) * top <= n * ONE) by (nonlinear_arith)
        requires
            n >= -40_500_000_000,
            top == 15_000_000_000,
    ;
    lemma_div_bounds(n * ONE, top, -2_700_000, ONE as int);
}

/// A part of a number between zero and a bound: the fixed-point product of
/// the number and a fraction of at most a millionth of `parts`, which lies
/// between zero and that part of the bound.
pub proof fn lemma_fx_mul_part(value: int, parts: int, bound: int)
    requires
        0 <= value <= bound,
        0 <= parts <= ONE,
    ensures
        0 <= fx_mul_spec(value, parts) <= (bound * parts) / (ONE as int),
        fx_mul_spec(value, parts) <= bound,
{
    lemma_mul_nonneg_bounds(value, parts, bound, parts);
    lemma_fx_mul_unit(value, parts, bound);
    let p = value * parts;
    let q = bound * parts;
    assert(p / (ONE as int) <= q / (ONE as int)) by (nonlinear_arith)
        requires
            p <= q,
    ;
}

/// The contrast of a value between minus three and one lies between minus
/// nine and one.
pub proof fn lemma_contrast_bounds(value: int)
    requires
        -3 * ONE <= value <= ONE,
    ensures
        -9 * ONE <= contrast_spec(value) <= ONE,
        0 <= fx_mul_spec(value, value) <= 9 * ONE,
{
    assert(0 <= value * value <= (9 * ONE) * ONE) by (nonlinear_arith)
        requires
            -3 * ONE <= value <= ONE,
    ;
    lemma_div_bounds(value * value, ONE as int, 0, 9 * ONE);
    if value >= 0 {
        assert(value * value <= ONE * ONE) by (nonlinear_arith)
            requires
                0 <= value <= ONE,
        ;
        lemma_div_bounds(value * value, ONE as int, 0, ONE as int);
    }
    let square = if value >= 0 {
        fx_mul_spec(value, value)
    } else {
        -fx_mul_spec(value, value)
    };
    lemma_mix_convex(square, value, 750_000, -9 * ONE, ONE as int);
}

/// The raw rainfall lies between minus three and one.
pub proof fn lemma_raw_rainfall_bounds(latitude: int, relief: Relief)
    requires
        relief.wf(),
    ensures
        -3 * ONE <= mix_values_spec(
            altitude_modifier_spec(relief),
            wet_band_spec(latitude),
            LATITUDE_WEIGHT as int,
        ) <= ONE,
{
    lemma_altitude_modifier_bounds(relief);
    lemma_wet_band_bounds(latitude);
    lemma_mix_convex(
        altitude_modifier_spec(relief),
        wet_band_spec(latitude),
        LATITUDE_WEIGHT as int,
        -3 * ONE,
        ONE as int,
    );
}

/// Computes the latitude that the rainfall of a cell goes by. A colatitude
/// below zero or above half a turn is refused.
pub fn rain_latitude(seed: u32, alpha: i64, beta: i64, octaves: &Vec<Vec3>) -> (r: Result<
    i64,
    CartesianError,
>)
    requires
        octaves@.len() >= ALTITUDE_OCTAVES + RAINFALL_OCTAVES,
        offsets_bounded(octaves@),
    ensures
        match r {
            Ok(latitude) => {
                &&& 0 <= alpha <= PI
                &&& latitude == rain_latitude_spec(seed as int, alpha as int, beta as int, octaves@)
                &&& -628_318 <= latitude <= PI + 628_318
            },
            Err(error) => (alpha < 0 || alpha > PI) && error == CartesianError::InvalidAlpha(alpha),
        },
{
    proof {
        lemma_rain_latitude_bounds(seed as int, alpha as int, beta as int, octaves@);
    }
    let broad: i64 = random_noise_from_polar_coordinates(
        seed,
        alpha,
        beta,
        2_000_000,
        octaves[ALTITUDE_OCTAVES],
    )?;
    let fine: i64 = random_noise_from_polar_coordinates(
        seed,
        alpha,
        beta,
        16_000_000,
        octaves[ALTITUDE_OCTAVES + 1],
    )?;
    proof {
        lemma_mix_convex(broad as int, fine as int, 150_000, 0, ONE as int);
        lemma_fx_mul_shrinks(
            2 * mix_values_spec(broad as int, fine as int, 150_000) - ONE,
            628_318,
            628_318,
        );
    }
    let shift: i64 = fx_mul(2 * mix_values(broad, fine, 150_000) - ONE, 628_318);
    Ok(alpha + shift)
}

/// Computes the band of latitude.
pub fn wet_band(latitude: i64) -> (band: i64)
    ensures
        band == wet_band_spec(latitude as int),
        -2 * ONE <= band <= ONE,
{
    proof {
        lemma_wet_band_bounds(latitude as int);
        lemma_sin_bounds(latitude as int);
        lemma_mul_bounds(1_500_000, sin_spec(latitude as int), 1_500_000, ONE as int);
        lemma_div_bounds(1_500_000 * sin_spec(latitude as int), ONE as int, -1_500_000, 1_500_000);
    }
    fx_mul(1_500_000, sin(latitude)) - 500_000
}

/// Computes the wind.
pub fn wind(latitude: i64) -> (r: i64)
    ensures
        r == wind_spec(latitude as int),
        -ONE <= r <= ONE,
{
    cos(latitude)
}

/// Computes the column that lies upwind of a column by a part of the width.
pub fn upwind_column(x: usize, width: u32, wind: i64, divisor: i64) -> (column: usize)
    requires
        x < width,
        -ONE <= wind <= ONE,
        0 < divisor <= i64::MAX / ONE,
    ensures
        column == upwind_column_spec(x as int, width as int, wind as int, divisor as int),
        column < width,
{
    proof {
        lemma_mul_bounds(wind as int, width as int, ONE as int, 0x1_0000_0000);
        assert(ONE * 0x1_0000_0000 == 4_294_967_296_000_000) by (nonlinear_arith);
        let n = wind * width;
        let d = divisor * ONE;
        assert((-4_294_967_296_000_000) * d <= n && n <= 4_294_967_296_000_000 * d)
            by (nonlinear_arith)
            requires
                -4_294_967_296_000_000 <= n <= 4_294_967_296_000_000,
                d >= 1,
        ;
        lemma_div_bounds(n, d, -4_294_967_296_000_000, 4_294_967_296_000_000);
    }
    let shift: i64 = floor_div(wind * (width as i64), divisor * ONE);
    floor_mod((x as i64) + shift, width as i64) as usize
}

/// Computes the row that lies a tenth of the height from a row as the wind
/// says.
pub fn upwind_row(y: usize, height: u32, wind: i64) -> (row: usize)
    requires
        y < height,
        -ONE <= wind <= ONE,
    ensures
        row == upwind_row_spec(y as int, height as int, wind as int),
        row < height,
{
    proof {
        lemma_mul_bounds(wind as int, height as int, ONE as int, 0x1_0000_0000);
        assert(ONE * 0x1_0000_0000 == 4_294_967_296_000_000) by (nonlinear_arith);
        let n = wind * height;
        lemma_div_bounds(n, 10 * ONE, -4_294_967_296_000_000, 4_294_967_296_000_000);
    }
    let shift: i64 = floor_div(wind * (height as i64), 10 * ONE);
    clamp((y as i64) + shift, 0, (height as i64) - 1) as usize
}

/// Computes the effect of the altitude on the rainfall.
pub fn altitude_modifier(relief: &Relief) -> (modifier: i64)
    requires
        relief.wf(),
    ensures
        modifier == altitude_modifier_spec(*relief),
        -2_700_000 <= modifier <= ONE,
{
    proof {
        lemma_altitude_modifier_bounds(*relief);
    }
    let drag: i64 = fx_mul(max_of(relief.near, 0), 700_000) + fx_mul(max_of(relief.middle, 0), 600_000)
        + fx_mul(max_of(relief.far, 0), 500_000) + fx_mul(max_of(relief.farthest, 0), 400_000)
        + fx_mul(max_of(relief.across, 0), 500_000);
    mul_div(max_of(relief.own, 0) - drag, ONE, MAX_ALTITUDE)
}

/// Raises the contrast between the extremes of a value.
pub fn contrast(value: i64) -> (r: i64)
    requires
        -3 * ONE <= value <= ONE,
    ensures
        r == contrast_spec(value as int),
        -9 * ONE <= r <= ONE,
{
    proof {
        lemma_contrast_bounds(value as int);
    }
    let magnitude: i64 = fx_mul(value, value);
    let square: i64 = if value >= 0 {
        magnitude
    } else {
        -magnitude
    };
    mix_values(square, value, 750_000)
}

/// Maps a raw rainfall onto the range of rainfalls. What falls below nothing
/// counts as nothing, what rises above the highest rainfall as the highest.
pub fn calculate_rainfall(raw_rainfall: i64) -> (rainfall: i64)
    ensures
        rainfall == calculate_rainfall_spec(raw_rainfall as int),
        0 <= rainfall <= MAX_RAINFALL,
{
    let scaled: i128 = fx_mul_wide(raw_rainfall, RAINFALL_SPAN + RAINFALL_DRYNESS_OFFSET);
    clamp_wide(
        scaled + (MIN_RAINFALL as i128) - (RAINFALL_DRYNESS_OFFSET as i128),
        0,
        MAX_RAINFALL,
    )
}

/// Computes the rainfall of a cell from the latitude that its rain goes by
/// and the relief round it.
pub fn rainfall_of(latitude: i64, relief: &Relief) -> (rainfall: i64)
    requires
        relief.wf(),
    ensures
        rainfall == rainfall_spec(latitude as int, *relief),
        0 <= rainfall <= MAX_RAINFALL,
{
    proof {
        lemma_raw_rainfall_bounds(latitude as int, *relief);
    }
    let raw: i64 = mix_values(altitude_modifier(relief), wet_band(latitude), LATITUDE_WEIGHT);
    calculate_rainfall(contrast(raw))
}

} // verus!
