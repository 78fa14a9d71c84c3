//! The layout of the continents and the field that they span.
//!
//! Continents are placed by a guided random walk along the longitude. Each is
//! an ellipse round its centre; its field is one at the centre and falls off
//! to zero with the distance, which knows that the grid wraps round in x and
//! that the cells of a row lie closer together towards the poles.

use crate::elementary::{isqrt, lemma_sin_nonneg, lemma_sqrt_below, sin, sin_spec, sqrt_spec, PI};
use crate::fixed::{
    abs_diff, abs_diff_spec, clamp, clamp_spec, floor_div, floor_mod, fx_mul, fx_mul_spec,
    lemma_div_bounds, lemma_div_shrinks, lemma_fx_mul_unit, lemma_mix_convex,
    lemma_mul_nonneg_bounds, max_of, max_spec, min_of, min_spec, mix_values, mix_values_spec, ONE,
};
use crate::random::draw_in_range;
use crate::vector::Vec2;
use rand::rngs::StdRng;
use vstd::prelude::*;

verus! {

/// The number of continents of a world.
pub const NUM_CONTINENTS: usize = 12;

/// Smallest radius factor of a continent, before the shared widening.
pub const CONTINENT_MIN_SIZE_FACTOR: i64 = 5_700_000;

/// Upper end of the radius factors of a continent, before the shared widening.
pub const CONTINENT_MAX_SIZE_FACTOR: i64 = 8_700_000;

/// Upper end of the widening that the two radius factors of a continent share.
pub const CONTINENT_WIDENING: i64 = 6_000_000;

/// The part of the width by which the walk along the longitude is measured.
pub const LONGITUDE_FACTOR: i64 = 15;

/// The part of the height that is kept free of continents at each pole.
pub const LATITUDE_FACTOR: i64 = 6;

/// How far from zero the coordinates of a centre may lie for the distance to
/// it to be computed.
pub const CENTRE_REACH: i64 = 0x20_0000_0000_0000;

/// Largest radius factor under which a distance can be computed.
pub const SIZE_REACH: i64 = 256_000_000;

/// One continent: where its centre lies on the grid and how fast its field
/// falls off along x and along y.
#[derive(Debug, Clone, Copy, PartialEq, Eq, Structural)]
pub struct Continent {
    pub offset: Vec2,
    pub size: Vec2,
}

/// The lower end of the band of latitudes in which continents lie.
pub open spec fn band_low_spec(height: int) -> int {
    (height * ONE) / (LATITUDE_FACTOR as int)
}

/// The upper end of that band, which lies outside it.
pub open spec fn band_high_spec(height: int) -> int {
    (height * ONE * (LATITUDE_FACTOR - 1)) / (LATITUDE_FACTOR as int)
}

impl Continent {
    /// Whether both radius factors lie in the configured range, widened by
    /// `widening`.
    pub open spec fn sized_under(self, widening: int) -> bool {
        &&& 0 <= widening < CONTINENT_WIDENING
        &&& CONTINENT_MIN_SIZE_FACTOR + widening <= self.size.x < CONTINENT_MAX_SIZE_FACTOR
            + widening
        &&& CONTINENT_MIN_SIZE_FACTOR + widening <= self.size.y < CONTINENT_MAX_SIZE_FACTOR
            + widening
    }

    /// The centre lies on the grid, away from the poles, and the two radius
    /// factors lie in the configured range under one widening that they
    /// share.
    pub open spec fn wf(self, width: int, height: int) -> bool {
        &&& 0 <= self.offset.x < width * ONE
        &&& band_low_spec(height) <= self.offset.y < band_high_spec(height)
        &&& exists|widening: int| #[trigger] self.sized_under(widening)
    }

    /// The centre and the radius factors are small enough for the distance
    /// to the continent to be computed within the machine's numbers.
    pub open spec fn in_reach(self) -> bool {
        &&& -CENTRE_REACH <= self.offset.x <= CENTRE_REACH
        &&& -CENTRE_REACH <= self.offset.y <= CENTRE_REACH
        &&& 0 <= self.size.x <= SIZE_REACH
        &&& 0 <= self.size.y <= SIZE_REACH
    }
}

/// Whether the list holds the configured number of continents, each well
/// formed for a grid of the given size.
pub open spec fn continents_wf(continents: Seq<Continent>, width: int, height: int) -> bool {
    &&& continents.len() == NUM_CONTINENTS
    &&& forall|i: int| 0 <= i < continents.len() ==> (#[trigger] continents[i]).wf(width, height)
}

/// Whether every continent of the list is in reach.
pub open spec fn continents_in_reach(continents: Seq<Continent>) -> bool {
    forall|i: int| 0 <= i < continents.len() ==> (#[trigger] continents[i]).in_reach()
}

/// A continent that is well formed for a grid is in reach.
pub proof fn lemma_wf_in_reach(continent: Continent, width: int, height: int)
    requires
        0 < width <= u32::MAX,
        0 < height <= u32::MAX,
        continent.wf(width, height),
    ensures
        continent.in_reach(),
{
    lemma_div_bounds(height * ONE, LATITUDE_FACTOR as int, 0, height * ONE);
    lemma_div_bounds(
        height * ONE * (LATITUDE_FACTOR - 1),
        LATITUDE_FACTOR as int,
        0,
        height * ONE,
    );
    let widening = choose|widening: int| #[trigger] continent.sized_under(widening);
    assert(continent.sized_under(widening));
}

/// The colatitude of the row `y` of a grid of the given height.
pub open spec fn colatitude_spec(y: int, height: int) -> int {
    (y * PI) / height
}

/// The distance, along x, from the column `x` to a centre at `centre_x` on a
/// grid of the given width that wraps round: the least of the direct distance
/// and the two distances to the centre moved by one width either way.
pub open spec fn wrapped_distance_spec(centre_x: int, x: int, width: int) -> int {
    let column = x * ONE;
    let span = width * ONE;
    min_spec(
        min_spec(abs_diff_spec(centre_x, column), abs_diff_spec(span + centre_x, column)),
        abs_diff_spec(centre_x, column + span),
    )
}

/// The distance from the cell `(x, y)` to the centre of a continent, in the
/// continent's own measure: the wrapped distance along x, shortened by the
/// sine of the colatitude, and the distance along y, each scaled by the
/// continent's radius factor, combined by the Euclidean norm.
pub open spec fn continent_distance_spec(
    continent: Continent,
    width: int,
    height: int,
    x: int,
    y: int,
) -> int {
    let along_x = fx_mul_spec(
        wrapped_distance_spec(continent.offset.x as int, x, width),
        sin_spec(colatitude_spec(y, height)),
    );
    let along_y = abs_diff_spec(continent.offset.y as int, y * ONE);
    let a = fx_mul_spec(along_x, continent.size.x as int);
    let b = fx_mul_spec(along_y, continent.size.y as int);
    sqrt_spec(a * a + b * b)
}

/// The field of one continent at the cell `(x, y)`: one at the centre, zero
/// from the distance of one width on.
pub open spec fn continent_value_spec(
    continent: Continent,
    width: int,
    height: int,
    x: int,
    y: int,
) -> int {
    clamp_spec(ONE - continent_distance_spec(continent, width, height, x, y) / width, 0, ONE as int)
}

/// The field of the continents seen so far, `sofar`, joined with the field
/// `value` of one more: the larger of the two, drawn towards the smaller by
/// twice the smaller as weight, capped at one.
pub open spec fn join_fields_spec(sofar: int, value: int) -> int {
    let larger = max_spec(sofar, value);
    let smaller = min_spec(sofar, value);
    mix_values_spec(larger, smaller, min_spec(2 * smaller, ONE as int))
}

/// The joint field of the first `count` continents at the cell `(x, y)`.
pub open spec fn continent_modifier_spec(
    continents: Seq<Continent>,
    count: nat,
    width: int,
    height: int,
    x: int,
    y: int,
) -> int
    decreases count,
{
    if count == 0 {
        0
    } else {
        join_fields_spec(
            continent_modifier_spec(continents, (count - 1) as nat, width, height, x, y),
            continent_value_spec(continents[count - 1], width, height, x, y),
        )
    }
}

/// The colatitude of a row of the grid lies between zero and half a turn.
pub proof fn lemma_colatitude_bounds(y: int, height: int)
    requires
        0 <= y < height,
    ensures
        0 <= colatitude_spec(y, height) <= PI,
        0 <= y * PI <= height * PI,
{
    assert(0 <= y * PI <= height * PI) by (nonlinear_arith)
        requires
            0 <= y < height,
    ;
    assert(PI * height == height * PI) by (nonlinear_arith);
    lemma_div_bounds(y * PI, height, 0, PI as int);
}

/// Two fields between zero and one join to a field between zero and one.
pub proof fn lemma_join_fields_bounds(sofar: int, value: int)
    requires
        0 <= sofar <= ONE,
        0 <= value <= ONE,
    ensures
        0 <= join_fields_spec(sofar, value) <= ONE,
{
    let larger = max_spec(sofar, value);
    let smaller = min_spec(sofar, value);
    lemma_mix_convex(larger, smaller, min_spec(2 * smaller, ONE as int), 0, ONE as int);
}

/// Computes the colatitude of a row of the grid.
pub fn colatitude(y: usize, height: u32) -> (alpha: i64)
    requires
        y < height,
    ensures
        alpha == colatitude_spec(y as int, height as int),
        0 <= alpha <= PI,
{
    proof {
        lemma_colatitude_bounds(y as int, height as int);
    }
    floor_div((y as i64) * PI, height as i64)
}

/// Computes the wrapped distance along x from a column to a centre.
fn wrapped_distance(centre_x: i64, x: usize, width: u32) -> (distance: i64)
    requires
        -CENTRE_REACH <= centre_x <= CENTRE_REACH,
        x < width,
    ensures
        distance == wrapped_distance_spec(centre_x as int, x as int, width as int),
        0 <= distance <= 0x40_0000_0000_0000,
{
    let column: i64 = (x as i64) * ONE;
    let span: i64 = (width as i64) * ONE;
    assert(0 <= column < span <= 4_294_967_295_000_000);
    let direct: i64 = abs_diff(centre_x, column);
    let from_above: i64 = abs_diff(span + centre_x, column);
    let from_below: i64 = abs_diff(centre_x, column + span);
    min_of(min_of(direct, from_above), from_below)
}

/// Computes the distance from a cell to the centre of a continent, in the
/// continent's own measure.
pub fn continent_distance(
    continent: &Continent,
    width: u32,
    height: u32,
    x: usize,
    y: usize,
) -> (distance: i64)
    requires
        continent.in_reach(),
        x < width,
        y < height,
    ensures
        distance == continent_distance_spec(
            *continent,
            width as int,
            height as int,
            x as int,
            y as int,
        ),
        0 <= distance,
{
    let alpha: i64 = colatitude(y, height);
    proof {
        lemma_sin_nonneg(alpha as int);
    }
    let beta_factor: i64 = sin(alpha);
    let reach: i64 = wrapped_distance(continent.offset.x, x, width);
    proof {
        lemma_fx_mul_unit(reach as int, beta_factor as int, 0x40_0000_0000_0000);
    }
    let along_x: i64 = fx_mul(reach, beta_factor);
    let row: i64 = (y as i64) * ONE;
    assert(0 <= row <= 4_294_967_295_000_000);
    let along_y: i64 = abs_diff(continent.offset.y, row);
    proof {
        let limit: int = 0x40_0000_0000_0000;
        let scaled: int = 0x4000_0000_0000_0000;
        lemma_mul_nonneg_bounds(along_x as int, continent.size.x as int, limit, SIZE_REACH as int);
        lemma_mul_nonneg_bounds(along_y as int, continent.size.y as int, limit, SIZE_REACH as int);
        assert(limit * SIZE_REACH <= scaled * ONE) by (nonlinear_arith)
            requires
                limit == 0x40_0000_0000_0000,
                scaled == 0x4000_0000_0000_0000,
        ;
        lemma_div_bounds(along_x * continent.size.x, ONE as int, 0, scaled);
        lemma_div_bounds(along_y * continent.size.y, ONE as int, 0, scaled);
    }
    let a: i64 = fx_mul(along_x, continent.size.x);
    let b: i64 = fx_mul(along_y, continent.size.y);
    proof {
        lemma_mul_nonneg_bounds(
            a as int,
            a as int,
            0x4000_0000_0000_0000,
            0x4000_0000_0000_0000,
        );
        lemma_mul_nonneg_bounds(
            b as int,
            b as int,
            0x4000_0000_0000_0000,
            0x4000_0000_0000_0000,
        );
        assert(0x4000_0000_0000_0000 * 0x4000_0000_0000_0000 * 2 < 0x8000_0000_0000_0000
            * 0x8000_0000_0000_0000) by (nonlinear_arith);
        assert(0x8000_0000_0000_0000 * 0x8000_0000_0000_0000 <= u128::MAX) by (nonlinear_arith);
    }
    let square: u128 = (a as u128) * (a as u128) + (b as u128) * (b as u128);
    let root: u64 = isqrt(square);
    proof {
        lemma_sqrt_below(square as int, root as int, 0x8000_0000_0000_0000);
    }
    root as i64
}

/// Computes the field of one continent at a cell.
pub fn continent_value(
    continent: &Continent,
    width: u32,
    height: u32,
    x: usize,
    y: usize,
) -> (value: i64)
    requires
        continent.in_reach(),
        x < width,
        y < height,
    ensures
        value == continent_value_spec(
            *continent,
            width as int,
            height as int,
            x as int,
            y as int,
        ),
        0 <= value <= ONE,
{
    let distance: i64 = continent_distance(continent, width, height, x, y);
    proof {
        lemma_div_shrinks(distance as int, width as int);
    }
    clamp(ONE - floor_div(distance, width as i64), 0, ONE)
}

/// Joins the field of the continents seen so far with the field of one more.
pub fn join_fields(sofar: i64, value: i64) -> (joined: i64)
    requires
        0 <= sofar <= ONE,
        0 <= value <= ONE,
    ensures
        joined == join_fields_spec(sofar as int, value as int),
        0 <= joined <= ONE,
{
    proof {
        lemma_join_fields_bounds(sofar as int, value as int);
    }
    let larger: i64 = max_of(sofar, value);
    let smaller: i64 = min_of(sofar, value);
    mix_values(larger, smaller, min_of(2 * smaller, ONE))
}

/// Computes the joint field of the continents at a cell: near one close to a
/// centre, zero far from all of them.
pub fn continent_modifier(
    continents: &Vec<Continent>,
    width: u32,
    height: u32,
    x: usize,
    y: usize,
) -> (value: i64)
    requires
        continents_in_reach(continents@),
        x < width,
        y < height,
    ensures
        value == continent_modifier_spec(
            continents@,
            continents@.len(),
            width as int,
            height as int,
            x as int,
            y as int,
        ),
        0 <= value <= ONE,
{
    let mut joined: i64 = 0;
    let mut index: usize = 0;
    while index < continents.len()
        invariant
            index <= continents@.len(),
            continents_in_reach(continents@),
            x < width,
            y < height,
            joined == continent_modifier_spec(
                continents@,
                index as nat,
                width as int,
                height as int,
                x as int,
                y as int,
            ),
            0 <= joined <= ONE,
        decreases continents@.len() - index,
    {
        let value: i64 = continent_value(&continents[index], width, height, x, y);
        joined = join_fields(joined, value);
        index = index + 1;
    }
    joined
}

/// The lower end of the range from which the step forward after the
/// continent `index` is drawn: a fifteenth of the width, and four fifteenths
/// after every third continent, where the walk crosses an ocean.
pub open spec fn step_low_spec(index: int, width: int) -> int {
    if index % 3 == 2 {
        (width * ONE * 4) / (LONGITUDE_FACTOR as int)
    } else {
        (width * ONE) / (LONGITUDE_FACTOR as int)
    }
}

/// The upper end of that range, which lies outside it: two fifteenths of the
/// width, and six fifteenths after every third continent.
pub open spec fn step_high_spec(index: int, width: int) -> int {
    if index % 3 == 2 {
        (width * ONE * 6) / (LONGITUDE_FACTOR as int)
    } else {
        (width * ONE * 2) / (LONGITUDE_FACTOR as int)
    }
}

/// The longitude reached from `previous` by a step forward on a grid that
/// wraps round.
pub open spec fn next_longitude_spec(previous: int, step: int, width: int) -> int {
    (previous + step) % (width * ONE)
}

/// Whether the longitude `next` can follow the longitude `previous` of the
/// continent `index` in the walk: some step of the range for that continent
/// leads from the one to the other.
pub open spec fn follows_in_walk(previous: int, next: int, index: int, width: int) -> bool {
    exists|step: int|
        step_low_spec(index, width) <= step < step_high_spec(index, width) && next
            == #[trigger] next_longitude_spec(previous, step, width)
}

/// The upper end, which lies outside it, of the range from which the
/// longitude of the first centre is drawn: fourteen fifteenths of the width.
pub open spec fn start_high_spec(width: int) -> int {
    (width * ONE * (LONGITUDE_FACTOR - 1)) / (LONGITUDE_FACTOR as int)
}

/// Whether the longitudes of the continents form a walk: the first lies below
/// fourteen fifteenths of the width, and each of the others follows the one
/// before it.
pub open spec fn is_walk(continents: Seq<Continent>, width: int) -> bool {
    &&& continents.len() > 0 ==> 0 <= continents[0].offset.x < start_high_spec(width)
    &&& forall|i: int|
        1 <= i < continents.len() ==> follows_in_walk(
            continents[i - 1].offset.x as int,
            (#[trigger] continents[i]).offset.x as int,
            i - 1,
            width,
        )
}

/// Computes the range from which the step forward after the continent
/// `index` is drawn, as its lower end and the upper end outside it.
pub fn step_range(index: usize, width: u32) -> (range: (i64, i64))
    requires
        width > 0,
    ensures
        range.0 == step_low_spec(index as int, width as int),
        range.1 == step_high_spec(index as int, width as int),
        0 <= range.0 < range.1 <= width * ONE,
{
    let span: i64 = (width as i64) * ONE;
    assert(0 < span <= 4_294_967_295_000_000);
    if index % 3 == 2 {
        (span * 4 / LONGITUDE_FACTOR, span * 6 / LONGITUDE_FACTOR)
    } else {
        (span / LONGITUDE_FACTOR, span * 2 / LONGITUDE_FACTOR)
    }
}

/// Computes the longitude reached from `previous` by a step forward.
pub fn next_longitude(previous: i64, step: i64, width: u32) -> (next: i64)
    requires
        width > 0,
        0 <= previous < width * ONE,
        0 <= step <= width * ONE,
    ensures
        next == next_longitude_spec(previous as int, step as int, width as int),
        0 <= next < width * ONE,
{
    floor_mod(previous + step, (width as i64) * ONE)
}

/// Places the continents of a world by a random walk along the longitude.
///
/// The draws, in their order: the longitude and the latitude of the first
/// centre; then for each continent the widening of its radius factors, its
/// radius factor along x, its radius factor along y, the latitude of the next
/// centre and the step forward to the longitude of the next centre. The
/// latitudes are drawn from the band that leaves out a sixth of the height at
/// each pole.
pub fn generate_continents(rng: &mut StdRng, width: u32, height: u32) -> (continents: Vec<
    Continent,
>)
    requires
        width > 0,
        height > 0,
    ensures
        continents_wf(continents@, width as int, height as int),
        is_walk(continents@, width as int),
{
    let span: i64 = (width as i64) * ONE;
    let rows: i64 = (height as i64) * ONE;
    assert(0 < span <= 4_294_967_295_000_000 && 0 < rows <= 4_294_967_295_000_000);
    let band_low: i64 = rows / LATITUDE_FACTOR;
    let band_high: i64 = rows * (LATITUDE_FACTOR - 1) / LATITUDE_FACTOR;
    let start_high: i64 = span * (LONGITUDE_FACTOR - 1) / LONGITUDE_FACTOR;
    assert(rows * (LATITUDE_FACTOR - 1) == height * ONE * (LATITUDE_FACTOR - 1)) by (nonlinear_arith)
        requires
            rows == height * ONE,
    ;
    assert(span * (LONGITUDE_FACTOR - 1) == width * ONE * (LONGITUDE_FACTOR - 1))
        by (nonlinear_arith)
        requires
            span == width * ONE,
    ;
    let mut longitude: i64 = draw_in_range(rng, 0, start_high);
    let mut latitude: i64 = draw_in_range(rng, band_low, band_high);
    let mut continents: Vec<Continent> = Vec::new();
    let mut index: usize = 0;
    while index < NUM_CONTINENTS
        invariant
            index <= NUM_CONTINENTS,
            width > 0,
            height > 0,
            span == width * ONE,
            band_low == band_low_spec(height as int),
            band_high == band_high_spec(height as int),
            band_low < band_high,
            0 <= longitude < span,
            index == 0 ==> longitude < start_high_spec(width as int),
            band_low <= latitude < band_high,
            continents@.len() == index,
            forall|i: int|
                0 <= i < index ==> (#[trigger] continents@[i]).wf(width as int, height as int),
            is_walk(continents@, width as int),
            index > 0 ==> follows_in_walk(
                continents@[index - 1].offset.x as int,
                longitude as int,
                index - 1,
                width as int,
            ),
        decreases NUM_CONTINENTS - index,
    {
        let widening: i64 = draw_in_range(rng, 0, CONTINENT_WIDENING);
        let size_x: i64 = draw_in_range(
            rng,
            CONTINENT_MIN_SIZE_FACTOR + widening,
            CONTINENT_MAX_SIZE_FACTOR + widening,
        );
        let size_y: i64 = draw_in_range(
            rng,
            CONTINENT_MIN_SIZE_FACTOR + widening,
            CONTINENT_MAX_SIZE_FACTOR + widening,
        );
        let ghost before = continents@;
        continents.push(
            Continent {
                offset: Vec2 { x: longitude, y: latitude },
                size: Vec2 { x: size_x, y: size_y },
            },
        );
        proof {
            assert(continents@[index as int].sized_under(widening as int));
            if index > 0 {
                assert(continents@[0] == before[0]);
            }
            assert forall|i: int|
                0 <= i < continents@.len() implies (#[trigger] continents@[i]).wf(
                width as int,
                height as int,
            ) by {
                if i < index {
                    assert(continents@[i] == before[i]);
                }
            }
            assert forall|i: int| 1 <= i < continents@.len() implies follows_in_walk(
                continents@[i - 1].offset.x as int,
                (#[trigger] continents@[i]).offset.x as int,
                i - 1,
                width as int,
            ) by {
                if i < index {
                    assert(continents@[i] == before[i]);
                    assert(continents@[i - 1] == before[i - 1]);
                }
            }
        }
        let next_latitude: i64 = draw_in_range(rng, band_low, band_high);
        let (step_low, step_high) = step_range(index, width);
        let step: i64 = draw_in_range(rng, step_low, step_high);
        let next: i64 = next_longitude(longitude, step, width);
        proof {
            assert(next == next_longitude_spec(longitude as int, step as int, width as int));
        }
        longitude = next;
        latitude = next_latitude;
        index = index + 1;
    }
    continents
}

} // verus!
