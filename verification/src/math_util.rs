//! Conversion from polar angles to points of space, wrapping of a number into
//! a range, and random points of a ball.

use crate::elementary::{cos, cos_spec, lemma_cos_bounds, lemma_sin_bounds, sin, sin_spec, PI, TAU};
use crate::fixed::{floor_mod, fx_mul, fx_mul_spec, lemma_div_bounds, lemma_mul_bounds, ONE};
use crate::random::draw_in_range;
use crate::vector::Vec3;
use rand::rngs::StdRng;
use vstd::prelude::*;

verus! {

/// How many candidates are drawn for a random point of a ball.
pub const SPHERE_ATTEMPTS: u32 = 64;

/// Why a conversion to a point of space failed.
#[derive(Debug, Copy, Clone, PartialEq, Eq, Structural)]
pub enum CartesianError {
    /// The colatitude, given here, is below zero or above half a turn.
    InvalidAlpha(i64),
}

/// A number that can be wrapped into the range from zero up to a length.
pub trait RepeatNum: Sized {
    /// The inputs on which `repeat` is defined.
    spec fn repeat_defined(self, length: Self) -> bool;

    /// The result of `repeat`.
    spec fn repeat_spec(self, length: Self) -> Self;

    /// Wraps the number into the range from zero up to, and without,
    /// `length`, by adding or taking away a multiple of `length`.
    fn repeat(self, length: Self) -> (wrapped: Self)
        requires
            self.repeat_defined(length),
        ensures
            wrapped == self.repeat_spec(length),
    ;
}

impl RepeatNum for i64 {
    open spec fn repeat_defined(self, length: i64) -> bool {
        length > 0
    }

    open spec fn repeat_spec(self, length: i64) -> i64 {
        (self as int % length as int) as i64
    }

    fn repeat(self, length: i64) -> (wrapped: i64) {
        floor_mod(self, length)
    }
}

/// The first coordinate of the point at colatitude `alpha` and longitude
/// `beta` on the sphere of the given radius.
pub open spec fn cartesian_x_spec(alpha: int, beta: int, radius: int) -> int {
    fx_mul_spec(fx_mul_spec(sin_spec(alpha), cos_spec(beta % (TAU as int))), radius)
}

/// The second coordinate of that point, along the axis through the poles.
pub open spec fn cartesian_y_spec(alpha: int, radius: int) -> int {
    fx_mul_spec(cos_spec(alpha), radius)
}

/// The third coordinate of that point.
pub open spec fn cartesian_z_spec(alpha: int, beta: int, radius: int) -> int {
    fx_mul_spec(fx_mul_spec(sin_spec(alpha), sin_spec(beta % (TAU as int))), radius)
}

/// A fixed-point product with a factor between minus one and one is no
/// further from zero than the other factor.
pub proof fn lemma_fx_mul_shrinks(a: int, b: int, bound: int)
    requires
        -ONE <= a <= ONE,
        -bound <= b <= bound,
    ensures
        -bound <= fx_mul_spec(a, b) <= bound,
{
    lemma_mul_bounds(a, b, ONE as int, bound);
    assert(ONE * bound == bound * ONE) by (nonlinear_arith);
    assert(-(ONE * bound) == (-bound) * ONE) by (nonlinear_arith);
    lemma_div_bounds(a * b, ONE as int, -bound, bound);
}

/// The coordinates of a point of the sphere are no further from zero than the
/// radius.
pub proof fn lemma_cartesian_bounds(alpha: int, beta: int, radius: int, bound: int)
    requires
        -bound <= radius <= bound,
    ensures
        -bound <= cartesian_x_spec(alpha, beta, radius) <= bound,
        -bound <= cartesian_y_spec(alpha, radius) <= bound,
        -bound <= cartesian_z_spec(alpha, beta, radius) <= bound,
{
    let reduced = beta % (TAU as int);
    lemma_sin_bounds(alpha);
    lemma_cos_bounds(alpha);
    lemma_sin_bounds(reduced);
    lemma_cos_bounds(reduced);
    lemma_fx_mul_shrinks(sin_spec(alpha), cos_spec(reduced), ONE as int);
    lemma_fx_mul_shrinks(sin_spec(alpha), sin_spec(reduced), ONE as int);
    lemma_fx_mul_shrinks(fx_mul_spec(sin_spec(alpha), cos_spec(reduced)), radius, bound);
    lemma_fx_mul_shrinks(fx_mul_spec(sin_spec(alpha), sin_spec(reduced)), radius, bound);
    lemma_fx_mul_shrinks(cos_spec(alpha), radius, bound);
}

/// Longitudes that lie a full turn apart name the same point: there is no
/// seam where the longitude starts anew.
pub proof fn lemma_longitude_periodic(alpha: int, beta: int, radius: int)
    ensures
        cartesian_x_spec(alpha, beta + TAU, radius) == cartesian_x_spec(alpha, beta, radius),
        cartesian_z_spec(alpha, beta + TAU, radius) == cartesian_z_spec(alpha, beta, radius),
{
    assert((beta + TAU) % (TAU as int) == beta % (TAU as int)) by (nonlinear_arith);
}

/// Converts the colatitude `alpha`, the longitude `beta` and a radius to the
/// point of space that they name. The longitude counts modulo a full turn. A
/// colatitude below zero or above half a turn is refused.
pub fn cartesian_coordinates(alpha: i64, beta: i64, radius: i64) -> (r: Result<
    Vec3,
    CartesianError,
>)
    requires
        radius > i64::MIN,
    ensures
        match r {
            Ok(point) => {
                &&& 0 <= alpha <= PI
                &&& point.x == cartesian_x_spec(alpha as int, beta as int, radius as int)
                &&& point.y == cartesian_y_spec(alpha as int, radius as int)
                &&& point.z == cartesian_z_spec(alpha as int, beta as int, radius as int)
            },
            Err(error) => (alpha < 0 || alpha > PI) && error == CartesianError::InvalidAlpha(alpha),
        },
{
    if alpha < 0 || alpha > PI {
        return Err(CartesianError::InvalidAlpha(alpha));
    }
    let reduced: i64 = floor_mod(beta, TAU);
    let sin_alpha: i64 = sin(alpha);
    let cos_alpha: i64 = cos(alpha);
    let sin_beta: i64 = sin(reduced);
    let cos_beta: i64 = cos(reduced);
    proof {
        lemma_fx_mul_shrinks(sin_alpha as int, cos_beta as int, ONE as int);
        lemma_fx_mul_shrinks(sin_alpha as int, sin_beta as int, ONE as int);
        lemma_cartesian_bounds(alpha as int, beta as int, radius as int, i64::MAX as int);
    }
    let x: i64 = fx_mul(fx_mul(sin_alpha, cos_beta), radius);
    let y: i64 = fx_mul(cos_alpha, radius);
    let z: i64 = fx_mul(fx_mul(sin_alpha, sin_beta), radius);
    Ok(Vec3 { x, y, z })
}

/// The point `(x, y, z)` where it lies in the ball of the given radius round
/// the origin, surface included, and nothing where it lies outside.
pub fn point_within(x: i64, y: i64, z: i64, radius: i64) -> (r: Option<Vec3>)
    ensures
        r == if (Vec3 { x, y, z }).within(radius as int) {
            Some(Vec3 { x, y, z })
        } else {
            None
        },
{
    proof {
        lemma_mul_bounds(x as int, x as int, 0x8000_0000_0000_0000, 0x8000_0000_0000_0000);
        lemma_mul_bounds(y as int, y as int, 0x8000_0000_0000_0000, 0x8000_0000_0000_0000);
        lemma_mul_bounds(z as int, z as int, 0x8000_0000_0000_0000, 0x8000_0000_0000_0000);
        lemma_mul_bounds(
            radius as int,
            radius as int,
            0x8000_0000_0000_0000,
            0x8000_0000_0000_0000,
        );
        assert(x * x >= 0 && y * y >= 0 && z * z >= 0 && radius * radius >= 0) by (nonlinear_arith);
    }
    let norm: u128 = (x as i128 * x as i128) as u128 + (y as i128 * y as i128) as u128 + (z as i128
        * z as i128) as u128;
    let limit: u128 = (radius as i128 * radius as i128) as u128;
    if norm <= limit {
        Some(Vec3 { x, y, z })
    } else {
        None
    }
}

/// The first of the candidates that lies in the ball of the given radius round
/// the origin, and the centre of the ball where none of them does.
pub open spec fn first_within_spec(candidates: Seq<Vec3>, radius: int) -> Vec3
    decreases candidates.len(),
{
    if candidates.len() == 0 {
        Vec3 { x: 0, y: 0, z: 0 }
    } else if candidates[0].within(radius) {
        candidates[0]
    } else {
        first_within_spec(candidates.subrange(1, candidates.len() as int), radius)
    }
}

/// Whether every candidate has its coordinates within the radius of zero.
pub open spec fn candidates_in_cube(candidates: Seq<Vec3>, radius: int) -> bool {
    forall|i: int|
        0 <= i < candidates.len() ==> {
            &&& -radius <= (#[trigger] candidates[i]).x <= radius
            &&& -radius <= candidates[i].y <= radius
            &&& -radius <= candidates[i].z <= radius
        }
}

/// The point chosen among candidates of the cube that holds the ball lies in
/// the ball, and in the cube.
pub proof fn lemma_first_within(candidates: Seq<Vec3>, radius: int)
    requires
        radius >= 0,
        candidates_in_cube(candidates, radius),
    ensures
        first_within_spec(candidates, radius).within(radius),
        -radius <= first_within_spec(candidates, radius).x <= radius,
        -radius <= first_within_spec(candidates, radius).y <= radius,
        -radius <= first_within_spec(candidates, radius).z <= radius,
    decreases candidates.len(),
{
    if candidates.len() == 0 {
        let centre = Vec3 { x: 0, y: 0, z: 0 };
        let (x, y, z) = (centre.x as int, centre.y as int, centre.z as int);
        assert(x * x + y * y + z * z == 0) by (nonlinear_arith)
            requires
                x == 0,
                y == 0,
                z == 0,
        ;
        assert(0 <= radius * radius) by (nonlinear_arith);
        assert(centre.within(radius));
    } else if !candidates[0].within(radius) {
        let rest = candidates.subrange(1, candidates.len() as int);
        assert forall|i: int| 0 <= i < rest.len() implies {
            &&& -radius <= (#[trigger] rest[i]).x <= radius
            &&& -radius <= rest[i].y <= radius
            &&& -radius <= rest[i].z <= radius
        } by {
            assert(rest[i] == candidates[i + 1]);
        }
        lemma_first_within(rest, radius);
    }
}

/// Chooses among candidates: the first that lies in the ball of the given
/// radius round the origin, and the centre of the ball where none does.
pub fn first_within(candidates: &Vec<Vec3>, radius: i64) -> (point: Vec3)
    ensures
        point == first_within_spec(candidates@, radius as int),
{
    let ghost all = candidates@;
    let mut index: usize = 0;
    assert(all.subrange(0, all.len() as int) =~= all);
    while index < candidates.len()
        invariant
            index <= all.len(),
            all == candidates@,
            first_within_spec(all, radius as int) == first_within_spec(
                all.subrange(index as int, all.len() as int),
                radius as int,
            ),
        decreases all.len() - index,
    {
        let ghost rest = all.subrange(index as int, all.len() as int);
        assert(rest[0] == all[index as int]);
        let candidate = candidates[index];
        match point_within(candidate.x, candidate.y, candidate.z, radius) {
            Some(point) => {
                return point;
            },
            None => {},
        }
        assert(rest.subrange(1, rest.len() as int) =~= all.subrange(index + 1, all.len() as int));
        index = index + 1;
    }
    Vec3 { x: 0, y: 0, z: 0 }
}

/// Draws a random point of the ball of the given radius round the origin.
///
/// `SPHERE_ATTEMPTS` candidates are drawn from the cube that holds the ball,
/// each by three draws, for x, y and z. The point is the one that
/// `first_within` chooses among them: every point of the ball is as likely as
/// any other, and the centre stands in where all candidates miss the ball.
pub fn random_point_in_sphere(rng: &mut StdRng, radius: i64) -> (point: Vec3)
    requires
        0 < radius < i64::MAX,
    ensures
        point.within(radius as int),
        -radius <= point.x <= radius,
        -radius <= point.y <= radius,
        -radius <= point.z <= radius,
{
    let mut candidates: Vec<Vec3> = Vec::new();
    let mut attempt: u32 = 0;
    while attempt < SPHERE_ATTEMPTS
        invariant
            0 < radius < i64::MAX,
            attempt <= SPHERE_ATTEMPTS,
            candidates@.len() == attempt,
            candidates_in_cube(candidates@, radius as int),
        decreases SPHERE_ATTEMPTS - attempt,
    {
        let x: i64 = draw_in_range(rng, -radius, radius + 1);
        let y: i64 = draw_in_range(rng, -radius, radius + 1);
        let z: i64 = draw_in_range(rng, -radius, radius + 1);
        candidates.push(Vec3 { x, y, z });
        attempt = attempt + 1;
    }
    proof {
        lemma_first_within(candidates@, radius as int);
    }
    first_within(&candidates, radius)
}

} // verus!
