use planet::elementary::{bell, cos, isqrt, sin, HALF_PI, PI, TAU};
use planet::fixed::{clamp, floor_div, floor_mod, fx_mul, mix_values, mul_div, ONE};
use planet::math_util::{
    cartesian_coordinates, first_within, point_within, random_point_in_sphere, CartesianError,
    RepeatNum,
};
use planet::noise::{fade, lattice_value, sample};
use planet::vector::Vec3;
use rand::SeedableRng;
use rand::rngs::StdRng;

#[test]
fn floor_div_rounds_down() {
    assert_eq!(floor_div(7, 2), 3);
    assert_eq!(floor_div(-7, 2), -4);
    assert_eq!(floor_div(-8, 2), -4);
    assert_eq!(floor_div(0, 5), 0);
}

#[test]
fn floor_mod_is_never_negative() {
    assert_eq!(floor_mod(7, 3), 1);
    assert_eq!(floor_mod(-7, 3), 2);
    assert_eq!(floor_mod(-3, 3), 0);
}

#[test]
fn mul_div_uses_a_wide_product() {
    assert_eq!(mul_div(3_000_000_000_000, 4_000_000_000_000, 6_000_000_000_000), 2_000_000_000_000);
    assert_eq!(mul_div(-5, 3, 2), -8);
}

#[test]
fn fx_mul_of_halves_is_a_quarter() {
    assert_eq!(fx_mul(ONE / 2, ONE / 2), ONE / 4);
    assert_eq!(fx_mul(-ONE, 3 * ONE), -3 * ONE);
}

#[test]
fn mix_values_blends_by_weight() {
    assert_eq!(mix_values(0, ONE, 250_000), 250_000);
    assert_eq!(mix_values(400_000, 800_000, 500_000), 600_000);
    assert_eq!(mix_values(123_456, 999_999, 0), 123_456);
    assert_eq!(mix_values(123_456, 999_999, ONE), 999_999);
}

#[test]
fn mix_values_extrapolates_outside_the_unit_range() {
    assert_eq!(mix_values(0, ONE, 2 * ONE), 2 * ONE);
    assert_eq!(mix_values(0, ONE, -ONE), -ONE);
}

#[test]
fn clamp_holds_to_the_range() {
    assert_eq!(clamp(5, 0, 3), 3);
    assert_eq!(clamp(-5, 0, 3), 0);
    assert_eq!(clamp(2, 0, 3), 2);
}

#[test]
fn repeat_wraps_into_the_length() {
    assert_eq!(7_500_000i64.repeat(3_000_000), 1_500_000);
    assert_eq!((-500_000i64).repeat(3_000_000), 2_500_000);
    assert_eq!(3_000_000i64.repeat(3_000_000), 0);
}

#[test]
fn sine_is_exact_at_the_quarter_turns() {
    assert_eq!(sin(0), 0);
    assert_eq!(sin(HALF_PI), ONE);
    assert_eq!(sin(PI), 0);
    assert_eq!(sin(PI + HALF_PI), -ONE);
    assert_eq!(sin(TAU), 0);
}

#[test]
fn sine_at_a_sixth_of_half_a_turn() {
    // Bhaskara: 16 t / (5 pi^2 - 4 t) with t = x (pi - x), x = 523_598.
    let x: i128 = 523_598;
    let pi: i128 = 3_141_592;
    let t = x * (pi - x);
    let expected = (16 * t * 1_000_000).div_euclid(5 * pi * pi - 4 * t) as i64;
    assert_eq!(sin(523_598), expected);
    assert!((sin(523_598) - 500_000).abs() < 2_000);
}

#[test]
fn cosine_is_the_sine_a_quarter_turn_on() {
    assert_eq!(cos(0), ONE);
    assert_eq!(cos(HALF_PI), 0);
    assert_eq!(cos(PI), -ONE);
    assert_eq!(cos(-HALF_PI), 0);
    assert_eq!(cos(1_000_000), sin(1_000_000 + HALF_PI));
}

#[test]
fn isqrt_is_the_floor_of_the_root() {
    assert_eq!(isqrt(0), 0);
    assert_eq!(isqrt(1), 1);
    assert_eq!(isqrt(15), 3);
    assert_eq!(isqrt(16), 4);
    assert_eq!(isqrt(17), 4);
    assert_eq!(isqrt(1_000_000_000_000), 1_000_000);
    assert_eq!(isqrt(u128::MAX), u64::MAX);
}

#[test]
fn bell_is_one_at_zero_and_falls_off() {
    assert_eq!(bell(0), ONE);
    // At one: 1 / (1 + 1 + 1/2 + 1/6 + 1/24).
    assert_eq!(bell(ONE), 1_000_000_000_000 / (1_000_000 + 1_000_000 + 500_000 + 166_666 + 41_666));
    assert_eq!(bell(ONE), bell(-ONE));
    assert!(bell(2 * ONE) < bell(ONE));
    assert!(bell(26 * ONE) < 1_000);
}

#[test]
fn fade_is_smooth_at_both_ends() {
    assert_eq!(fade(0), 0);
    assert_eq!(fade(ONE), ONE);
    assert_eq!(fade(ONE / 2), ONE / 2);
    assert_eq!(fade(250_000), 156_250);
}

#[test]
fn lattice_values_lie_in_the_unit_range_and_depend_on_the_seed() {
    let mut differs = false;
    for x in -3i64..4 {
        for y in -3i64..4 {
            let a = lattice_value(1, x, y, 0);
            let b = lattice_value(2, x, y, 0);
            assert!(0 <= a && a <= ONE);
            assert!(0 <= b && b <= ONE);
            assert_eq!(a, lattice_value(1, x, y, 0));
            if a != b {
                differs = true;
            }
        }
    }
    assert!(differs);
}

#[test]
fn sample_at_a_lattice_point_is_the_lattice_value() {
    let point = Vec3::new(3 * ONE, -2 * ONE, 5 * ONE);
    assert_eq!(sample(9, point), lattice_value(9, 3, -2, 5));
}

#[test]
fn sample_between_lattice_points_lies_between_their_values() {
    let low = lattice_value(9, 3, -2, 5).min(lattice_value(9, 4, -2, 5));
    let high = lattice_value(9, 3, -2, 5).max(lattice_value(9, 4, -2, 5));
    let value = sample(9, Vec3::new(3 * ONE + 400_000, -2 * ONE, 5 * ONE));
    assert!(low <= value && value <= high);
}

#[test]
fn sample_is_continuous_across_a_lattice_plane() {
    let before = sample(4, Vec3::new(2 * ONE - 1, 700_000, 300_000));
    let after = sample(4, Vec3::new(2 * ONE, 700_000, 300_000));
    assert!((before - after).abs() < 100);
}

#[test]
fn cartesian_coordinates_at_the_pole_and_on_the_equator() {
    assert_eq!(cartesian_coordinates(0, 0, 2 * ONE), Ok(Vec3::new(0, 2 * ONE, 0)));
    assert_eq!(cartesian_coordinates(HALF_PI, 0, 2 * ONE), Ok(Vec3::new(2 * ONE, 0, 0)));
    assert_eq!(cartesian_coordinates(HALF_PI, HALF_PI, 2 * ONE), Ok(Vec3::new(0, 0, 2 * ONE)));
    assert_eq!(cartesian_coordinates(PI, 0, 2 * ONE), Ok(Vec3::new(0, -2 * ONE, 0)));
}

#[test]
fn cartesian_coordinates_takes_the_longitude_modulo_a_turn() {
    assert_eq!(
        cartesian_coordinates(1_000_000, 500_000 + TAU, 3 * ONE),
        cartesian_coordinates(1_000_000, 500_000, 3 * ONE)
    );
    assert_eq!(
        cartesian_coordinates(1_000_000, 500_000 - TAU, 3 * ONE),
        cartesian_coordinates(1_000_000, 500_000, 3 * ONE)
    );
}

#[test]
fn cartesian_coordinates_refuses_a_colatitude_outside_half_a_turn() {
    assert_eq!(cartesian_coordinates(-1, 0, ONE), Err(CartesianError::InvalidAlpha(-1)));
    assert_eq!(cartesian_coordinates(PI + 1, 0, ONE), Err(CartesianError::InvalidAlpha(PI + 1)));
    assert!(cartesian_coordinates(PI, 0, ONE).is_ok());
    assert!(cartesian_coordinates(0, 0, ONE).is_ok());
}

#[test]
fn point_within_keeps_points_of_the_ball_only() {
    assert_eq!(point_within(3, 4, 0, 5), Some(Vec3::new(3, 4, 0)));
    assert_eq!(point_within(3, 4, 1, 5), None);
    assert_eq!(point_within(0, 0, 0, 1), Some(Vec3::new(0, 0, 0)));
}

#[test]
fn random_points_lie_in_the_ball_and_differ() {
    let mut rng = StdRng::seed_from_u64(11);
    let radius: i64 = 1_000 * ONE;
    let first = random_point_in_sphere(&mut rng, radius);
    let mut moved = false;
    for _ in 0..50 {
        let point = random_point_in_sphere(&mut rng, radius);
        let norm = (point.x as i128).pow(2) + (point.y as i128).pow(2) + (point.z as i128).pow(2);
        assert!(norm <= (radius as i128).pow(2));
        if point != first {
            moved = true;
        }
    }
    assert!(moved);
}

#[test]
fn mix_values_takes_large_values() {
    let large: i64 = 4_000_000_000_000_000_000;
    assert_eq!(mix_values(large, large, 500_000), large);
    assert_eq!(mix_values(-large, large, 500_000), 0);
    assert_eq!(mix_values(0, large, 250_000), large / 4);
}

#[test]
fn bell_is_cut_to_zero_far_out() {
    assert_eq!(bell(9 * ONE), 0);
    assert_eq!(bell(32 * ONE), 0);
    assert_eq!(bell(33 * ONE), 0);
    assert_eq!(bell(i64::MAX), 0);
    assert_eq!(bell(i64::MIN), 0);
    assert!(bell(3 * ONE) > 0);
}

#[test]
fn random_points_of_a_small_ball() {
    let mut rng = StdRng::seed_from_u64(5);
    for _ in 0..20 {
        let point = random_point_in_sphere(&mut rng, 1);
        assert!(point.x * point.x + point.y * point.y + point.z * point.z <= 1);
    }
}

#[test]
fn first_within_takes_the_first_candidate_in_the_ball() {
    let candidates = vec![Vec3::new(5, 5, 5), Vec3::new(3, 4, 0), Vec3::new(1, 0, 0)];
    assert_eq!(first_within(&candidates, 5), Vec3::new(3, 4, 0));
    assert_eq!(first_within(&candidates, 9), Vec3::new(5, 5, 5));
    assert_eq!(first_within(&candidates, 1), Vec3::new(1, 0, 0));
}

#[test]
fn first_within_falls_back_on_the_centre() {
    let candidates = vec![Vec3::new(5, 5, 5), Vec3::new(3, 4, 1)];
    assert_eq!(first_within(&candidates, 5), Vec3::new(0, 0, 0));
    assert_eq!(first_within(&Vec::new(), 5), Vec3::new(0, 0, 0));
}
