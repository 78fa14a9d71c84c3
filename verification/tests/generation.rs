use planet::altitude::{
    calculate_altitude, mountain_range_noise_from_random_noise, random_noise_from_polar_coordinates,
    raw_altitude, strength_of, AltitudeSamples, ALTITUDE_SPAN, MAX_ALTITUDE, MIN_ALTITUDE,
    OFFSET_RADIUS,
};
use planet::biome::{BiomeStats, BiomeType};
use planet::continents::{
    continent_distance, continent_modifier, continent_value, generate_continents, join_fields,
    next_longitude, step_range, Continent, CONTINENT_MAX_SIZE_FACTOR, CONTINENT_MIN_SIZE_FACTOR,
    CONTINENT_WIDENING, NUM_CONTINENTS,
};
use planet::elementary::{HALF_PI, PI, TAU};
use planet::extrema::Quantity;
use planet::fixed::ONE;
use planet::generation::{draw_recipe, Phase};
use planet::math_util::CartesianError;
use planet::rainfall::{
    altitude_modifier, calculate_rainfall, contrast, rainfall_of, upwind_column, upwind_row,
    wet_band, wind, Relief, MAX_RAINFALL, MIN_RAINFALL,
};
use planet::temperature::{
    altitude_cooling, calculate_temperature, temperature_of, MAX_TEMPERATURE, MIN_TEMPERATURE,
    TOTAL_OCTAVES,
};
use planet::vector::{Vec2, Vec3};
use planet::world::World;
use rand::SeedableRng;
use rand::rngs::StdRng;

fn assert_terrain_equal(a: &World, b: &World) {
    assert_eq!(a.width, b.width);
    assert_eq!(a.height, b.height);
    for y in 0..a.height as usize {
        for x in 0..a.width as usize {
            let left = &a.terrain[y][x];
            let right = &b.terrain[y][x];
            assert_eq!(left.altitude, right.altitude);
            assert_eq!(left.rainfall, right.rainfall);
            assert_eq!(left.temperature, right.temperature);
            assert_eq!(left.biome_presences, right.biome_presences);
        }
    }
}

#[test]
fn a_new_world_is_blank() {
    let world = World::new(4, 3, 9);
    assert_eq!((world.width, world.height, world.seed), (4, 3, 9));
    assert_eq!(world.terrain.len(), 3);
    for y in 0..3 {
        assert_eq!(world.terrain[y].len(), 4);
        for x in 0..4 {
            let cell = &world.terrain[y][x];
            assert_eq!((cell.x, cell.y), (x, y));
            assert_eq!((cell.altitude, cell.rainfall, cell.temperature), (0, 0, 0));
            assert!(cell.biome_presences.is_empty());
            assert!(cell.human_groups.is_empty());
        }
    }
    assert!(world.recipe.continents.is_empty());
    assert!(world.recipe.octaves.is_empty());
    assert_eq!((world.min_altitude, world.max_altitude), (0, 0));
    assert_eq!((world.min_rainfall, world.max_rainfall), (0, 0));
    assert_eq!((world.min_temperature, world.max_temperature), (0, 0));
}

#[test]
fn generation_is_deterministic() {
    let mut first = World::new(12, 8, 1234);
    let mut second = World::new(12, 8, 1234);
    assert_eq!(first.generate(), Ok(()));
    assert_eq!(second.generate(), Ok(()));
    assert_eq!(first.recipe.continents, second.recipe.continents);
    assert_eq!(first.recipe.octaves, second.recipe.octaves);
    assert_terrain_equal(&first, &second);
    // A second run on the same world starts the stream anew.
    let before = first.clone();
    assert_eq!(first.generate(), Ok(()));
    assert_terrain_equal(&first, &before);
}

#[test]
fn generation_depends_on_the_seed() {
    let mut first = World::new(12, 8, 1);
    let mut second = World::new(12, 8, 2);
    assert_eq!(first.generate(), Ok(()));
    assert_eq!(second.generate(), Ok(()));
    let mut differs = false;
    for y in 0..8 {
        for x in 0..12 {
            if first.terrain[y][x].altitude != second.terrain[y][x].altitude {
                differs = true;
            }
        }
    }
    assert!(differs);
}

#[test]
fn the_terrain_follows_from_the_recipe() {
    let mut world = World::new(10, 6, 77);
    assert_eq!(world.generate(), Ok(()));
    let mut again = World::new(10, 6, 77);
    assert_eq!(again.synthesize(world.recipe.clone()), Ok(()));
    assert_terrain_equal(&world, &again);
    for y in 0..6 {
        for x in 0..10 {
            let cell = &world.terrain[y][x];
            assert_eq!(world.compute_altitude(x, y), Ok(cell.altitude));
            assert_eq!(world.compute_rainfall(x, y), Ok(cell.rainfall));
            assert_eq!(world.compute_temperature(x, y), Ok(cell.temperature));
            assert_eq!(
                planet::biome::classify(cell.altitude, cell.rainfall, cell.temperature),
                cell.biome_presences
            );
        }
    }
}

#[test]
fn generated_terrain_lies_within_the_bounds() {
    let mut world = World::new(16, 9, 5);
    assert_eq!(world.generate(), Ok(()));
    for row in &world.terrain {
        for cell in row {
            assert!(MIN_ALTITUDE <= cell.altitude && cell.altitude <= MAX_ALTITUDE);
            assert!(MIN_RAINFALL <= cell.rainfall && cell.rainfall <= MAX_RAINFALL);
            assert!(MIN_TEMPERATURE <= cell.temperature && cell.temperature <= MAX_TEMPERATURE);
        }
    }
}

#[test]
fn the_extremes_are_those_of_the_grid() {
    let mut world = World::new(16, 9, 6);
    assert_eq!(world.generate(), Ok(()));
    let cells: Vec<_> = world.terrain.iter().flatten().collect();
    assert_eq!(world.max_altitude, cells.iter().map(|cell| cell.altitude).max().unwrap());
    assert_eq!(world.min_altitude, cells.iter().map(|cell| cell.altitude).min().unwrap());
    assert_eq!(world.max_rainfall, cells.iter().map(|cell| cell.rainfall).max().unwrap());
    assert_eq!(world.min_rainfall, cells.iter().map(|cell| cell.rainfall).min().unwrap());
    assert_eq!(world.max_temperature, cells.iter().map(|cell| cell.temperature).max().unwrap());
    assert_eq!(world.min_temperature, cells.iter().map(|cell| cell.temperature).min().unwrap());
    assert_eq!(world.range_of(Quantity::Altitude), (world.min_altitude, world.max_altitude));
}

#[test]
fn update_extrema_scans_an_edited_grid() {
    let mut world = World::new(3, 2, 0);
    world.terrain[0][1].altitude = 12 * ONE;
    world.terrain[1][2].altitude = -7 * ONE;
    world.terrain[1][0].rainfall = 300 * ONE;
    world.terrain[0][0].temperature = -4 * ONE;
    world.update_extrema();
    assert_eq!((world.min_altitude, world.max_altitude), (-7 * ONE, 12 * ONE));
    assert_eq!((world.min_rainfall, world.max_rainfall), (0, 300 * ONE));
    assert_eq!((world.min_temperature, world.max_temperature), (-4 * ONE, 0));
}

#[test]
fn generated_biomes_are_normalised() {
    let mut world = World::new(16, 9, 7);
    assert_eq!(world.generate(), Ok(()));
    for row in &world.terrain {
        for cell in row {
            if cell.biome_presences.is_empty() {
                continue;
            }
            let sum: i64 = cell.biome_presences.iter().map(|entry| entry.1).sum();
            assert!((sum - ONE).abs() <= 10);
            for (kind, weight) in &cell.biome_presences {
                assert!(*weight > 0);
                let stats = BiomeStats::from(*kind);
                assert!(stats.contains(cell.altitude, cell.rainfall, cell.temperature));
            }
        }
    }
}

#[test]
fn end_to_end_on_a_small_grid() {
    let mut world = World::new(4, 4, 42);
    assert_eq!(world.generate(), Ok(()));
    assert_eq!(world.terrain.len(), 4);
    for (y, row) in world.terrain.iter().enumerate() {
        assert_eq!(row.len(), 4);
        for (x, cell) in row.iter().enumerate() {
            assert_eq!((cell.x, cell.y), (x, y));
            assert!(MIN_ALTITUDE <= cell.altitude && cell.altitude <= MAX_ALTITUDE);
            assert!(MIN_RAINFALL <= cell.rainfall && cell.rainfall <= MAX_RAINFALL);
            assert!(MIN_TEMPERATURE <= cell.temperature && cell.temperature <= MAX_TEMPERATURE);
        }
    }
    assert_eq!(world.recipe.continents.len(), NUM_CONTINENTS);
    assert_eq!(world.recipe.octaves.len(), TOTAL_OCTAVES);
    for continent in &world.recipe.continents {
        assert!(0 <= continent.offset.x && continent.offset.x < 4 * ONE);
        assert!(4 * ONE / 6 <= continent.offset.y && continent.offset.y < 4 * ONE * 5 / 6);
    }
    let has_land_or_sea = world.terrain.iter().flatten().any(|cell| cell.altitude != 0);
    assert!(has_land_or_sea);
}

#[test]
fn the_noise_is_continuous_across_the_seam() {
    // Longitude zero and the longitude just short of a full turn, on the row of
    // colatitude 90 / 180 of half a turn of a grid of 360 by 180 cells.
    let seed: u32 = 7;
    let alpha = 90 * PI / 180;
    let offset = Vec3::new(123 * ONE, -45 * ONE, 67 * ONE);
    for radius in [750_000i64, 4 * ONE, 16 * ONE, 128 * ONE] {
        let at_zero = random_noise_from_polar_coordinates(seed, alpha, 0, radius, offset).unwrap();
        let short_of_a_turn =
            random_noise_from_polar_coordinates(seed, alpha, TAU - 1, radius, offset).unwrap();
        assert!((at_zero - short_of_a_turn).abs() < 2_000);
        let at_a_turn = random_noise_from_polar_coordinates(seed, alpha, TAU, radius, offset).unwrap();
        assert_eq!(at_zero, at_a_turn);
    }
}

#[test]
fn polar_noise_refuses_a_colatitude_outside_half_a_turn() {
    let offset = Vec3::new(0, 0, 0);
    assert_eq!(
        random_noise_from_polar_coordinates(1, -5, 0, ONE, offset),
        Err(CartesianError::InvalidAlpha(-5))
    );
    assert_eq!(
        random_noise_from_polar_coordinates(1, PI + 5, 0, ONE, offset),
        Err(CartesianError::InvalidAlpha(PI + 5))
    );
}

#[test]
fn drawn_recipes_are_complete_and_in_range() {
    for seed in 0..20u64 {
        let mut rng = StdRng::seed_from_u64(seed);
        let recipe = draw_recipe(&mut rng, 40, 20);
        assert_eq!(recipe.continents.len(), NUM_CONTINENTS);
        assert_eq!(recipe.octaves.len(), TOTAL_OCTAVES);
        for continent in &recipe.continents {
            assert!(0 <= continent.offset.x && continent.offset.x < 40 * ONE);
            assert!(20 * ONE / 6 <= continent.offset.y && continent.offset.y < 20 * ONE * 5 / 6);
            for size in [continent.size.x, continent.size.y] {
                assert!(CONTINENT_MIN_SIZE_FACTOR <= size);
                assert!(size < CONTINENT_MAX_SIZE_FACTOR + CONTINENT_WIDENING);
            }
        }
        for centre in &recipe.octaves {
            let norm = (centre.x as i128).pow(2) + (centre.y as i128).pow(2) + (centre.z as i128).pow(2);
            assert!(norm <= (OFFSET_RADIUS as i128).pow(2));
        }
    }
}

#[test]
fn continents_walk_forward_along_the_longitude() {
    let mut rng = StdRng::seed_from_u64(3);
    let width: u32 = 90;
    let continents = generate_continents(&mut rng, width, 45);
    let span = width as i64 * ONE;
    for index in 1..continents.len() {
        let step = (continents[index].offset.x - continents[index - 1].offset.x).rem_euclid(span);
        let (low, high) = step_range(index - 1, width);
        assert!(low <= step && step < high);
    }
    let sizes_differ = continents.iter().any(|c| c.size != continents[0].size);
    assert!(sizes_differ);
}

#[test]
fn every_third_step_crosses_an_ocean() {
    assert_eq!(step_range(0, 15), (ONE, 2 * ONE));
    assert_eq!(step_range(1, 15), (ONE, 2 * ONE));
    assert_eq!(step_range(2, 15), (4 * ONE, 6 * ONE));
    assert_eq!(step_range(3, 15), (ONE, 2 * ONE));
    assert_eq!(step_range(5, 15), (4 * ONE, 6 * ONE));
}

#[test]
fn the_walk_wraps_round_the_grid() {
    assert_eq!(next_longitude(14 * ONE, 3 * ONE, 15), 2 * ONE);
    assert_eq!(next_longitude(ONE, 3 * ONE, 15), 4 * ONE);
}

fn one_continent(x: i64, y: i64, size: i64) -> Continent {
    Continent { offset: Vec2::new(x, y), size: Vec2::new(size, size) }
}

#[test]
fn the_distance_to_a_continent_knows_the_seam_and_the_poles() {
    let continent = one_continent(ONE, 5 * ONE, 6 * ONE);
    // At the centre.
    assert_eq!(continent_distance(&continent, 20, 10, 1, 5), 0);
    // Two columns east of the centre on the equator: two cells, times the radius factor.
    assert_eq!(continent_distance(&continent, 20, 10, 3, 5), 12 * ONE);
    // Two columns the other way, across the seam: the same.
    assert_eq!(continent_distance(&continent, 20, 10, 19, 5), 12 * ONE);
    // Two rows off the centre, on the same column: two cells, times the radius factor.
    assert_eq!(continent_distance(&continent, 20, 10, 1, 7), 12 * ONE);
    // On the first row the columns collapse into the pole: only the rows count.
    assert_eq!(continent_distance(&continent, 20, 10, 3, 0), 30 * ONE);
}

#[test]
fn the_field_of_a_continent_falls_off_with_the_distance() {
    let continent = one_continent(ONE, 5 * ONE, 6 * ONE);
    assert_eq!(continent_value(&continent, 20, 10, 1, 5), ONE);
    assert_eq!(continent_value(&continent, 20, 10, 3, 5), ONE - 12 * ONE / 20);
    // From the distance of one width on, nothing is left.
    let far = one_continent(ONE, 2 * ONE, 14 * ONE);
    assert_eq!(continent_value(&far, 20, 10, 1, 9), 0);
}

#[test]
fn joined_fields_blend_the_two_largest() {
    assert_eq!(join_fields(0, 0), 0);
    assert_eq!(join_fields(0, 800_000), 800_000);
    assert_eq!(join_fields(800_000, 0), 800_000);
    // The smaller field, doubled, is the weight by which the larger is drawn towards it.
    assert_eq!(join_fields(800_000, 200_000), (200_000 * 400_000 + 800_000 * 600_000) / ONE);
    // From one half on, the smaller field takes over.
    assert_eq!(join_fields(900_000, 500_000), 500_000);
}

#[test]
fn the_joint_field_of_a_recipe_lies_in_the_unit_range() {
    let mut rng = StdRng::seed_from_u64(8);
    let continents = generate_continents(&mut rng, 24, 12);
    let mut any_land = false;
    for y in 0..12 {
        for x in 0..24 {
            let value = continent_modifier(&continents, 24, 12, x, y);
            assert!(0 <= value && value <= ONE);
            if value > 0 {
                any_land = true;
            }
        }
    }
    assert!(any_land);
}

#[test]
fn the_ridge_function_swings_round_the_middle() {
    // In the middle of the noise's range both bells are equal.
    assert_eq!(mountain_range_noise_from_random_noise(ONE / 2, 25 * ONE), ONE / 2);
    // Far from the middle both bells have died away.
    assert!((mountain_range_noise_from_random_noise(0, 25 * ONE) - ONE / 2).abs() < 1_000);
    assert!((mountain_range_noise_from_random_noise(ONE, 25 * ONE) - ONE / 2).abs() < 1_000);
    // A twenty-fifth of the half range above the middle the rising bell peaks.
    let peak = mountain_range_noise_from_random_noise(ONE / 2 + ONE / 50, 25 * ONE);
    assert!(peak > 900_000);
    let trough = mountain_range_noise_from_random_noise(ONE / 2 - ONE / 50, 25 * ONE);
    assert!(trough < 100_000);
}

#[test]
fn the_strength_scales_from_a_quarter_to_one_and_three_quarters() {
    assert_eq!(strength_of(0), 250_000);
    assert_eq!(strength_of(ONE / 2), ONE);
    assert_eq!(strength_of(ONE), 1_750_000);
}

fn flat_samples(value: i64) -> AltitudeSamples {
    AltitudeSamples {
        ridge_a: value,
        ridge_b: value,
        fine_a: value,
        fine_b: value,
        rough_1: value,
        rough_2: value,
        rough_3: value,
        rough_4: value,
        rough_5: value,
        strength: value,
        shared: value,
    }
}

#[test]
fn raw_altitude_of_flat_noise() {
    // With every octave and the continents at one half, every blend of the coast stays at one
    // half, the ridges sit in the middle of their swing, and the shelf is drawn to one half.
    assert_eq!(raw_altitude(ONE / 2, &flat_samples(ONE / 2)), ONE / 2);
}

#[test]
fn raw_altitude_rises_with_the_continents() {
    let samples = flat_samples(ONE / 2);
    let sea = raw_altitude(0, &samples);
    let land = raw_altitude(ONE, &samples);
    assert!(sea < land);
}

#[test]
fn calculate_altitude_maps_the_unit_range_onto_the_altitudes() {
    assert_eq!(calculate_altitude(0), MIN_ALTITUDE);
    assert_eq!(calculate_altitude(ONE), MAX_ALTITUDE);
    assert_eq!(calculate_altitude(ONE / 2), 0);
    assert_eq!(calculate_altitude(ONE / 4), MIN_ALTITUDE + ALTITUDE_SPAN / 4);
    // Raw values outside the unit range are held to it.
    assert_eq!(calculate_altitude(-ONE), MIN_ALTITUDE);
    assert_eq!(calculate_altitude(3 * ONE), MAX_ALTITUDE);
}

#[test]
fn the_bands_of_latitude() {
    assert_eq!(wet_band(HALF_PI), ONE);
    assert_eq!(wet_band(0), -500_000);
    assert_eq!(wet_band(PI), -500_000);
    assert_eq!(wind(0), ONE);
    assert_eq!(wind(HALF_PI), 0);
    assert_eq!(wind(PI), -ONE);
}

#[test]
fn upwind_columns_wrap_round_the_grid() {
    // A full wind shifts by a twentieth, a tenth, a fifth of the width.
    assert_eq!(upwind_column(5, 100, ONE, 20), 10);
    assert_eq!(upwind_column(98, 100, ONE, 20), 3);
    assert_eq!(upwind_column(98, 100, ONE, 5), 18);
    // A wind from the other side shifts the other way.
    assert_eq!(upwind_column(2, 100, -ONE, 20), 97);
    assert_eq!(upwind_column(50, 100, 0, 20), 50);
    // Half a wind, half the shift, rounded down.
    assert_eq!(upwind_column(5, 100, ONE / 2, 20), 7);
    assert_eq!(upwind_column(5, 100, -ONE / 2, 20), 2);
}

#[test]
fn upwind_rows_stop_at_the_edge_of_the_grid() {
    assert_eq!(upwind_row(5, 100, ONE), 15);
    assert_eq!(upwind_row(95, 100, ONE), 99);
    assert_eq!(upwind_row(5, 100, -ONE), 0);
    assert_eq!(upwind_row(50, 100, 0), 50);
}

fn relief(own: i64, upwind: i64) -> Relief {
    Relief { own, near: upwind, middle: upwind, far: upwind, farthest: upwind, across: upwind }
}

#[test]
fn the_effect_of_the_altitude_on_the_rain() {
    // Sea all round: nothing.
    assert_eq!(altitude_modifier(&relief(-200 * ONE, -3_000 * ONE)), 0);
    // Land that rises from the sea: its altitude as a part of the highest.
    assert_eq!(altitude_modifier(&relief(3_000 * ONE, -ONE)), 200_000);
    // Land in the lee of land of the same altitude: the weights 0.7, 0.6, 0.5, 0.4 and 0.5
    // take 2.7 times what it gains.
    assert_eq!(altitude_modifier(&relief(3_000 * ONE, 3_000 * ONE)), 200_000 - 540_000);
}

#[test]
fn contrast_keeps_the_sign_and_the_ends() {
    assert_eq!(contrast(0), 0);
    assert_eq!(contrast(ONE), ONE);
    assert_eq!(contrast(ONE / 2), (ONE / 4 * 250_000 + ONE / 2 * 750_000) / ONE);
    assert_eq!(contrast(-ONE / 2), -(ONE / 4 * 250_000 + ONE / 2 * 750_000) / ONE);
}

#[test]
fn calculate_rainfall_lowers_the_scale_and_holds_it() {
    assert_eq!(calculate_rainfall(0), 0);
    assert_eq!(calculate_rainfall(-ONE), 0);
    assert_eq!(calculate_rainfall(ONE), MAX_RAINFALL);
    assert_eq!(calculate_rainfall(2 * ONE), MAX_RAINFALL);
    // One half of the widened scale, less the dryness offset.
    assert_eq!(calculate_rainfall(ONE / 2), 13_065 * ONE / 2 - 65 * ONE);
}

#[test]
fn rainfall_of_a_cell_on_the_equator_by_the_sea() {
    // Latitude of the wet band's peak, no land upwind, the cell at sea level: the raw rainfall
    // is 0.85 of the band, and the contrast mixes in a quarter of its square.
    let raw = 850_000;
    let raised = (raw * raw / ONE * 250_000 + raw * 750_000) / ONE;
    assert_eq!(rainfall_of(HALF_PI, &relief(0, 0)), raised * 13_065 - 65 * ONE);
}

#[test]
fn the_altitude_cools_above_the_sea_only() {
    assert_eq!(altitude_cooling(-4_000 * ONE), 0);
    assert_eq!(altitude_cooling(0), 0);
    assert_eq!(altitude_cooling(MAX_ALTITUDE), 2_050_000);
    assert_eq!(altitude_cooling(3_000 * ONE), 410_000);
}

#[test]
fn calculate_temperature_maps_and_holds() {
    assert_eq!(calculate_temperature(0), MIN_TEMPERATURE);
    assert_eq!(calculate_temperature(ONE), MAX_TEMPERATURE);
    assert_eq!(calculate_temperature(ONE / 2), -2_500_000);
    assert_eq!(calculate_temperature(-ONE), MIN_TEMPERATURE);
    assert_eq!(calculate_temperature(2 * ONE), MAX_TEMPERATURE);
}

#[test]
fn temperature_of_a_cell() {
    // On the equator at sea level it is as warm as it gets.
    assert_eq!(temperature_of(HALF_PI, 0), MAX_TEMPERATURE);
    // At the pole it is as cold as it gets.
    assert_eq!(temperature_of(0, 0), MIN_TEMPERATURE);
    // Three thousand above the sea on the equator: 0.41 of the scale colder.
    assert_eq!(temperature_of(HALF_PI, 3_000 * ONE), MIN_TEMPERATURE + 590_000 * 65);
    // Below the sea the altitude does not warm.
    assert_eq!(temperature_of(HALF_PI, -3_000 * ONE), MAX_TEMPERATURE);
}

#[test]
fn the_kind_of_a_generated_cell_is_listed_once() {
    let mut world = World::new(12, 8, 99);
    assert_eq!(world.generate(), Ok(()));
    for row in &world.terrain {
        for cell in row {
            let kinds: Vec<BiomeType> = cell.biome_presences.iter().map(|entry| entry.0).collect();
            for (index, kind) in kinds.iter().enumerate() {
                assert!(!kinds[index + 1..].contains(kind));
            }
        }
    }
}

#[test]
fn the_scales_hold_raw_values_of_any_size() {
    assert_eq!(calculate_rainfall(i64::MAX), MAX_RAINFALL);
    assert_eq!(calculate_rainfall(i64::MIN), 0);
    assert_eq!(calculate_temperature(i64::MAX), MAX_TEMPERATURE);
    assert_eq!(calculate_temperature(i64::MIN), MIN_TEMPERATURE);
    assert_eq!(calculate_altitude(i64::MAX), MAX_ALTITUDE);
    assert_eq!(calculate_altitude(i64::MIN), MIN_ALTITUDE);
}

#[test]
fn the_distance_takes_the_shorter_way_round() {
    // A continent at column nine of ten with radius factors of one: from column zero of the row
    // on the equator the shorter way round is one column.
    let continent = Continent { offset: Vec2::new(9 * ONE, 5 * ONE), size: Vec2::new(ONE, ONE) };
    assert_eq!(continent_distance(&continent, 10, 10, 0, 5), ONE);
    assert_eq!(continent_distance(&continent, 10, 10, 8, 5), ONE);
    assert_eq!(continent_distance(&continent, 10, 10, 9, 5), 0);
}

#[test]
fn continents_start_in_the_first_fourteen_fifteenths_and_share_a_widening() {
    for seed in 0..40u64 {
        let mut rng = StdRng::seed_from_u64(seed);
        let continents = generate_continents(&mut rng, 30, 12);
        assert!(continents[0].offset.x < 30 * ONE * 14 / 15);
        for continent in &continents {
            let low = continent.size.x.min(continent.size.y);
            let high = continent.size.x.max(continent.size.y);
            // Some widening below six puts both factors in the widened range.
            let least = (high - CONTINENT_MAX_SIZE_FACTOR + 1).max(0);
            let most = (low - CONTINENT_MIN_SIZE_FACTOR).min(CONTINENT_WIDENING - 1);
            assert!(least <= most);
        }
    }
}

fn world_with_recipe(width: u32, height: u32, seed: u32) -> World {
    let mut world = World::new(width, height, seed);
    let mut rng = StdRng::seed_from_u64(u64::from(seed));
    world.recipe = draw_recipe(&mut rng, width, height);
    world
}

#[test]
fn the_altitude_pass_keeps_the_extremes_of_a_grid_of_one_cell() {
    let mut world = world_with_recipe(1, 1, 42);
    assert_eq!(world.generate_altitude(), Ok(()));
    assert_eq!(world.max_altitude, world.terrain[0][0].altitude);
    assert_eq!(world.min_altitude, world.terrain[0][0].altitude);
}

#[test]
fn the_altitude_pass_leaves_no_stale_extreme() {
    let mut world = world_with_recipe(5, 4, 3);
    world.terrain[2][3].altitude = MAX_ALTITUDE + 77;
    world.terrain[1][1].altitude = MIN_ALTITUDE - 77;
    world.update_extrema();
    assert_eq!(world.max_altitude, MAX_ALTITUDE + 77);
    assert_eq!(world.generate_altitude(), Ok(()));
    let cells: Vec<_> = world.terrain.iter().flatten().collect();
    assert_eq!(world.max_altitude, cells.iter().map(|cell| cell.altitude).max().unwrap());
    assert_eq!(world.min_altitude, cells.iter().map(|cell| cell.altitude).min().unwrap());
}

#[test]
fn a_pass_changes_its_own_quantity_alone() {
    let mut world = world_with_recipe(6, 5, 8);
    for y in 0..5 {
        for x in 0..6 {
            let cell = &mut world.terrain[y][x];
            cell.rainfall = 11 * ONE;
            cell.temperature = -3 * ONE;
            cell.biome_presences = vec![(BiomeType::Taiga, ONE)];
        }
    }
    world.update_extrema();
    assert_eq!(world.generate_altitude(), Ok(()));
    for cell in world.terrain.iter().flatten() {
        assert_eq!((cell.rainfall, cell.temperature), (11 * ONE, -3 * ONE));
        assert_eq!(cell.biome_presences, vec![(BiomeType::Taiga, ONE)]);
    }
    assert_eq!((world.min_rainfall, world.max_rainfall), (11 * ONE, 11 * ONE));
    let altitudes: Vec<i64> = world.terrain.iter().flatten().map(|cell| cell.altitude).collect();
    assert_eq!(world.generate_rainfall(), Ok(()));
    let after: Vec<i64> = world.terrain.iter().flatten().map(|cell| cell.altitude).collect();
    assert_eq!(altitudes, after);
    for cell in world.terrain.iter().flatten() {
        assert_eq!(cell.temperature, -3 * ONE);
        assert_eq!(cell.biome_presences, vec![(BiomeType::Taiga, ONE)]);
    }
    let rainfalls: Vec<i64> = world.terrain.iter().flatten().map(|cell| cell.rainfall).collect();
    assert_eq!(world.max_rainfall, *rainfalls.iter().max().unwrap());
    assert_eq!(world.min_rainfall, *rainfalls.iter().min().unwrap());
    assert_eq!(world.generate_temperature(), Ok(()));
    let kept: Vec<i64> = world.terrain.iter().flatten().map(|cell| cell.rainfall).collect();
    assert_eq!(rainfalls, kept);
    let temperatures: Vec<i64> =
        world.terrain.iter().flatten().map(|cell| cell.temperature).collect();
    assert_eq!(world.max_temperature, *temperatures.iter().max().unwrap());
    assert_eq!(world.min_temperature, *temperatures.iter().min().unwrap());
    world.generate_biomes();
    for (index, cell) in world.terrain.iter().flatten().enumerate() {
        assert_eq!(cell.altitude, altitudes[index]);
        assert_eq!(cell.rainfall, rainfalls[index]);
        assert_eq!(cell.temperature, temperatures[index]);
    }
}

#[test]
fn the_rain_ignores_the_depth_of_the_sea() {
    let mut shallow = world_with_recipe(8, 6, 13);
    assert_eq!(shallow.generate_altitude(), Ok(()));
    let mut deep = shallow.clone();
    for cell in deep.terrain.iter_mut().flatten() {
        if cell.altitude < 0 {
            cell.altitude = MIN_ALTITUDE;
        }
    }
    assert_eq!(shallow.generate_rainfall(), Ok(()));
    assert_eq!(deep.generate_rainfall(), Ok(()));
    for y in 0..6 {
        for x in 0..8 {
            assert_eq!(shallow.terrain[y][x].rainfall, deep.terrain[y][x].rainfall);
        }
    }
}

#[test]
fn higher_land_is_colder() {
    let mut low = world_with_recipe(8, 6, 14);
    for cell in low.terrain.iter_mut().flatten() {
        cell.altitude = 100 * ONE;
    }
    let mut high = low.clone();
    high.terrain[3][4].altitude = 4_000 * ONE;
    let mut sunk = low.clone();
    sunk.terrain[3][4].altitude = -4_000 * ONE;
    sunk.terrain[2][2].altitude = 0;
    assert_eq!(low.generate_temperature(), Ok(()));
    assert_eq!(high.generate_temperature(), Ok(()));
    assert_eq!(sunk.generate_temperature(), Ok(()));
    assert!(high.terrain[3][4].temperature < low.terrain[3][4].temperature);
    assert!(sunk.terrain[3][4].temperature >= low.terrain[3][4].temperature);
    for y in 0..6 {
        for x in 0..8 {
            if (x, y) != (4, 3) {
                assert_eq!(low.terrain[y][x].temperature, high.terrain[y][x].temperature);
            }
        }
    }
    // At sea level and below the altitude does not bear on the temperature.
    let mut deeper = sunk.clone();
    deeper.terrain[3][4].altitude = -9_000 * ONE;
    assert_eq!(deeper.generate_temperature(), Ok(()));
    assert_eq!(deeper.terrain[3][4].temperature, sunk.terrain[3][4].temperature);
}

#[test]
fn the_passes_run_in_their_order() {
    assert_eq!(Phase::Altitude.next(), Some(Phase::Rainfall));
    assert_eq!(Phase::Rainfall.next(), Some(Phase::Temperature));
    assert_eq!(Phase::Temperature.next(), Some(Phase::Biomes));
    assert_eq!(Phase::Biomes.next(), None);
    assert_eq!(Phase::Altitude.position(), 0);
    assert_eq!(Phase::Biomes.position(), 3);
    assert_eq!(Phase::Rainfall.label(), "Generating rainfall");
}

#[test]
fn pass_by_pass_gives_what_generate_gives() {
    let mut whole = World::new(9, 7, 5150);
    assert_eq!(whole.generate(), Ok(()));
    let mut stepped = World::new(9, 7, 5150);
    let mut due = Some(stepped.prepare());
    let mut run = Vec::new();
    while let Some(phase) = due {
        run.push(phase);
        due = stepped.run_phase(phase).unwrap();
    }
    assert_eq!(run, vec![Phase::Altitude, Phase::Rainfall, Phase::Temperature, Phase::Biomes]);
    assert_eq!(whole.recipe.continents, stepped.recipe.continents);
    assert_terrain_equal(&whole, &stepped);
    assert_eq!(whole.max_altitude, stepped.max_altitude);
    assert_eq!(whole.min_rainfall, stepped.min_rainfall);
    assert_eq!(whole.max_temperature, stepped.max_temperature);
}
