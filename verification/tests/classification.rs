use planet::altitude::{MAX_ALTITUDE, MIN_ALTITUDE};
use planet::biome::{classify, membership, presence, BiomeStats, BiomeType};
use planet::fixed::ONE;
use planet::rainfall::{MAX_RAINFALL, MIN_RAINFALL};
use planet::temperature::{MAX_TEMPERATURE, MIN_TEMPERATURE};
use planet::terrain_cell::TerrainCell;

#[test]
fn membership_rises_to_the_middle_and_falls_again() {
    assert_eq!(membership(0, 0, 100), 0);
    assert_eq!(membership(25, 0, 100), 250_000);
    assert_eq!(membership(50, 0, 100), 500_000);
    assert_eq!(membership(75, 0, 100), 250_000);
    assert_eq!(membership(100, 0, 100), 0);
}

#[test]
fn the_table_of_archetypes() {
    let ice = BiomeStats::from(BiomeType::IceCap);
    assert_eq!(ice.name, "Ice Cap");
    assert_eq!((ice.min_altitude, ice.max_altitude), (MIN_ALTITUDE, MAX_ALTITUDE));
    assert_eq!((ice.min_rainfall, ice.max_rainfall), (MIN_RAINFALL, MAX_RAINFALL));
    assert_eq!((ice.min_temperature, ice.max_temperature), (MIN_TEMPERATURE, -15 * ONE));
    let ocean = BiomeStats::from(BiomeType::Ocean);
    assert_eq!((ocean.min_altitude, ocean.max_altitude), (MIN_ALTITUDE, 0));
    assert_eq!((ocean.min_temperature, ocean.max_temperature), (-15 * ONE, MAX_TEMPERATURE));
    let grass = BiomeStats::from(BiomeType::Grassland);
    assert_eq!((grass.min_rainfall, grass.max_rainfall), (25 * ONE, 1_475 * ONE));
    assert_eq!((grass.min_temperature, grass.max_temperature), (-5 * ONE, MAX_TEMPERATURE));
    let forest = BiomeStats::from(BiomeType::Forest);
    assert_eq!((forest.min_rainfall, forest.max_rainfall), (975 * ONE, 2_475 * ONE));
    let taiga = BiomeStats::from(BiomeType::Taiga);
    assert_eq!((taiga.min_rainfall, taiga.max_rainfall), (475 * ONE, MAX_RAINFALL));
    assert_eq!((taiga.min_temperature, taiga.max_temperature), (-15 * ONE, 0));
    let tundra = BiomeStats::from(BiomeType::Tundra);
    assert_eq!((tundra.min_rainfall, tundra.max_rainfall), (MIN_RAINFALL, 725 * ONE));
    assert_eq!((tundra.min_temperature, tundra.max_temperature), (-20 * ONE, 0));
    let desert = BiomeStats::from(BiomeType::Desert);
    assert_eq!((desert.min_rainfall, desert.max_rainfall), (MIN_RAINFALL, 125 * ONE));
    let rainforest = BiomeStats::from(BiomeType::Rainforest);
    assert_eq!((rainforest.min_rainfall, rainforest.max_rainfall), (1_975 * ONE, MAX_RAINFALL));
    assert_eq!((rainforest.min_altitude, rainforest.max_altitude), (0, MAX_ALTITUDE));
}

#[test]
fn the_kinds_in_their_order() {
    assert_eq!(BiomeType::ITEM_COUNT, 8);
    assert_eq!(BiomeType::from_index(0), BiomeType::IceCap);
    assert_eq!(BiomeType::from_index(1), BiomeType::Ocean);
    assert_eq!(BiomeType::from_index(2), BiomeType::Grassland);
    assert_eq!(BiomeType::from_index(3), BiomeType::Forest);
    assert_eq!(BiomeType::from_index(4), BiomeType::Taiga);
    assert_eq!(BiomeType::from_index(5), BiomeType::Tundra);
    assert_eq!(BiomeType::from_index(6), BiomeType::Desert);
    assert_eq!(BiomeType::from_index(7), BiomeType::Rainforest);
}

#[test]
fn presence_is_the_sum_of_three_memberships() {
    let ocean = BiomeStats::from(BiomeType::Ocean);
    // Altitude in the middle of the range, rainfall at a quarter, temperature at its lower end.
    let score = presence(-7_500 * ONE, 3_250 * ONE, -15 * ONE, &ocean);
    assert_eq!(score, 500_000 + 250_000);
}

#[test]
fn presence_is_nothing_outside_any_range() {
    let ocean = BiomeStats::from(BiomeType::Ocean);
    assert_eq!(presence(1, 3_250 * ONE, 10 * ONE, &ocean), 0);
    assert_eq!(presence(-ONE, MAX_RAINFALL + 1, 10 * ONE, &ocean), 0);
    assert_eq!(presence(-ONE, 3_250 * ONE, -16 * ONE, &ocean), 0);
    assert!(presence(-ONE, 3_250 * ONE, 10 * ONE, &ocean) > 0);
}

#[test]
fn classify_lists_the_matching_kinds_with_weights_that_add_up_to_one() {
    // Warm lowland with moderate rain: grassland and forest overlap here.
    let presences = classify(1_000 * ONE, 1_200 * ONE, 20 * ONE);
    let kinds: Vec<BiomeType> = presences.iter().map(|entry| entry.0).collect();
    assert_eq!(kinds, vec![BiomeType::Grassland, BiomeType::Forest]);
    let sum: i64 = presences.iter().map(|entry| entry.1).sum();
    assert!(ONE <= sum && sum < ONE + presences.len() as i64);
    for entry in &presences {
        assert!(entry.1 > 0 && entry.1 <= ONE);
    }
    let grass = presence(1_000 * ONE, 1_200 * ONE, 20 * ONE, &BiomeStats::from(BiomeType::Grassland));
    let forest = presence(1_000 * ONE, 1_200 * ONE, 20 * ONE, &BiomeStats::from(BiomeType::Forest));
    let total = grass + forest;
    assert_eq!(presences[0].1, (grass * ONE + total - 1) / total);
    assert_eq!(presences[1].1, (forest * ONE + total - 1) / total);
}

#[test]
fn classify_of_a_single_match_has_weight_one() {
    // Cold deep sea: only the ice cap reaches below minus fifteen degrees.
    let presences = classify(-5_000 * ONE, 100 * ONE, -30 * ONE);
    assert_eq!(presences, vec![(BiomeType::IceCap, ONE)]);
}

#[test]
fn classify_is_empty_where_no_archetype_matches() {
    // Outside every altitude range.
    assert_eq!(classify(MAX_ALTITUDE + 1, 100 * ONE, 10 * ONE), vec![]);
}

#[test]
fn classify_every_listed_kind_holds_the_cell() {
    let cells = [
        (2_000 * ONE, 300 * ONE, -10 * ONE),
        (0, 0, 0),
        (-1, 2_000 * ONE, 25 * ONE),
        (14_000 * ONE, 12_000 * ONE, -34 * ONE),
        (500 * ONE, 2_200 * ONE, 5 * ONE),
    ];
    for (altitude, rainfall, temperature) in cells {
        let presences = classify(altitude, rainfall, temperature);
        let mut sum = 0;
        for (kind, weight) in &presences {
            let stats = BiomeStats::from(*kind);
            assert!(stats.contains(altitude, rainfall, temperature));
            assert!(*weight > 0);
            sum += *weight;
        }
        if !presences.is_empty() {
            assert!((sum - ONE).abs() <= 10);
        }
    }
}

#[test]
fn biome_presence_of_a_cell_is_the_listed_weight_or_nothing() {
    let mut cell = TerrainCell::new();
    cell.biome_presences = vec![(BiomeType::Forest, 600_000), (BiomeType::Taiga, 400_000)];
    assert_eq!(cell.biome_presence(BiomeType::Forest), 600_000);
    assert_eq!(cell.biome_presence(BiomeType::Taiga), 400_000);
    assert_eq!(cell.biome_presence(BiomeType::Ocean), 0);
    assert_eq!(TerrainCell::default().biome_presence(BiomeType::Ocean), 0);
}
