use planet::biome::BiomeType;
use planet::fixed::ONE;
use planet::restore::check_grid;
use planet::terrain_cell::TerrainCell;
use planet::world::{Recipe, World};

fn rows(width: usize, height: usize) -> Vec<Vec<TerrainCell>> {
    let mut terrain = Vec::new();
    for y in 0..height {
        let mut row = Vec::new();
        for x in 0..width {
            let mut cell = TerrainCell::new();
            cell.altitude = (x as i64 - y as i64) * ONE;
            cell.rainfall = (x + y) as i64 * ONE;
            cell.temperature = -(y as i64) * ONE;
            row.push(cell);
        }
        terrain.push(row);
    }
    terrain
}

fn no_recipe() -> Recipe {
    Recipe { continents: Vec::new(), octaves: Vec::new() }
}

#[test]
fn a_world_from_its_parts_knows_its_cells_and_its_extremes() {
    let world = World::from_parts(3, 2, 17, rows(3, 2), no_recipe()).unwrap();
    assert_eq!((world.width, world.height, world.seed), (3, 2, 17));
    for y in 0..2 {
        for x in 0..3 {
            let cell = &world.terrain[y][x];
            assert_eq!((cell.x, cell.y), (x, y));
            assert_eq!(cell.altitude, (x as i64 - y as i64) * ONE);
            assert_eq!(cell.rainfall, (x + y) as i64 * ONE);
        }
    }
    assert_eq!((world.min_altitude, world.max_altitude), (-ONE, 2 * ONE));
    assert_eq!((world.min_rainfall, world.max_rainfall), (0, 3 * ONE));
    assert_eq!((world.min_temperature, world.max_temperature), (-ONE, 0));
}

#[test]
fn cells_that_form_no_grid_make_no_world() {
    assert!(World::from_parts(3, 3, 0, rows(3, 2), no_recipe()).is_none());
    assert!(World::from_parts(2, 2, 0, rows(3, 2), no_recipe()).is_none());
    assert!(World::from_parts(0, 2, 0, rows(0, 2), no_recipe()).is_none());
    assert!(World::from_parts(3, 0, 0, rows(3, 0), no_recipe()).is_none());
    let mut ragged = rows(3, 2);
    let _ = ragged[1].pop();
    assert!(!check_grid(&ragged, 3, 2));
    assert!(World::from_parts(3, 2, 0, ragged, no_recipe()).is_none());
    assert!(check_grid(&rows(3, 2), 3, 2));
}

#[test]
fn a_generated_world_comes_back_from_its_parts() {
    let mut world = World::new(6, 4, 21);
    assert_eq!(world.generate(), Ok(()));
    let again = World::from_parts(6, 4, 21, world.terrain.clone(), world.recipe.clone()).unwrap();
    for y in 0..4 {
        for x in 0..6 {
            assert_eq!(again.terrain[y][x].altitude, world.terrain[y][x].altitude);
            assert_eq!(again.terrain[y][x].biome_presences, world.terrain[y][x].biome_presences);
        }
    }
    assert_eq!(again.max_altitude, world.max_altitude);
    assert_eq!(again.min_temperature, world.min_temperature);
}

#[test]
fn the_kinds_of_biome_listed_and_named() {
    let kinds = BiomeType::items();
    assert_eq!(kinds.len(), BiomeType::ITEM_COUNT);
    for (index, kind) in kinds.iter().enumerate() {
        assert_eq!(*kind, BiomeType::from_index(index));
    }
    let name: &'static str = BiomeType::IceCap.into();
    assert_eq!(name, "IceCap");
    let name: &'static str = BiomeType::Rainforest.into();
    assert_eq!(name, "Rainforest");
}
