use planet::fixed::ONE;
use planet::neighbors::CompassDirection;
use planet::world::World;

fn coordinates(world: &World, x: usize, y: usize, direction: CompassDirection) -> Option<(usize, usize)> {
    world.cell_neighbors(x, y).get(direction).map(|cell| (cell.x, cell.y))
}

#[test]
fn west_of_the_first_column_lies_the_last() {
    let world = World::new(5, 4, 1);
    for y in 0..4 {
        assert_eq!(coordinates(&world, 0, y, CompassDirection::West), Some((4, y)));
        assert_eq!(world.neighbor_position(0, y, CompassDirection::West), Some((4, y)));
    }
}

#[test]
fn east_of_the_last_column_lies_the_first() {
    let world = World::new(5, 4, 1);
    for y in 0..4 {
        assert_eq!(coordinates(&world, 4, y, CompassDirection::East), Some((0, y)));
        assert_eq!(world.neighbor_position(4, y, CompassDirection::East), Some((0, y)));
    }
}

#[test]
fn a_cell_inside_the_grid_has_eight_neighbours() {
    let world = World::new(5, 4, 1);
    let neighbors = world.cell_neighbors(2, 1);
    assert_eq!(neighbors.len(), 8);
    assert_eq!(coordinates(&world, 2, 1, CompassDirection::North), Some((2, 2)));
    assert_eq!(coordinates(&world, 2, 1, CompassDirection::NorthEast), Some((3, 2)));
    assert_eq!(coordinates(&world, 2, 1, CompassDirection::East), Some((3, 1)));
    assert_eq!(coordinates(&world, 2, 1, CompassDirection::SouthEast), Some((3, 0)));
    assert_eq!(coordinates(&world, 2, 1, CompassDirection::South), Some((2, 0)));
    assert_eq!(coordinates(&world, 2, 1, CompassDirection::SouthWest), Some((1, 0)));
    assert_eq!(coordinates(&world, 2, 1, CompassDirection::West), Some((1, 1)));
    assert_eq!(coordinates(&world, 2, 1, CompassDirection::NorthWest), Some((1, 2)));
}

#[test]
fn the_first_and_the_last_row_have_five_neighbours() {
    let world = World::new(5, 4, 1);
    let bottom = world.cell_neighbors(2, 0);
    assert_eq!(bottom.len(), 5);
    assert!(bottom.get(CompassDirection::South).is_none());
    assert!(bottom.get(CompassDirection::SouthWest).is_none());
    assert!(bottom.get(CompassDirection::SouthEast).is_none());
    assert!(bottom.get(CompassDirection::North).is_some());
    let top = world.cell_neighbors(2, 3);
    assert_eq!(top.len(), 5);
    assert!(top.get(CompassDirection::North).is_none());
    assert!(top.get(CompassDirection::NorthWest).is_none());
    assert!(top.get(CompassDirection::NorthEast).is_none());
    assert!(top.get(CompassDirection::South).is_some());
}

#[test]
fn a_grid_of_one_column_is_its_own_neighbour() {
    let world = World::new(1, 3, 1);
    assert_eq!(coordinates(&world, 0, 1, CompassDirection::West), Some((0, 1)));
    assert_eq!(coordinates(&world, 0, 1, CompassDirection::East), Some((0, 1)));
    assert_eq!(coordinates(&world, 0, 1, CompassDirection::NorthEast), Some((0, 2)));
}

#[test]
fn a_grid_of_one_row_has_two_neighbours() {
    let world = World::new(4, 1, 1);
    let neighbors = world.cell_neighbors(1, 0);
    assert_eq!(neighbors.len(), 2);
    assert_eq!(coordinates(&world, 1, 0, CompassDirection::West), Some((0, 0)));
    assert_eq!(coordinates(&world, 1, 0, CompassDirection::East), Some((2, 0)));
}

#[test]
fn neighbours_carry_the_terrain_of_their_cells() {
    let mut world = World::new(3, 3, 1);
    world.terrain[1][0].altitude = 7 * ONE;
    world.terrain[2][2].altitude = -3 * ONE;
    let neighbors = world.cell_neighbors(1, 1);
    assert_eq!(neighbors.get(CompassDirection::West).map(|cell| cell.altitude), Some(7 * ONE));
    assert_eq!(neighbors.get(CompassDirection::NorthEast).map(|cell| cell.altitude), Some(-3 * ONE));
    assert_eq!(neighbors.get(CompassDirection::South).map(|cell| cell.altitude), Some(0));
}

fn synthetic(center: i64, rest: i64) -> World {
    let mut world = World::new(3, 3, 0);
    for y in 0..3 {
        for x in 0..3 {
            world.terrain[y][x].altitude = rest;
        }
    }
    world.terrain[1][1].altitude = center;
    world
}

#[test]
fn land_beside_the_sea_is_coastline() {
    let mut world = synthetic(100 * ONE, 50 * ONE);
    world.terrain[1][2].altitude = -50 * ONE;
    let center = world.terrain[1][1].clone();
    assert!(world.is_cell_coastline(&center));
    assert!(!world.is_cell_near_coastline(&center));
}

#[test]
fn land_among_land_is_no_coastline() {
    let world = synthetic(100 * ONE, 50 * ONE);
    let center = world.terrain[1][1].clone();
    assert!(!world.is_cell_coastline(&center));
}

#[test]
fn sea_beside_land_is_near_the_coastline() {
    let mut world = synthetic(-50 * ONE, -50 * ONE);
    world.terrain[0][1].altitude = 50 * ONE;
    let center = world.terrain[1][1].clone();
    assert!(world.is_cell_near_coastline(&center));
    assert!(!world.is_cell_coastline(&center));
}

#[test]
fn sea_among_sea_is_not_near_the_coastline() {
    let world = synthetic(-50 * ONE, -50 * ONE);
    let center = world.terrain[1][1].clone();
    assert!(!world.is_cell_near_coastline(&center));
}

#[test]
fn the_two_coastline_tests_look_from_one_side_each() {
    // A cell exactly at sea level is neither land on the coast nor sea off it.
    let mut world = synthetic(0, 50 * ONE);
    world.terrain[1][0].altitude = -50 * ONE;
    let center = world.terrain[1][1].clone();
    assert!(!world.is_cell_coastline(&center));
    assert!(!world.is_cell_near_coastline(&center));
    // A neighbour exactly at sea level counts for both.
    let mut land = synthetic(10 * ONE, 50 * ONE);
    land.terrain[2][1].altitude = 0;
    let center = land.terrain[1][1].clone();
    assert!(land.is_cell_coastline(&center));
    let mut sea = synthetic(-10 * ONE, -50 * ONE);
    sea.terrain[2][1].altitude = 0;
    let center = sea.terrain[1][1].clone();
    assert!(sea.is_cell_near_coastline(&center));
}

#[test]
fn the_coastline_wraps_round_the_grid() {
    let mut world = synthetic(50 * ONE, 50 * ONE);
    world.terrain[1][2].altitude = -50 * ONE;
    let first = world.terrain[1][0].clone();
    assert!(world.is_cell_coastline(&first));
}

#[test]
fn slant_of_a_cell_inside_the_grid() {
    let mut world = World::new(3, 3, 0);
    world.terrain[1][0].altitude = 90 * ONE; // west
    world.terrain[0][0].altitude = 30 * ONE; // south-west
    world.terrain[0][1].altitude = 60 * ONE; // south
    world.terrain[1][2].altitude = -30 * ONE; // east
    world.terrain[2][2].altitude = -60 * ONE; // north-east
    world.terrain[2][1].altitude = -90 * ONE; // north
    let center = world.terrain[1][1].clone();
    // Western side: the highest of 90, 30, 60 over three. Eastern side: the highest of
    // -30, -60, -90 over three.
    assert_eq!(world.get_slant(&center), 30 * ONE - (-10 * ONE));
}

#[test]
fn slant_on_the_first_row_counts_the_neighbours_that_are_there() {
    let mut world = World::new(3, 3, 0);
    world.terrain[0][0].altitude = 40 * ONE; // west of (1, 0)
    world.terrain[0][2].altitude = 10 * ONE; // east
    world.terrain[1][2].altitude = 70 * ONE; // north-east
    world.terrain[1][1].altitude = 20 * ONE; // north
    let cell = world.terrain[0][1].clone();
    // Western side: 40 over one neighbour. Eastern side: the highest of 10, 70, 20 over three,
    // rounded down.
    assert_eq!(world.get_slant(&cell), 40 * ONE - 23_333_333);
}

#[test]
fn a_flat_grid_has_no_slant() {
    for altitude in [-100 * ONE, 0, 250 * ONE] {
        let mut world = World::new(3, 3, 0);
        for y in 0..3 {
            for x in 0..3 {
                world.terrain[y][x].altitude = altitude;
            }
        }
        let center = world.terrain[1][1].clone();
        assert_eq!(world.get_slant(&center), 0);
    }
}

#[test]
fn slant_under_water_takes_both_sides_alike() {
    let mut world = World::new(3, 3, 0);
    for y in 0..3 {
        for x in 0..3 {
            world.terrain[y][x].altitude = -100 * ONE;
        }
    }
    world.terrain[1][0].altitude = -40 * ONE; // west
    world.terrain[1][2].altitude = -70 * ONE; // east
    let center = world.terrain[1][1].clone();
    // Western side: -40 over three. Eastern side: -70 over three. Both rounded down.
    assert_eq!(world.get_slant(&center), -13_333_334 - (-23_333_334));
}
