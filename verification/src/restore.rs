//! Putting a world together from its parts, as when a stored world is read
//! back.

use crate::terrain_cell::TerrainCell;
use crate::world::{Recipe, World};
use vstd::prelude::*;

verus! {

/// Whether the rows form a grid of the given size, which is not zero in
/// either direction.
pub open spec fn is_grid(terrain: Seq<Vec<TerrainCell>>, width: int, height: int) -> bool {
    &&& width > 0
    &&& height > 0
    &&& terrain.len() == height
    &&& forall|y: int| 0 <= y < terrain.len() ==> (#[trigger] terrain[y])@.len() == width
}

/// Whether two cells hold the same, but for their places.
pub open spec fn same_content(cell: TerrainCell, other: TerrainCell) -> bool {
    &&& cell.altitude == other.altitude
    &&& cell.rainfall == other.rainfall
    &&& cell.temperature == other.temperature
    &&& cell.local_iteration == other.local_iteration
    &&& cell.biome_presences == other.biome_presences
    &&& cell.human_groups == other.human_groups
}

/// Whether the rows form a grid of the given size.
pub fn check_grid(terrain: &Vec<Vec<TerrainCell>>, width: u32, height: u32) -> (ok: bool)
    ensures
        ok == is_grid(terrain@, width as int, height as int),
{
    if width == 0 || height == 0 || terrain.len() != height as usize {
        return false;
    }
    let mut y: usize = 0;
    while y < terrain.len()
        invariant
            y <= terrain@.len(),
            forall|j: int| 0 <= j < y ==> (#[trigger] terrain@[j])@.len() == width,
        decreases terrain@.len() - y,
    {
        if terrain[y].len() != width as usize {
            return false;
        }
        y = y + 1;
    }
    true
}

/// Tells every cell of a grid its place.
fn place_cells(terrain: &mut Vec<Vec<TerrainCell>>, width: u32, height: u32)
    requires
        is_grid(old(terrain)@, width as int, height as int),
    ensures
        is_grid(final(terrain)@, width as int, height as int),
        forall|x: int, y: int|
            0 <= x < width && 0 <= y < height ==> {
                let cell = #[trigger] final(terrain)@[y]@[x];
                &&& cell.x == x
                &&& cell.y == y
                &&& same_content(cell, old(terrain)@[y]@[x])
            },
{
    let mut y: usize = 0;
    while y < height as usize
        invariant
            y <= height,
            is_grid(terrain@, width as int, height as int),
            forall|i: int, j: int|
                0 <= i < width && 0 <= j < height ==> same_content(
                    #[trigger] terrain@[j]@[i],
                    old(terrain)@[j]@[i],
                ),
            forall|i: int, j: int|
                0 <= i < width && 0 <= j < y ==> (#[trigger] terrain@[j]@[i]).x == i
                    && terrain@[j]@[i].y == j,
        decreases height - y,
    {
        let mut x: usize = 0;
        while x < width as usize
            invariant
                x <= width,
                y < height,
                is_grid(terrain@, width as int, height as int),
                forall|i: int, j: int|
                    0 <= i < width && 0 <= j < height ==> same_content(
                        #[trigger] terrain@[j]@[i],
                        old(terrain)@[j]@[i],
                    ),
                forall|i: int, j: int|
                    0 <= i < width && 0 <= j < height && World::before(i, j, x as int, y as int)
                        ==> (#[trigger] terrain@[j]@[i]).x == i && terrain@[j]@[i].y == j,
            decreases width - x,
        {
            let ghost before = terrain@;
            assert(before[y as int]@.len() == width);
            terrain[y][x].x = x;
            terrain[y][x].y = y;
            proof {
                assert forall|j: int| 0 <= j < terrain@.len() implies (#[trigger] terrain@[j])@.len()
                    == width by {
                    assert(before[j]@.len() == width);
                }
                assert forall|i: int, j: int| 0 <= i < width && 0 <= j < height implies same_content(
                    #[trigger] terrain@[j]@[i],
                    old(terrain)@[j]@[i],
                ) by {
                    assert(same_content(before[j]@[i], old(terrain)@[j]@[i]));
                }
                assert forall|i: int, j: int|
                    0 <= i < width && 0 <= j < height && World::before(
                        i,
                        j,
                        x + 1,
                        y as int,
                    ) implies (#[trigger] terrain@[j]@[i]).x == i && terrain@[j]@[i].y == j by {
                    if !(i == x && j == y) {
                        assert(before[j]@[i].x == i);
                    }
                }
            }
            x = x + 1;
        }
        y = y + 1;
    }
}

impl World {
    /// Puts a world together from its size, its seed, its cells and its
    /// recipe. Where the cells form a grid of the stated size, the world
    /// holds them as they are given, each told its place, and keeps the
    /// extremes of that grid. Where they form none, there is no world.
    pub fn from_parts(
        width: u32,
        height: u32,
        seed: u32,
        terrain: Vec<Vec<TerrainCell>>,
        recipe: Recipe,
    ) -> (r: Option<World>)
        ensures
            match r {
                Some(world) => {
                    &&& is_grid(terrain@, width as int, height as int)
                    &&& world.wf()
                    &&& world.width == width
                    &&& world.height == height
                    &&& world.seed == seed
                    &&& world.recipe == recipe
                    &&& forall|x: int, y: int|
                        0 <= x < width && 0 <= y < height ==> same_content(
                            #[trigger] world.cell(x, y),
                            terrain@[y]@[x],
                        )
                    &&& world.extrema_consistent()
                },
                None => !is_grid(terrain@, width as int, height as int),
            },
    {
        if !check_grid(&terrain, width, height) {
            return None;
        }
        let mut cells = terrain;
        place_cells(&mut cells, width, height);
        let mut world = World {
            width,
            height,
            seed,
            terrain: cells,
            recipe,
            max_altitude: 0,
            min_altitude: 0,
            max_rainfall: 0,
            min_rainfall: 0,
            max_temperature: 0,
            min_temperature: 0,
        };
        let ghost placed = world;
        assert forall|x: int, y: int| 0 <= x < width && 0 <= y < height implies (
        #[trigger] world.cell(x, y)).x == x && world.cell(x, y).y == y by {
            assert(world.cell(x, y) == world.terrain@[y]@[x]);
        }
        world.update_extrema();
        proof {
            assert forall|x: int, y: int| 0 <= x < width && 0 <= y < height implies same_content(
                #[trigger] world.cell(x, y),
                terrain@[y]@[x],
            ) by {
                assert(world.cell(x, y) == placed.terrain@[y]@[x]);
            }
        }
        Some(world)
    }
}

} // verus!
