//! The world: a grid of cells that wraps round in x, with the recipe from
//! which its terrain was made and the extremes of the terrain.

use crate::altitude::{offsets_bounded, MAX_ALTITUDE, MIN_ALTITUDE, OFFSET_RADIUS};
use crate::continents::{continents_in_reach, continents_wf, lemma_wf_in_reach, Continent};
use crate::extrema::Quantity;
use crate::fixed::ONE;
use crate::math_util::CartesianError;
use crate::rainfall::{MAX_RAINFALL, MIN_RAINFALL};
use crate::temperature::{MAX_TEMPERATURE, MIN_TEMPERATURE, TOTAL_OCTAVES};
use crate::terrain_cell::TerrainCell;
use crate::vector::Vec3;
use vstd::prelude::*;

verus! {

/// Why the generation of a world failed.
#[derive(Debug, Clone, Copy, PartialEq, Eq, Structural)]
pub enum WorldGenError {
    /// A row of the grid had no valid colatitude.
    CartesianError(CartesianError),
}

/// What the random stream decides of a world: where its continents lie and
/// round which centres the octaves of the noise field are sampled.
#[derive(Debug, Clone)]
pub struct Recipe {
    pub continents: Vec<Continent>,
    pub octaves: Vec<Vec3>,
}

/// Whether the list holds a centre for every octave, each near enough to
/// the origin for an octave to be sampled round it.
pub open spec fn octaves_ready(octaves: Seq<Vec3>) -> bool {
    &&& octaves.len() >= TOTAL_OCTAVES
    &&& offsets_bounded(octaves)
}

impl Recipe {
    /// The recipe is complete for a grid of the given size: it holds the
    /// configured number of continents, each well formed, and a centre for
    /// every octave, each in the ball of the offset radius round the origin.
    pub open spec fn wf(&self, width: int, height: int) -> bool {
        &&& continents_wf(self.continents@, width, height)
        &&& self.octaves@.len() == TOTAL_OCTAVES
        &&& offsets_bounded(self.octaves@)
        &&& forall|i: int|
            0 <= i < self.octaves@.len() ==> (#[trigger] self.octaves@[i]).within(
                OFFSET_RADIUS as int,
            )
    }

    /// Terrain can be computed from the recipe within the machine's numbers:
    /// every continent is in reach, and the octaves are ready.
    pub open spec fn usable(&self) -> bool {
        &&& continents_in_reach(self.continents@)
        &&& octaves_ready(self.octaves@)
    }

    /// A recipe that is complete for a grid is usable.
    pub proof fn lemma_wf_usable(&self, width: int, height: int)
        requires
            0 < width <= u32::MAX,
            0 < height <= u32::MAX,
            self.wf(width, height),
        ensures
            self.usable(),
    {
        assert forall|i: int| 0 <= i < self.continents@.len() implies (
        #[trigger] self.continents@[i]).in_reach() by {
            lemma_wf_in_reach(self.continents@[i], width, height);
        }
    }
}

/// A world.
#[derive(Debug, Clone)]
pub struct World {
    pub width: u32,
    pub height: u32,
    pub seed: u32,
    /// The cells, row by row: `terrain[y][x]` is the cell of column `x` in
    /// row `y`.
    pub terrain: Vec<Vec<TerrainCell>>,
    /// The recipe from which the terrain was made. Empty until then.
    pub recipe: Recipe,
    pub max_altitude: i64,
    pub min_altitude: i64,
    pub max_rainfall: i64,
    pub min_rainfall: i64,
    pub max_temperature: i64,
    pub min_temperature: i64,
}

impl World {
    /// The circumference that the width of the grid stands for, in
    /// kilometres.
    pub const CIRCUMFERENCE: u32 = 40075;

    /// The cell of column `x` in row `y`.
    pub open spec fn cell(&self, x: int, y: int) -> TerrainCell {
        self.terrain@[y]@[x]
    }

    /// The grid has the stated size, which is not zero in either direction,
    /// and every cell knows its place.
    pub open spec fn wf(&self) -> bool {
        &&& self.width > 0
        &&& self.height > 0
        &&& self.terrain@.len() == self.height
        &&& forall|y: int|
            0 <= y < self.height ==> (#[trigger] self.terrain@[y])@.len() == self.width
        &&& forall|x: int, y: int|
            0 <= x < self.width && 0 <= y < self.height ==> (#[trigger] self.cell(x, y)).x == x
                && self.cell(x, y).y == y
    }

    /// Every altitude of the grid lies in the range of altitudes of the
    /// model.
    pub open spec fn altitudes_within_bounds(&self) -> bool {
        forall|x: int, y: int|
            0 <= x < self.width && 0 <= y < self.height ==> MIN_ALTITUDE <= (#[trigger] self.cell(
                x,
                y,
            )).altitude <= MAX_ALTITUDE
    }

    /// Every altitude, rainfall and temperature of the grid lies in its range
    /// of the model.
    pub open spec fn within_bounds(&self) -> bool {
        forall|x: int, y: int|
            0 <= x < self.width && 0 <= y < self.height ==> {
                let cell = #[trigger] self.cell(x, y);
                &&& MIN_ALTITUDE <= cell.altitude <= MAX_ALTITUDE
                &&& MIN_RAINFALL <= cell.rainfall <= MAX_RAINFALL
                &&& MIN_TEMPERATURE <= cell.temperature <= MAX_TEMPERATURE
            }
    }

    /// Every cell of the grid is as `new` makes it, but for its place.
    pub open spec fn is_blank(&self) -> bool {
        forall|x: int, y: int|
            0 <= x < self.width && 0 <= y < self.height ==> {
                let cell = #[trigger] self.cell(x, y);
                &&& cell.altitude == 0
                &&& cell.rainfall == 0
                &&& cell.temperature == 0
                &&& cell.local_iteration == 0
                &&& cell.biome_presences@.len() == 0
                &&& cell.human_groups@.len() == 0
            }
    }

    /// The width of a cell at the equator as a part of a kilometre of the
    /// circumference: the width of the grid over the circumference.
    pub open spec fn cell_max_widht_spec(&self) -> int {
        (self.width * ONE) / (World::CIRCUMFERENCE as int)
    }

    /// Computes the width of a cell at the equator as a part of a kilometre
    /// of the circumference.
    #[must_use]
    pub fn cell_max_widht(&self) -> (r: i64)
        ensures
            r == self.cell_max_widht_spec(),
    {
        (self.width as i64) * ONE / (World::CIRCUMFERENCE as i64)
    }

    /// Makes a row of blank cells.
    fn blank_row(width: u32, y: usize) -> (row: Vec<TerrainCell>)
        ensures
            row@.len() == width,
            forall|x: int|
                0 <= x < width ==> {
                    let cell = #[trigger] row@[x];
                    &&& cell.x == x
                    &&& cell.y == y
                    &&& cell.altitude == 0
                    &&& cell.rainfall == 0
                    &&& cell.temperature == 0
                    &&& cell.local_iteration == 0
                    &&& cell.biome_presences@.len() == 0
                    &&& cell.human_groups@.len() == 0
                },
    {
        let mut row: Vec<TerrainCell> = Vec::new();
        let mut x: usize = 0;
        while x < width as usize
            invariant
                x <= width,
                row@.len() == x,
                forall|i: int|
                    0 <= i < x ==> {
                        let cell = #[trigger] row@[i];
                        &&& cell.x == i
                        &&& cell.y == y
                        &&& cell.altitude == 0
                        &&& cell.rainfall == 0
                        &&& cell.temperature == 0
                        &&& cell.local_iteration == 0
                        &&& cell.biome_presences@.len() == 0
                        &&& cell.human_groups@.len() == 0
                    },
            decreases width - x,
        {
            let mut cell = TerrainCell::new();
            cell.x = x;
            cell.y = y;
            row.push(cell);
            x = x + 1;
        }
        row
    }

    /// Makes a world of the given size with a blank grid: every altitude,
    /// rainfall and temperature is zero, no cell holds a biome, and there is
    /// no recipe yet. The extremes are those of the blank grid.
    pub fn new(width: u32, height: u32, seed: u32) -> (world: World)
        requires
            width > 0,
            height > 0,
        ensures
            world.wf(),
            world.width == width,
            world.height == height,
            world.seed == seed,
            world.is_blank(),
            world.recipe.continents@.len() == 0,
            world.recipe.octaves@.len() == 0,
            world.max_altitude == 0 && world.min_altitude == 0,
            world.max_rainfall == 0 && world.min_rainfall == 0,
            world.max_temperature == 0 && world.min_temperature == 0,
            world.within_bounds(),
            world.extrema_consistent(),
    {
        let mut terrain: Vec<Vec<TerrainCell>> = Vec::new();
        let mut y: usize = 0;
        while y < height as usize
            invariant
                y <= height,
                terrain@.len() == y,
                forall|j: int| 0 <= j < y ==> (#[trigger] terrain@[j])@.len() == width,
                forall|i: int, j: int|
                    0 <= i < width && 0 <= j < y ==> {
                        let cell = #[trigger] terrain@[j]@[i];
                        &&& cell.x == i
                        &&& cell.y == j
                        &&& cell.altitude == 0
                        &&& cell.rainfall == 0
                        &&& cell.temperature == 0
                        &&& cell.local_iteration == 0
                        &&& cell.biome_presences@.len() == 0
                        &&& cell.human_groups@.len() == 0
                    },
            decreases height - y,
        {
            let row = World::blank_row(width, y);
            terrain.push(row);
            y = y + 1;
        }
        let world = World {
            width,
            height,
            seed,
            terrain,
            recipe: Recipe { continents: Vec::new(), octaves: Vec::new() },
            max_altitude: 0,
            min_altitude: 0,
            max_rainfall: 0,
            min_rainfall: 0,
            max_temperature: 0,
            min_temperature: 0,
        };
        proof {
            assert(world.cell(0, 0).quantity_spec(Quantity::Altitude) == 0);
            assert(world.cell(0, 0).quantity_spec(Quantity::Rainfall) == 0);
            assert(world.cell(0, 0).quantity_spec(Quantity::Temperature) == 0);
        }
        world
    }

    /// Makes a world as `new` does, for a caller that generates it on
    /// another thread.
    pub fn async_new(width: u32, height: u32, seed: u32) -> (world: World)
        requires
            width > 0,
            height > 0,
        ensures
            world.wf(),
            world.width == width,
            world.height == height,
            world.seed == seed,
            world.is_blank(),
            world.recipe.continents@.len() == 0,
            world.recipe.octaves@.len() == 0,
            world.max_altitude == 0 && world.min_altitude == 0,
            world.max_rainfall == 0 && world.min_rainfall == 0,
            world.max_temperature == 0 && world.min_temperature == 0,
            world.within_bounds(),
            world.extrema_consistent(),
    {
        World::new(width, height, seed)
    }
}

} // verus!
