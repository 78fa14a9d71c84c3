//! The generation of a world's terrain.
//!
//! A recipe is drawn from the random stream of the world's seed. From the
//! recipe the terrain follows in four passes over the grid: altitude,
//! rainfall, temperature, biomes. Each pass reads only what earlier passes
//! have written, so that every cell's terrain is a function of the size of
//! the grid, the seed, the recipe and the cell's place.

use crate::altitude::{
    altitude_samples_spec, calculate_altitude, calculate_altitude_spec,
    lemma_calculate_altitude_bounds, longitude, longitude_spec, offsets_bounded, raw_altitude,
    raw_altitude_spec, sample_altitude_octaves, MAX_ALTITUDE, MIN_ALTITUDE, OFFSET_RADIUS,
};
use crate::biome::{
    classify, entries_view, lemma_presences_normalized, presences_spec, total_spec, BiomeType,
};
use crate::continents::{
    colatitude, colatitude_spec, continent_modifier, continent_modifier_spec, generate_continents,
    is_walk, Continent,
};
use crate::extrema::Quantity;
use crate::fixed::ONE;
use crate::math_util::{random_point_in_sphere, CartesianError};
use crate::rainfall::{
    above_sea_spec, lemma_rain_ignores_sea_depth, rain_latitude, rain_latitude_spec, rainfall_of,
    rainfall_spec, upwind_column, upwind_column_spec, upwind_row, upwind_row_spec, wind, wind_spec,
    Relief, MAX_RAINFALL, MIN_RAINFALL,
};
use crate::random::seeded_stream;
use crate::temperature::{
    heat_latitude, heat_latitude_spec, lemma_altitude_only_cools, temperature_of, temperature_spec,
    MAX_TEMPERATURE, MIN_TEMPERATURE, TOTAL_OCTAVES,
};
use crate::vector::Vec3;
use crate::world::{octaves_ready, Recipe, World, WorldGenError};
use rand::rngs::StdRng;
use vstd::prelude::*;

verus! {

/// The altitude of the cell `(x, y)` of a world of the given size and seed
/// made from the given continents and centres of octaves.
#[verifier::opaque]
pub open spec fn altitude_at_spec(
    width: int,
    height: int,
    seed: int,
    continents: Seq<Continent>,
    octaves: Seq<Vec3>,
    x: int,
    y: int,
) -> int {
    calculate_altitude_spec(
        raw_altitude_spec(
            continent_modifier_spec(continents, continents.len(), width, height, x, y),
            altitude_samples_spec(
                seed,
                colatitude_spec(y, height),
                longitude_spec(x, width),
                octaves,
            ),
        ),
    )
}

/// The relief that bears on the rainfall of the cell `(x, y)` of such a
/// world under the given wind.
pub open spec fn relief_at_spec(
    width: int,
    height: int,
    seed: int,
    continents: Seq<Continent>,
    octaves: Seq<Vec3>,
    x: int,
    y: int,
    wind: int,
) -> Relief {
    Relief {
        own: altitude_at_spec(width, height, seed, continents, octaves, x, y) as i64,
        near: altitude_at_spec(
            width,
            height,
            seed,
            continents,
            octaves,
            upwind_column_spec(x, width, wind, 20),
            y,
        ) as i64,
        middle: altitude_at_spec(
            width,
            height,
            seed,
            continents,
            octaves,
            upwind_column_spec(x, width, wind, 15),
            y,
        ) as i64,
        far: altitude_at_spec(
            width,
            height,
            seed,
            continents,
            octaves,
            upwind_column_spec(x, width, wind, 10),
            y,
        ) as i64,
        farthest: altitude_at_spec(
            width,
            height,
            seed,
            continents,
            octaves,
            upwind_column_spec(x, width, wind, 5),
            y,
        ) as i64,
        across: altitude_at_spec(
            width,
            height,
            seed,
            continents,
            octaves,
            x,
            upwind_row_spec(y, height, wind),
        ) as i64,
    }
}

/// The rainfall of the cell `(x, y)` of such a world.
#[verifier::opaque]
pub open spec fn rainfall_at_spec(
    width: int,
    height: int,
    seed: int,
    continents: Seq<Continent>,
    octaves: Seq<Vec3>,
    x: int,
    y: int,
) -> int {
    let latitude = rain_latitude_spec(
        seed,
        colatitude_spec(y, height),
        longitude_spec(x, width),
        octaves,
    );
    rainfall_spec(
        latitude,
        relief_at_spec(width, height, seed, continents, octaves, x, y, wind_spec(latitude)),
    )
}

/// The temperature of the cell `(x, y)` of such a world.
#[verifier::opaque]
pub open spec fn temperature_at_spec(
    width: int,
    height: int,
    seed: int,
    continents: Seq<Continent>,
    octaves: Seq<Vec3>,
    x: int,
    y: int,
) -> int {
    temperature_spec(
        heat_latitude_spec(seed, colatitude_spec(y, height), longitude_spec(x, width), octaves),
        altitude_at_spec(width, height, seed, continents, octaves, x, y),
    )
}

/// Every altitude of such a world lies in the range of altitudes of the
/// model.
pub proof fn lemma_altitude_at_bounds(
    width: int,
    height: int,
    seed: int,
    continents: Seq<Continent>,
    octaves: Seq<Vec3>,
    x: int,
    y: int,
)
    ensures
        MIN_ALTITUDE <= altitude_at_spec(width, height, seed, continents, octaves, x, y)
            <= MAX_ALTITUDE,
{
    reveal(altitude_at_spec);
    lemma_calculate_altitude_bounds(
        raw_altitude_spec(
            continent_modifier_spec(continents, continents.len(), width, height, x, y),
            altitude_samples_spec(
                seed,
                colatitude_spec(y, height),
                longitude_spec(x, width),
                octaves,
            ),
        ),
    );
}

/// Draws the recipe of a world of the given size from a random stream: first
/// the continents, then the centres of the octaves, each a random point of
/// the ball of the offset radius.
pub fn draw_recipe(rng: &mut StdRng, width: u32, height: u32) -> (recipe: Recipe)
    requires
        width > 0,
        height > 0,
    ensures
        recipe.wf(width as int, height as int),
        is_walk(recipe.continents@, width as int),
{
    let continents = generate_continents(rng, width, height);
    let mut octaves: Vec<Vec3> = Vec::new();
    let mut index: usize = 0;
    while index < TOTAL_OCTAVES
        invariant
            index <= TOTAL_OCTAVES,
            octaves@.len() == index,
            offsets_bounded(octaves@),
            forall|i: int|
                0 <= i < octaves@.len() ==> (#[trigger] octaves@[i]).within(OFFSET_RADIUS as int),
        decreases TOTAL_OCTAVES - index,
    {
        let centre = random_point_in_sphere(rng, OFFSET_RADIUS);
        octaves.push(centre);
        index = index + 1;
    }
    Recipe { continents, octaves }
}

/// The four passes of the generation, in their order.
#[derive(Debug, Clone, Copy, PartialEq, Eq, Structural)]
pub enum Phase {
    Altitude,
    Rainfall,
    Temperature,
    Biomes,
}

impl Phase {
    /// The number of passes.
    pub const ITEM_COUNT: usize = 4;

    /// The position of the pass in the order of the passes.
    pub open spec fn index(self) -> int {
        match self {
            Phase::Altitude => 0,
            Phase::Rainfall => 1,
            Phase::Temperature => 2,
            Phase::Biomes => 3,
        }
    }

    /// The pass that comes after this one, if any.
    pub open spec fn next_spec(self) -> Option<Phase> {
        match self {
            Phase::Altitude => Some(Phase::Rainfall),
            Phase::Rainfall => Some(Phase::Temperature),
            Phase::Temperature => Some(Phase::Biomes),
            Phase::Biomes => None,
        }
    }

    /// The pass that comes after this one, if any.
    pub fn next(self) -> (following: Option<Phase>)
        ensures
            following == self.next_spec(),
            following matches Some(phase) ==> phase.index() == self.index() + 1,
    {
        match self {
            Phase::Altitude => Some(Phase::Rainfall),
            Phase::Rainfall => Some(Phase::Temperature),
            Phase::Temperature => Some(Phase::Biomes),
            Phase::Biomes => None,
        }
    }

    /// The position of the pass in the order of the passes.
    pub fn position(self) -> (index: usize)
        ensures
            index == self.index(),
            index < Phase::ITEM_COUNT,
    {
        match self {
            Phase::Altitude => 0,
            Phase::Rainfall => 1,
            Phase::Temperature => 2,
            Phase::Biomes => 3,
        }
    }

    /// What the pass is doing, in words.
    pub fn label(self) -> (text: &'static str)
        ensures
            text == self.label_spec(),
    {
        match self {
            Phase::Altitude => "Generating altitude",
            Phase::Rainfall => "Generating rainfall",
            Phase::Temperature => "Generating temperature",
            Phase::Biomes => "Generating biomes",
        }
    }

    /// What the pass is doing, in words.
    pub open spec fn label_spec(self) -> &'static str {
        match self {
            Phase::Altitude => "Generating altitude",
            Phase::Rainfall => "Generating rainfall",
            Phase::Temperature => "Generating temperature",
            Phase::Biomes => "Generating biomes",
        }
    }
}

impl World {
    /// The altitude that the recipe gives the cell `(x, y)`.
    pub open spec fn altitude_spec(&self, x: int, y: int) -> int {
        altitude_at_spec(
            self.width as int,
            self.height as int,
            self.seed as int,
            self.recipe.continents@,
            self.recipe.octaves@,
            x,
            y,
        )
    }

    /// The rainfall that the recipe gives the cell `(x, y)`.
    pub open spec fn rainfall_spec(&self, x: int, y: int) -> int {
        rainfall_at_spec(
            self.width as int,
            self.height as int,
            self.seed as int,
            self.recipe.continents@,
            self.recipe.octaves@,
            x,
            y,
        )
    }

    /// The temperature that the recipe gives the cell `(x, y)`.
    pub open spec fn temperature_spec(&self, x: int, y: int) -> int {
        temperature_at_spec(
            self.width as int,
            self.height as int,
            self.seed as int,
            self.recipe.continents@,
            self.recipe.octaves@,
            x,
            y,
        )
    }

    /// The latitude that the rainfall of the cell `(x, y)` goes by.
    pub open spec fn rain_latitude_spec(&self, x: int, y: int) -> int {
        rain_latitude_spec(
            self.seed as int,
            colatitude_spec(y, self.height as int),
            longitude_spec(x, self.width as int),
            self.recipe.octaves@,
        )
    }

    /// The relief that bears on the rainfall of the cell `(x, y)` under the
    /// given wind, as the altitudes stand on the grid.
    pub open spec fn relief_spec(&self, x: int, y: int, wind: int) -> Relief {
        let width = self.width as int;
        Relief {
            own: self.cell(x, y).altitude,
            near: self.cell(upwind_column_spec(x, width, wind, 20), y).altitude,
            middle: self.cell(upwind_column_spec(x, width, wind, 15), y).altitude,
            far: self.cell(upwind_column_spec(x, width, wind, 10), y).altitude,
            farthest: self.cell(upwind_column_spec(x, width, wind, 5), y).altitude,
            across: self.cell(x, upwind_row_spec(y, self.height as int, wind)).altitude,
        }
    }

    /// The rainfall that goes with the altitudes on the grid at the cell
    /// `(x, y)`: that of the latitude that the cell's rain goes by and of
    /// the relief round the cell.
    #[verifier::opaque]
    pub open spec fn rainfall_from_grid(&self, x: int, y: int) -> int {
        rainfall_spec(
            self.rain_latitude_spec(x, y),
            self.relief_spec(x, y, wind_spec(self.rain_latitude_spec(x, y))),
        )
    }

    /// The temperature that goes with the altitude of the cell `(x, y)` on
    /// the grid.
    #[verifier::opaque]
    pub open spec fn temperature_from_grid(&self, x: int, y: int) -> int {
        temperature_spec(
            heat_latitude_spec(
                self.seed as int,
                colatitude_spec(y, self.height as int),
                longitude_spec(x, self.width as int),
                self.recipe.octaves@,
            ),
            self.cell(x, y).altitude as int,
        )
    }

    /// Whether the place `(x, y)` comes before the place `(column, row)` in
    /// the order of a pass over the grid, row by row.
    pub open spec fn before(x: int, y: int, column: int, row: int) -> bool {
        y < row || (y == row && x < column)
    }

    /// Every cell before the place `(column, row)` has the altitude that the
    /// recipe gives it.
    pub open spec fn altitudes_generated_to(&self, column: int, row: int) -> bool {
        forall|x: int, y: int|
            0 <= x < self.width && 0 <= y < self.height && World::before(x, y, column, row) ==> (
            #[trigger] self.cell(x, y)).altitude == self.altitude_spec(x, y)
    }

    /// Every cell before the place `(column, row)` has the rainfall that the
    /// recipe gives it.
    pub open spec fn rainfalls_generated_to(&self, column: int, row: int) -> bool {
        forall|x: int, y: int|
            0 <= x < self.width && 0 <= y < self.height && World::before(x, y, column, row) ==> (
            #[trigger] self.cell(x, y)).rainfall == self.rainfall_spec(x, y)
    }

    /// Every cell before the place `(column, row)` has the temperature that
    /// the recipe gives it.
    pub open spec fn temperatures_generated_to(&self, column: int, row: int) -> bool {
        forall|x: int, y: int|
            0 <= x < self.width && 0 <= y < self.height && World::before(x, y, column, row) ==> (
            #[trigger] self.cell(x, y)).temperature == self.temperature_spec(x, y)
    }

    /// Every cell before the place `(column, row)` has the rainfall that
    /// goes with the altitudes on the grid, which lies in the range of
    /// rainfalls of the model.
    pub open spec fn rainfalls_follow_to(&self, column: int, row: int) -> bool {
        forall|x: int, y: int|
            0 <= x < self.width && 0 <= y < self.height && World::before(x, y, column, row) ==> (
            #[trigger] self.cell(x, y)).rainfall == self.rainfall_from_grid(x, y) && MIN_RAINFALL
                <= self.cell(x, y).rainfall <= MAX_RAINFALL
    }

    /// Every cell before the place `(column, row)` has the temperature that
    /// goes with its altitude on the grid, which lies in the range of
    /// temperatures of the model.
    pub open spec fn temperatures_follow_to(&self, column: int, row: int) -> bool {
        forall|x: int, y: int|
            0 <= x < self.width && 0 <= y < self.height && World::before(x, y, column, row) ==> (
            #[trigger] self.cell(x, y)).temperature == self.temperature_from_grid(x, y)
                && MIN_TEMPERATURE <= self.cell(x, y).temperature <= MAX_TEMPERATURE
    }

    /// Every cell before the place `(column, row)` holds the biomes that go
    /// with its altitude, rainfall and temperature.
    pub open spec fn biomes_generated_to(&self, column: int, row: int) -> bool {
        forall|x: int, y: int|
            0 <= x < self.width && 0 <= y < self.height && World::before(x, y, column, row)
                ==> entries_view((#[trigger] self.cell(x, y)).biome_presences@) == presences_spec(
                self.cell(x, y).altitude as int,
                self.cell(x, y).rainfall as int,
                self.cell(x, y).temperature as int,
            )
    }

    /// Every cell of the grid has the rainfall that goes with the altitudes
    /// on the grid.
    pub open spec fn rainfalls_follow(&self) -> bool {
        self.rainfalls_follow_to(0, self.height as int)
    }

    /// Every cell of the grid has the temperature that goes with its
    /// altitude.
    pub open spec fn temperatures_follow(&self) -> bool {
        self.temperatures_follow_to(0, self.height as int)
    }

    /// Every cell of the grid holds the biomes that go with its altitude,
    /// rainfall and temperature.
    pub open spec fn biomes_classified(&self) -> bool {
        self.biomes_generated_to(0, self.height as int)
    }

    /// The terrain is the one that follows from the size of the grid, the
    /// seed and the recipe: every cell has the altitude, the rainfall and the
    /// temperature that the recipe gives it, and the biomes that go with
    /// them.
    pub open spec fn is_generated(&self) -> bool {
        &&& self.altitudes_generated_to(0, self.height as int)
        &&& self.rainfalls_generated_to(0, self.height as int)
        &&& self.temperatures_generated_to(0, self.height as int)
        &&& self.biomes_classified()
    }

    /// Whether this world has the size, the seed and the recipe of `old`.
    pub open spec fn same_setting(&self, old: &World) -> bool {
        &&& self.width == old.width
        &&& self.height == old.height
        &&& self.seed == old.seed
        &&& self.recipe == old.recipe
    }

    /// Whether every cell of this world holds what it holds in `old`, but
    /// for the given quantity.
    pub open spec fn only_changed(&self, old: &World, quantity: Quantity) -> bool {
        forall|x: int, y: int|
            0 <= x < self.width && 0 <= y < self.height ==> (#[trigger] self.cell(x, y)).same_but(
                &old.cell(x, y),
                quantity,
            )
    }

    /// Whether every cell of this world holds what it holds in `old`, but
    /// for its list of biomes.
    pub open spec fn only_biomes_changed(&self, old: &World) -> bool {
        forall|x: int, y: int|
            0 <= x < self.width && 0 <= y < self.height ==> (#[trigger] self.cell(
                x,
                y,
            )).same_but_biomes(&old.cell(x, y))
    }

    /// Whether this world and `old` hold the same cells, but for the cell
    /// `(x, y)`.
    pub open spec fn same_cells_but(&self, old: &World, x: int, y: int) -> bool {
        forall|i: int, j: int|
            0 <= i < self.width && 0 <= j < self.height && !(i == x && j == y) ==> (
            #[trigger] self.cell(i, j)) == old.cell(i, j)
    }

    /// A world keeps its shape when one cell changes and keeps its place.
    proof fn lemma_cell_changed(&self, old: &World, x: int, y: int)
        requires
            old.wf(),
            0 <= x < old.width,
            0 <= y < old.height,
            self.width == old.width,
            self.height == old.height,
            self.terrain@.len() == old.terrain@.len(),
            forall|j: int|
                0 <= j < self.height ==> (#[trigger] self.terrain@[j])@.len()
                    == old.terrain@[j]@.len(),
            self.same_cells_but(old, x, y),
            self.cell(x, y).x == old.cell(x, y).x,
            self.cell(x, y).y == old.cell(x, y).y,
        ensures
            self.wf(),
    {
        assert forall|i: int, j: int| 0 <= i < self.width && 0 <= j < self.height implies (
        #[trigger] self.cell(i, j)).x == i && self.cell(i, j).y == j by {
            assert(old.cell(i, j).x == i);
        }
    }

    /// Gives the cell `(x, y)` a value for the given quantity.
    fn set_quantity(&mut self, x: usize, y: usize, quantity: Quantity, value: i64)
        requires
            old(self).wf(),
            x < old(self).width,
            y < old(self).height,
        ensures
            final(self).wf(),
            final(self).same_setting(old(self)),
            final(self).same_extremes(old(self), Quantity::Altitude),
            final(self).same_extremes(old(self), Quantity::Rainfall),
            final(self).same_extremes(old(self), Quantity::Temperature),
            final(self).same_cells_but(old(self), x as int, y as int),
            final(self).cell(x as int, y as int).same_but(
                &old(self).cell(x as int, y as int),
                quantity,
            ),
            final(self).cell(x as int, y as int).quantity_spec(quantity) == value,
    {
        match quantity {
            Quantity::Altitude => {
                self.terrain[y][x].altitude = value;
            },
            Quantity::Rainfall => {
                self.terrain[y][x].rainfall = value;
            },
            Quantity::Temperature => {
                self.terrain[y][x].temperature = value;
            },
        }
        proof {
            self.lemma_cell_changed(old(self), x as int, y as int);
        }
    }

    /// Gives the cell `(x, y)` its biomes.
    fn set_biome_presences(&mut self, x: usize, y: usize, presences: Vec<(BiomeType, i64)>)
        requires
            old(self).wf(),
            x < old(self).width,
            y < old(self).height,
        ensures
            final(self).wf(),
            final(self).same_setting(old(self)),
            final(self).same_extremes(old(self), Quantity::Altitude),
            final(self).same_extremes(old(self), Quantity::Rainfall),
            final(self).same_extremes(old(self), Quantity::Temperature),
            final(self).same_cells_but(old(self), x as int, y as int),
            final(self).cell(x as int, y as int).same_but_biomes(
                &old(self).cell(x as int, y as int),
            ),
            final(self).cell(x as int, y as int).biome_presences == presences,
    {
        self.terrain[y][x].biome_presences = presences;
        proof {
            self.lemma_cell_changed(old(self), x as int, y as int);
        }
    }

    /// After one more cell has changed in one quantity, every cell holds
    /// what it held at the start of the pass, but for that quantity.
    proof fn lemma_step_only_changed(
        &self,
        before: &World,
        start: &World,
        x: int,
        y: int,
        quantity: Quantity,
    )
        requires
            self.width == before.width == start.width,
            self.height == before.height == start.height,
            0 <= x < self.width,
            0 <= y < self.height,
            before.only_changed(start, quantity),
            self.same_cells_but(before, x, y),
            self.cell(x, y).same_but(&before.cell(x, y), quantity),
        ensures
            self.only_changed(start, quantity),
            forall|other: Quantity|
                other != quantity ==> #[trigger] self.same_quantity(before, other),
    {
        assert forall|i: int, j: int| 0 <= i < self.width && 0 <= j < self.height implies (
        #[trigger] self.cell(i, j)).same_but(&start.cell(i, j), quantity) by {
            assert(before.cell(i, j).same_but(&start.cell(i, j), quantity));
            if !(i == x && j == y) {
                assert(self.cell(i, j) == before.cell(i, j));
            }
        }
        assert forall|other: Quantity| other != quantity implies #[trigger] self.same_quantity(
            before,
            other,
        ) by {
            assert forall|i: int, j: int| 0 <= i < self.width && 0 <= j < self.height implies (
            #[trigger] self.cell(i, j)).quantity_spec(other) == before.cell(i, j).quantity_spec(
                other,
            ) by {
                if !(i == x && j == y) {
                    assert(self.cell(i, j) == before.cell(i, j));
                }
            }
        }
    }

    /// A pass that changes the cells in one quantity alone leaves them
    /// agreeing with the start on the other quantities.
    pub proof fn lemma_only_changed_keeps(&self, old: &World, changed: Quantity, other: Quantity)
        requires
            self.width == old.width,
            self.height == old.height,
            self.only_changed(old, changed),
            other != changed,
        ensures
            self.same_quantity(old, other),
    {
        assert forall|x: int, y: int| 0 <= x < self.width && 0 <= y < self.height implies (
        #[trigger] self.cell(x, y)).quantity_spec(other) == old.cell(x, y).quantity_spec(
            other,
        ) by {
            assert(self.cell(x, y).same_but(&old.cell(x, y), changed));
        }
    }

    /// What goes with the altitudes on a grid is the same on every grid of
    /// the same setting whose cells have the same altitudes.
    pub proof fn lemma_from_grid_same(&self, other: &World, x: int, y: int)
        requires
            self.wf(),
            other.wf(),
            self.same_setting(other),
            self.same_quantity(other, Quantity::Altitude),
            0 <= x < self.width,
            0 <= y < self.height,
        ensures
            self.rainfall_from_grid(x, y) == other.rainfall_from_grid(x, y),
            self.temperature_from_grid(x, y) == other.temperature_from_grid(x, y),
    {
        reveal(World::rainfall_from_grid);
        reveal(World::temperature_from_grid);
        let wind = wind_spec(self.rain_latitude_spec(x, y));
        let width = self.width as int;
        let row = upwind_row_spec(y, self.height as int, wind);
        assert(self.cell(x, y).quantity_spec(Quantity::Altitude) == other.cell(
            x,
            y,
        ).quantity_spec(Quantity::Altitude));
        assert(self.cell(upwind_column_spec(x, width, wind, 20), y).quantity_spec(
            Quantity::Altitude,
        ) == other.cell(upwind_column_spec(x, width, wind, 20), y).quantity_spec(
            Quantity::Altitude,
        ));
        assert(self.cell(upwind_column_spec(x, width, wind, 15), y).quantity_spec(
            Quantity::Altitude,
        ) == other.cell(upwind_column_spec(x, width, wind, 15), y).quantity_spec(
            Quantity::Altitude,
        ));
        assert(self.cell(upwind_column_spec(x, width, wind, 10), y).quantity_spec(
            Quantity::Altitude,
        ) == other.cell(upwind_column_spec(x, width, wind, 10), y).quantity_spec(
            Quantity::Altitude,
        ));
        assert(self.cell(upwind_column_spec(x, width, wind, 5), y).quantity_spec(
            Quantity::Altitude,
        ) == other.cell(upwind_column_spec(x, width, wind, 5), y).quantity_spec(
            Quantity::Altitude,
        ));
        assert(self.cell(x, row).quantity_spec(Quantity::Altitude) == other.cell(
            x,
            row,
        ).quantity_spec(Quantity::Altitude));
        assert(self.relief_spec(x, y, wind) == other.relief_spec(x, y, wind));
    }

    /// Where the altitudes are those that the recipe gives, the rainfall and
    /// the temperature that go with the altitudes on the grid are those that
    /// the recipe gives.
    pub proof fn lemma_from_grid_is_generated(&self, x: int, y: int)
        requires
            self.wf(),
            self.altitudes_generated_to(0, self.height as int),
            0 <= x < self.width,
            0 <= y < self.height,
        ensures
            self.rainfall_from_grid(x, y) == self.rainfall_spec(x, y),
            self.temperature_from_grid(x, y) == self.temperature_spec(x, y),
    {
        reveal(World::rainfall_from_grid);
        reveal(World::temperature_from_grid);
        reveal(rainfall_at_spec);
        reveal(temperature_at_spec);
        let wind = wind_spec(self.rain_latitude_spec(x, y));
        let width = self.width as int;
        let row = upwind_row_spec(y, self.height as int, wind);
        assert(self.cell(x, y).altitude == self.altitude_spec(x, y));
        assert(self.cell(upwind_column_spec(x, width, wind, 20), y).altitude
            == self.altitude_spec(upwind_column_spec(x, width, wind, 20), y));
        assert(self.cell(upwind_column_spec(x, width, wind, 15), y).altitude
            == self.altitude_spec(upwind_column_spec(x, width, wind, 15), y));
        assert(self.cell(upwind_column_spec(x, width, wind, 10), y).altitude
            == self.altitude_spec(upwind_column_spec(x, width, wind, 10), y));
        assert(self.cell(upwind_column_spec(x, width, wind, 5), y).altitude == self.altitude_spec(
            upwind_column_spec(x, width, wind, 5),
            y,
        ));
        assert(self.cell(x, row).altitude == self.altitude_spec(x, row));
        assert(self.relief_spec(x, y, wind) == relief_at_spec(
            self.width as int,
            self.height as int,
            self.seed as int,
            self.recipe.continents@,
            self.recipe.octaves@,
            x,
            y,
            wind,
        ));
    }

    /// The depth of the sea does not bear on the rain: on two grids of one
    /// setting whose cells agree in how far they rise above the sea, the
    /// same rainfall goes with the altitudes at every cell.
    pub proof fn lemma_rain_ignores_sea_depth(&self, other: &World, x: int, y: int)
        requires
            self.wf(),
            other.wf(),
            self.same_setting(other),
            forall|i: int, j: int|
                0 <= i < self.width && 0 <= j < self.height ==> above_sea_spec(
                    (#[trigger] self.cell(i, j)).altitude as int,
                ) == above_sea_spec(other.cell(i, j).altitude as int),
            0 <= x < self.width,
            0 <= y < self.height,
        ensures
            self.rainfall_from_grid(x, y) == other.rainfall_from_grid(x, y),
    {
        reveal(World::rainfall_from_grid);
        let latitude = self.rain_latitude_spec(x, y);
        let wind = wind_spec(latitude);
        let width = self.width as int;
        let row = upwind_row_spec(y, self.height as int, wind);
        assert(above_sea_spec(self.cell(x, y).altitude as int) == above_sea_spec(
            other.cell(x, y).altitude as int,
        ));
        assert(above_sea_spec(self.cell(upwind_column_spec(x, width, wind, 20), y).altitude as int)
            == above_sea_spec(
            other.cell(upwind_column_spec(x, width, wind, 20), y).altitude as int,
        ));
        assert(above_sea_spec(self.cell(upwind_column_spec(x, width, wind, 15), y).altitude as int)
            == above_sea_spec(
            other.cell(upwind_column_spec(x, width, wind, 15), y).altitude as int,
        ));
        assert(above_sea_spec(self.cell(upwind_column_spec(x, width, wind, 10), y).altitude as int)
            == above_sea_spec(
            other.cell(upwind_column_spec(x, width, wind, 10), y).altitude as int,
        ));
        assert(above_sea_spec(self.cell(upwind_column_spec(x, width, wind, 5), y).altitude as int)
            == above_sea_spec(
            other.cell(upwind_column_spec(x, width, wind, 5), y).altitude as int,
        ));
        assert(above_sea_spec(self.cell(x, row).altitude as int) == above_sea_spec(
            other.cell(x, row).altitude as int,
        ));
        lemma_rain_ignores_sea_depth(
            latitude,
            self.relief_spec(x, y, wind),
            other.relief_spec(x, y, wind),
        );
    }

    /// The altitude only cools: on two grids of one setting, the cell that
    /// lies higher has no higher a temperature going with its altitude, and
    /// the same where the higher of the two lies at sea level or below.
    pub proof fn lemma_higher_land_is_colder(&self, other: &World, x: int, y: int)
        requires
            self.same_setting(other),
            self.cell(x, y).altitude <= other.cell(x, y).altitude,
        ensures
            self.temperature_from_grid(x, y) >= other.temperature_from_grid(x, y),
            other.cell(x, y).altitude <= 0 ==> self.temperature_from_grid(x, y)
                == other.temperature_from_grid(x, y),
    {
        reveal(World::temperature_from_grid);
        lemma_altitude_only_cools(
            heat_latitude_spec(
                self.seed as int,
                colatitude_spec(y, self.height as int),
                longitude_spec(x, self.width as int),
                self.recipe.octaves@,
            ),
            self.cell(x, y).altitude as int,
            other.cell(x, y).altitude as int,
        );
    }

    /// A world whose altitudes are those that its recipe gives has them all
    /// in the range of altitudes of the model.
    pub proof fn lemma_generated_altitudes_within_bounds(&self)
        requires
            self.altitudes_generated_to(0, self.height as int),
        ensures
            self.altitudes_within_bounds(),
    {
        assert forall|x: int, y: int| 0 <= x < self.width && 0 <= y < self.height implies MIN_ALTITUDE
            <= (#[trigger] self.cell(x, y)).altitude <= MAX_ALTITUDE by {
            lemma_altitude_at_bounds(
                self.width as int,
                self.height as int,
                self.seed as int,
                self.recipe.continents@,
                self.recipe.octaves@,
                x,
                y,
            );
        }
    }

    /// Computes the altitude that the recipe gives the cell `(x, y)`.
    pub fn compute_altitude(&self, x: usize, y: usize) -> (r: Result<i64, CartesianError>)
        requires
            self.wf(),
            self.recipe.usable(),
            x < self.width,
            y < self.height,
        ensures
            match r {
                Ok(altitude) => altitude == self.altitude_spec(x as int, y as int) && MIN_ALTITUDE
                    <= altitude <= MAX_ALTITUDE,
                Err(_) => false,
            },
    {
        reveal(altitude_at_spec);
        let alpha: i64 = colatitude(y, self.height);
        let beta: i64 = longitude(x, self.width);
        let samples = sample_altitude_octaves(self.seed, alpha, beta, &self.recipe.octaves)?;
        let continent: i64 = continent_modifier(
            &self.recipe.continents,
            self.width,
            self.height,
            x,
            y,
        );
        Ok(calculate_altitude(raw_altitude(continent, &samples)))
    }

    /// Reads the relief that bears on the rainfall of the cell `(x, y)`
    /// under the given wind.
    fn relief_at(&self, x: usize, y: usize, wind: i64) -> (relief: Relief)
        requires
            self.wf(),
            self.altitudes_within_bounds(),
            x < self.width,
            y < self.height,
            -ONE <= wind <= ONE,
        ensures
            relief == self.relief_spec(x as int, y as int, wind as int),
            relief.wf(),
    {
        let near: usize = upwind_column(x, self.width, wind, 20);
        let middle: usize = upwind_column(x, self.width, wind, 15);
        let far: usize = upwind_column(x, self.width, wind, 10);
        let farthest: usize = upwind_column(x, self.width, wind, 5);
        let across: usize = upwind_row(y, self.height, wind);
        proof {
            assert(MIN_ALTITUDE <= self.cell(x as int, y as int).altitude <= MAX_ALTITUDE);
            assert(MIN_ALTITUDE <= self.cell(near as int, y as int).altitude <= MAX_ALTITUDE);
            assert(MIN_ALTITUDE <= self.cell(middle as int, y as int).altitude <= MAX_ALTITUDE);
            assert(MIN_ALTITUDE <= self.cell(far as int, y as int).altitude <= MAX_ALTITUDE);
            assert(MIN_ALTITUDE <= self.cell(farthest as int, y as int).altitude <= MAX_ALTITUDE);
            assert(MIN_ALTITUDE <= self.cell(x as int, across as int).altitude <= MAX_ALTITUDE);
        }
        Relief {
            own: self.terrain[y][x].altitude,
            near: self.terrain[y][near].altitude,
            middle: self.terrain[y][middle].altitude,
            far: self.terrain[y][far].altitude,
            farthest: self.terrain[y][farthest].altitude,
            across: self.terrain[across][x].altitude,
        }
    }

    /// Computes the rainfall that goes with the altitudes on the grid at the
    /// cell `(x, y)`.
    pub fn compute_rainfall(&self, x: usize, y: usize) -> (r: Result<i64, CartesianError>)
        requires
            self.wf(),
            octaves_ready(self.recipe.octaves@),
            self.altitudes_within_bounds(),
            x < self.width,
            y < self.height,
        ensures
            match r {
                Ok(rainfall) => rainfall == self.rainfall_from_grid(x as int, y as int)
                    && MIN_RAINFALL <= rainfall <= MAX_RAINFALL,
                Err(_) => false,
            },
    {
        reveal(World::rainfall_from_grid);
        let alpha: i64 = colatitude(y, self.height);
        let beta: i64 = longitude(x, self.width);
        let latitude: i64 = rain_latitude(self.seed, alpha, beta, &self.recipe.octaves)?;
        let relief = self.relief_at(x, y, wind(latitude));
        Ok(rainfall_of(latitude, &relief))
    }

    /// Computes the temperature that goes with the altitude of the cell
    /// `(x, y)` on the grid.
    pub fn compute_temperature(&self, x: usize, y: usize) -> (r: Result<i64, CartesianError>)
        requires
            self.wf(),
            octaves_ready(self.recipe.octaves@),
            self.altitudes_within_bounds(),
            x < self.width,
            y < self.height,
        ensures
            match r {
                Ok(temperature) => temperature == self.temperature_from_grid(x as int, y as int)
                    && MIN_TEMPERATURE <= temperature <= MAX_TEMPERATURE,
                Err(_) => false,
            },
    {
        reveal(World::temperature_from_grid);
        let alpha: i64 = colatitude(y, self.height);
        let beta: i64 = longitude(x, self.width);
        let latitude: i64 = heat_latitude(self.seed, alpha, beta, &self.recipe.octaves)?;
        assert(MIN_ALTITUDE <= self.cell(x as int, y as int).altitude <= MAX_ALTITUDE);
        Ok(temperature_of(latitude, self.terrain[y][x].altitude))
    }

    /// The first pass: gives every cell the altitude that the recipe gives
    /// it, and keeps the extremes of the new altitudes. Nothing else on the
    /// grid changes. No row of a grid lacks a valid colatitude, so that the
    /// pass does not fail.
    pub fn generate_altitude(&mut self) -> (r: Result<(), CartesianError>)
        requires
            old(self).wf(),
            old(self).recipe.usable(),
        ensures
            r is Ok,
            final(self).wf(),
            final(self).same_setting(old(self)),
            final(self).only_changed(old(self), Quantity::Altitude),
            final(self).altitudes_generated_to(0, final(self).height as int),
            final(self).altitudes_within_bounds(),
            final(self).extremes_kept(Quantity::Altitude),
            final(self).same_extremes(old(self), Quantity::Rainfall),
            final(self).same_extremes(old(self), Quantity::Temperature),
    {
        let width: usize = self.width as usize;
        let height: usize = self.height as usize;
        let mut y: usize = 0;
        while y < height
            invariant
                y <= height,
                width == self.width,
                height == self.height,
                self.wf(),
                self.recipe.usable(),
                self.same_setting(old(self)),
                self.only_changed(old(self), Quantity::Altitude),
                self.same_extremes(old(self), Quantity::Rainfall),
                self.same_extremes(old(self), Quantity::Temperature),
                self.altitudes_generated_to(0, y as int),
            decreases height - y,
        {
            let mut x: usize = 0;
            while x < width
                invariant
                    x <= width,
                    y < height,
                    width == self.width,
                    height == self.height,
                    self.wf(),
                    self.recipe.usable(),
                    self.same_setting(old(self)),
                    self.only_changed(old(self), Quantity::Altitude),
                    self.same_extremes(old(self), Quantity::Rainfall),
                    self.same_extremes(old(self), Quantity::Temperature),
                    self.altitudes_generated_to(x as int, y as int),
                decreases width - x,
            {
                let altitude: i64 = match self.compute_altitude(x, y) {
                    Ok(altitude) => altitude,
                    Err(error) => {
                        return Err(error);
                    },
                };
                let ghost before = *self;
                self.set_quantity(x, y, Quantity::Altitude, altitude);
                proof {
                    self.lemma_step_only_changed(
                        &before,
                        old(self),
                        x as int,
                        y as int,
                        Quantity::Altitude,
                    );
                    assert forall|i: int, j: int|
                        0 <= i < self.width && 0 <= j < self.height && World::before(
                            i,
                            j,
                            x + 1,
                            y as int,
                        ) implies (#[trigger] self.cell(i, j)).altitude == self.altitude_spec(
                        i,
                        j,
                    ) by {
                        if !(i == x && j == y) {
                            assert(self.cell(i, j) == before.cell(i, j));
                        }
                    }
                }
                x = x + 1;
            }
            y = y + 1;
        }
        let ghost filled = *self;
        self.refresh_extremes(Quantity::Altitude);
        proof {
            assert forall|x: int, y: int|
                0 <= x < self.width && 0 <= y < self.height implies (#[trigger] self.cell(
                x,
                y,
            )).same_but(&old(self).cell(x, y), Quantity::Altitude) && self.cell(x, y).altitude
                == self.altitude_spec(x, y) by {
                assert(self.cell(x, y) == filled.cell(x, y));
                assert(filled.cell(x, y).same_but(&old(self).cell(x, y), Quantity::Altitude));
                assert(World::before(x, y, 0, filled.height as int));
            }
            self.lemma_generated_altitudes_within_bounds();
        }
        Ok(())
    }

    /// The second pass: gives every cell the rainfall that goes with the
    /// altitudes on the grid, and keeps the extremes of the new rainfalls.
    /// Nothing else on the grid changes.
    pub fn generate_rainfall(&mut self) -> (r: Result<(), CartesianError>)
        requires
            old(self).wf(),
            octaves_ready(old(self).recipe.octaves@),
            old(self).altitudes_within_bounds(),
        ensures
            r is Ok,
            final(self).wf(),
            final(self).same_setting(old(self)),
            final(self).only_changed(old(self), Quantity::Rainfall),
            final(self).rainfalls_follow(),
            final(self).extremes_kept(Quantity::Rainfall),
            final(self).same_extremes(old(self), Quantity::Altitude),
            final(self).same_extremes(old(self), Quantity::Temperature),
    {
        let width: usize = self.width as usize;
        let height: usize = self.height as usize;
        let mut y: usize = 0;
        while y < height
            invariant
                y <= height,
                width == self.width,
                height == self.height,
                self.wf(),
                octaves_ready(self.recipe.octaves@),
                self.altitudes_within_bounds(),
                self.same_setting(old(self)),
                self.only_changed(old(self), Quantity::Rainfall),
                self.same_extremes(old(self), Quantity::Altitude),
                self.same_extremes(old(self), Quantity::Temperature),
                self.rainfalls_follow_to(0, y as int),
            decreases height - y,
        {
            let mut x: usize = 0;
            while x < width
                invariant
                    x <= width,
                    y < height,
                    width == self.width,
                    height == self.height,
                    self.wf(),
                    octaves_ready(self.recipe.octaves@),
                    self.altitudes_within_bounds(),
                    self.same_setting(old(self)),
                    self.only_changed(old(self), Quantity::Rainfall),
                    self.same_extremes(old(self), Quantity::Altitude),
                    self.same_extremes(old(self), Quantity::Temperature),
                    self.rainfalls_follow_to(x as int, y as int),
                decreases width - x,
            {
                let rainfall: i64 = match self.compute_rainfall(x, y) {
                    Ok(rainfall) => rainfall,
                    Err(error) => {
                        return Err(error);
                    },
                };
                let ghost before = *self;
                self.set_quantity(x, y, Quantity::Rainfall, rainfall);
                proof {
                    self.lemma_step_only_changed(
                        &before,
                        old(self),
                        x as int,
                        y as int,
                        Quantity::Rainfall,
                    );
                    assert(self.same_quantity(&before, Quantity::Altitude));
                    assert forall|i: int, j: int|
                        0 <= i < self.width && 0 <= j < self.height implies MIN_ALTITUDE <= (
                    #[trigger] self.cell(i, j)).altitude <= MAX_ALTITUDE by {
                        assert(self.cell(i, j).quantity_spec(Quantity::Altitude) == before.cell(
                            i,
                            j,
                        ).quantity_spec(Quantity::Altitude));
                    }
                    assert forall|i: int, j: int|
                        0 <= i < self.width && 0 <= j < self.height && World::before(
                            i,
                            j,
                            x + 1,
                            y as int,
                        ) implies (#[trigger] self.cell(i, j)).rainfall == self.rainfall_from_grid(
                        i,
                        j,
                    ) && MIN_RAINFALL <= self.cell(i, j).rainfall <= MAX_RAINFALL by {
                        self.lemma_from_grid_same(&before, i, j);
                        if !(i == x && j == y) {
                            assert(self.cell(i, j) == before.cell(i, j));
                        }
                    }
                }
                x = x + 1;
            }
            y = y + 1;
        }
        let ghost filled = *self;
        self.refresh_extremes(Quantity::Rainfall);
        proof {
            assert forall|x: int, y: int|
                0 <= x < self.width && 0 <= y < self.height implies (#[trigger] self.cell(
                x,
                y,
            )).quantity_spec(Quantity::Altitude) == filled.cell(x, y).quantity_spec(
                Quantity::Altitude,
            ) by {
                assert(self.cell(x, y) == filled.cell(x, y));
            }
            assert forall|x: int, y: int|
                0 <= x < self.width && 0 <= y < self.height implies (#[trigger] self.cell(
                x,
                y,
            )).same_but(&old(self).cell(x, y), Quantity::Rainfall) && self.cell(x, y).rainfall
                == self.rainfall_from_grid(x, y) && MIN_RAINFALL <= self.cell(x, y).rainfall
                <= MAX_RAINFALL by {
                assert(self.cell(x, y) == filled.cell(x, y));
                assert(filled.cell(x, y).same_but(&old(self).cell(x, y), Quantity::Rainfall));
                assert(World::before(x, y, 0, filled.height as int));
                self.lemma_from_grid_same(&filled, x, y);
            }
        }
        Ok(())
    }

    /// The third pass: gives every cell the temperature that goes with its
    /// altitude on the grid, and keeps the extremes of the new
    /// temperatures. Nothing else on the grid changes.
    pub fn generate_temperature(&mut self) -> (r: Result<(), CartesianError>)
        requires
            old(self).wf(),
            octaves_ready(old(self).recipe.octaves@),
            old(self).altitudes_within_bounds(),
        ensures
            r is Ok,
            final(self).wf(),
            final(self).same_setting(old(self)),
            final(self).only_changed(old(self), Quantity::Temperature),
            final(self).temperatures_follow(),
            final(self).extremes_kept(Quantity::Temperature),
            final(self).same_extremes(old(self), Quantity::Altitude),
            final(self).same_extremes(old(self), Quantity::Rainfall),
    {
        let width: usize = self.width as usize;
        let height: usize = self.height as usize;
        let mut y: usize = 0;
        while y < height
            invariant
                y <= height,
                width == self.width,
                height == self.height,
                self.wf(),
                octaves_ready(self.recipe.octaves@),
                self.altitudes_within_bounds(),
                self.same_setting(old(self)),
                self.only_changed(old(self), Quantity::Temperature),
                self.same_extremes(old(self), Quantity::Altitude),
                self.same_extremes(old(self), Quantity::Rainfall),
                self.temperatures_follow_to(0, y as int),
            decreases height - y,
        {
            let mut x: usize = 0;
            while x < width
                invariant
                    x <= width,
                    y < height,
                    width == self.width,
                    height == self.height,
                    self.wf(),
                    octaves_ready(self.recipe.octaves@),
                    self.altitudes_within_bounds(),
                    self.same_setting(old(self)),
                    self.only_changed(old(self), Quantity::Temperature),
                    self.same_extremes(old(self), Quantity::Altitude),
                    self.same_extremes(old(self), Quantity::Rainfall),
                    self.temperatures_follow_to(x as int, y as int),
                decreases width - x,
            {
                let temperature: i64 = match self.compute_temperature(x, y) {
                    Ok(temperature) => temperature,
                    Err(error) => {
                        return Err(error);
                    },
                };
                let ghost before = *self;
                self.set_quantity(x, y, Quantity::Temperature, temperature);
                proof {
                    self.lemma_step_only_changed(
                        &before,
                        old(self),
                        x as int,
                        y as int,
                        Quantity::Temperature,
                    );
                    assert(self.same_quantity(&before, Quantity::Altitude));
                    assert forall|i: int, j: int|
                        0 <= i < self.width && 0 <= j < self.height implies MIN_ALTITUDE <= (
                    #[trigger] self.cell(i, j)).altitude <= MAX_ALTITUDE by {
                        assert(self.cell(i, j).quantity_spec(Quantity::Altitude) == before.cell(
                            i,
                            j,
                        ).quantity_spec(Quantity::Altitude));
                    }
                    assert forall|i: int, j: int|
                        0 <= i < self.width && 0 <= j < self.height && World::before(
                            i,
                            j,
                            x + 1,
                            y as int,
                        ) implies (#[trigger] self.cell(i, j)).temperature
                        == self.temperature_from_grid(i, j) && MIN_TEMPERATURE <= self.cell(
                        i,
                        j,
                    ).temperature <= MAX_TEMPERATURE by {
                        self.lemma_from_grid_same(&before, i, j);
                        if !(i == x && j == y) {
                            assert(self.cell(i, j) == before.cell(i, j));
                        }
                    }
                }
                x = x + 1;
            }
            y = y + 1;
        }
        let ghost filled = *self;
        self.refresh_extremes(Quantity::Temperature);
        proof {
            assert forall|x: int, y: int|
                0 <= x < self.width && 0 <= y < self.height implies (#[trigger] self.cell(
                x,
                y,
            )).quantity_spec(Quantity::Altitude) == filled.cell(x, y).quantity_spec(
                Quantity::Altitude,
            ) by {
                assert(self.cell(x, y) == filled.cell(x, y));
            }
            assert forall|x: int, y: int|
                0 <= x < self.width && 0 <= y < self.height implies (#[trigger] self.cell(
                x,
                y,
            )).same_but(&old(self).cell(x, y), Quantity::Temperature) && self.cell(x, y).temperature
                == self.temperature_from_grid(x, y) && MIN_TEMPERATURE <= self.cell(
                x,
                y,
            ).temperature <= MAX_TEMPERATURE by {
                assert(self.cell(x, y) == filled.cell(x, y));
                assert(filled.cell(x, y).same_but(&old(self).cell(x, y), Quantity::Temperature));
                assert(World::before(x, y, 0, filled.height as int));
                self.lemma_from_grid_same(&filled, x, y);
            }
        }
        Ok(())
    }

    /// The fourth pass: gives every cell the biomes that go with its
    /// altitude, rainfall and temperature. Nothing else changes.
    pub fn generate_biomes(&mut self)
        requires
            old(self).wf(),
        ensures
            final(self).wf(),
            final(self).same_setting(old(self)),
            final(self).only_biomes_changed(old(self)),
            final(self).biomes_classified(),
            final(self).same_extremes(old(self), Quantity::Altitude),
            final(self).same_extremes(old(self), Quantity::Rainfall),
            final(self).same_extremes(old(self), Quantity::Temperature),
    {
        let width: usize = self.width as usize;
        let height: usize = self.height as usize;
        let mut y: usize = 0;
        while y < height
            invariant
                y <= height,
                width == self.width,
                height == self.height,
                self.wf(),
                self.same_setting(old(self)),
                self.only_biomes_changed(old(self)),
                self.same_extremes(old(self), Quantity::Altitude),
                self.same_extremes(old(self), Quantity::Rainfall),
                self.same_extremes(old(self), Quantity::Temperature),
                self.biomes_generated_to(0, y as int),
            decreases height - y,
        {
            let mut x: usize = 0;
            while x < width
                invariant
                    x <= width,
                    y < height,
                    width == self.width,
                    height == self.height,
                    self.wf(),
                    self.same_setting(old(self)),
                    self.only_biomes_changed(old(self)),
                    self.same_extremes(old(self), Quantity::Altitude),
                    self.same_extremes(old(self), Quantity::Rainfall),
                    self.same_extremes(old(self), Quantity::Temperature),
                    self.biomes_generated_to(x as int, y as int),
                decreases width - x,
            {
                let presences = classify(
                    self.terrain[y][x].altitude,
                    self.terrain[y][x].rainfall,
                    self.terrain[y][x].temperature,
                );
                let ghost before = *self;
                self.set_biome_presences(x, y, presences);
                proof {
                    assert forall|i: int, j: int|
                        0 <= i < self.width && 0 <= j < self.height implies (#[trigger] self.cell(
                        i,
                        j,
                    )).same_but_biomes(&old(self).cell(i, j)) by {
                        assert(before.cell(i, j).same_but_biomes(&old(self).cell(i, j)));
                        if !(i == x && j == y) {
                            assert(self.cell(i, j) == before.cell(i, j));
                        }
                    }
                    assert forall|i: int, j: int|
                        0 <= i < self.width && 0 <= j < self.height && World::before(
                            i,
                            j,
                            x + 1,
                            y as int,
                        ) implies entries_view((#[trigger] self.cell(i, j)).biome_presences@)
                        == presences_spec(
                        self.cell(i, j).altitude as int,
                        self.cell(i, j).rainfall as int,
                        self.cell(i, j).temperature as int,
                    ) by {
                        if !(i == x && j == y) {
                            assert(self.cell(i, j) == before.cell(i, j));
                        }
                    }
                }
                x = x + 1;
            }
            y = y + 1;
        }
    }

    /// The altitude pass is done: every altitude is the one that the recipe
    /// gives and lies in the range of the model, and the extremes of the
    /// altitude are kept.
    pub open spec fn altitude_done(&self) -> bool {
        &&& self.altitudes_generated_to(0, self.height as int)
        &&& self.altitudes_within_bounds()
        &&& self.extremes_kept(Quantity::Altitude)
    }

    /// The rainfall pass is done: every rainfall goes with the altitudes on
    /// the grid, and the extremes of the rainfall are kept.
    pub open spec fn rainfall_done(&self) -> bool {
        &&& self.rainfalls_follow()
        &&& self.extremes_kept(Quantity::Rainfall)
    }

    /// The temperature pass is done: every temperature goes with the
    /// altitude of its cell, and the extremes of the temperature are kept.
    pub open spec fn temperature_done(&self) -> bool {
        &&& self.temperatures_follow()
        &&& self.extremes_kept(Quantity::Temperature)
    }

    /// The world is ready for the given pass: it is well formed, its recipe
    /// is usable, and the passes that come before the given one are done.
    pub open spec fn ready_for(&self, phase: Phase) -> bool {
        &&& self.wf()
        &&& self.recipe.usable()
        &&& phase != Phase::Altitude ==> self.altitude_done()
        &&& (phase == Phase::Temperature || phase == Phase::Biomes) ==> self.rainfall_done()
        &&& phase == Phase::Biomes ==> self.temperature_done()
    }

    /// All four passes are done.
    pub open spec fn finished(&self) -> bool {
        &&& self.wf()
        &&& self.recipe.usable()
        &&& self.altitude_done()
        &&& self.rainfall_done()
        &&& self.temperature_done()
        &&& self.biomes_classified()
    }

    /// Whether this world differs from `old` in nothing but what the given
    /// pass writes: one quantity of the cells and its extremes, or the
    /// lists of biomes.
    pub open spec fn changed_by(&self, old: &World, phase: Phase) -> bool {
        &&& self.same_setting(old)
        &&& match phase {
            Phase::Altitude => self.only_changed(old, Quantity::Altitude),
            Phase::Rainfall => self.only_changed(old, Quantity::Rainfall),
            Phase::Temperature => self.only_changed(old, Quantity::Temperature),
            Phase::Biomes => self.only_biomes_changed(old),
        }
        &&& phase != Phase::Altitude ==> self.same_extremes(old, Quantity::Altitude)
        &&& phase != Phase::Rainfall ==> self.same_extremes(old, Quantity::Rainfall)
        &&& phase != Phase::Temperature ==> self.same_extremes(old, Quantity::Temperature)
    }

    /// What a pass has done stays done while the cells keep the quantities
    /// that it rests on, and the world the extremes of the quantity that it
    /// wrote.
    pub proof fn lemma_done_stays(&self, old: &World)
        requires
            self.wf(),
            old.wf(),
            self.same_setting(old),
            self.same_quantity(old, Quantity::Altitude),
        ensures
            old.altitude_done() && self.same_extremes(old, Quantity::Altitude)
                ==> self.altitude_done(),
            old.rainfall_done() && self.same_extremes(old, Quantity::Rainfall)
                && self.same_quantity(old, Quantity::Rainfall) ==> self.rainfall_done(),
            old.temperature_done() && self.same_extremes(old, Quantity::Temperature)
                && self.same_quantity(old, Quantity::Temperature) ==> self.temperature_done(),
    {
        if old.altitude_done() && self.same_extremes(old, Quantity::Altitude) {
            self.lemma_extremes_stay(old, Quantity::Altitude);
            assert forall|x: int, y: int|
                0 <= x < self.width && 0 <= y < self.height implies (#[trigger] self.cell(
                x,
                y,
            )).altitude == self.altitude_spec(x, y) && MIN_ALTITUDE <= self.cell(x, y).altitude
                <= MAX_ALTITUDE by {
                assert(self.cell(x, y).quantity_spec(Quantity::Altitude) == old.cell(
                    x,
                    y,
                ).quantity_spec(Quantity::Altitude));
                assert(World::before(x, y, 0, old.height as int));
            }
        }
        if old.rainfall_done() && self.same_extremes(old, Quantity::Rainfall)
            && self.same_quantity(old, Quantity::Rainfall) {
            self.lemma_extremes_stay(old, Quantity::Rainfall);
            assert forall|x: int, y: int|
                0 <= x < self.width && 0 <= y < self.height implies (#[trigger] self.cell(
                x,
                y,
            )).rainfall == self.rainfall_from_grid(x, y) && MIN_RAINFALL <= self.cell(
                x,
                y,
            ).rainfall <= MAX_RAINFALL by {
                assert(self.cell(x, y).quantity_spec(Quantity::Rainfall) == old.cell(
                    x,
                    y,
                ).quantity_spec(Quantity::Rainfall));
                assert(World::before(x, y, 0, old.height as int));
                self.lemma_from_grid_same(old, x, y);
            }
        }
        if old.temperature_done() && self.same_extremes(old, Quantity::Temperature)
            && self.same_quantity(old, Quantity::Temperature) {
            self.lemma_extremes_stay(old, Quantity::Temperature);
            assert forall|x: int, y: int|
                0 <= x < self.width && 0 <= y < self.height implies (#[trigger] self.cell(
                x,
                y,
            )).temperature == self.temperature_from_grid(x, y) && MIN_TEMPERATURE
                <= self.cell(x, y).temperature <= MAX_TEMPERATURE by {
                assert(self.cell(x, y).quantity_spec(Quantity::Temperature) == old.cell(
                    x,
                    y,
                ).quantity_spec(Quantity::Temperature));
                assert(World::before(x, y, 0, old.height as int));
                self.lemma_from_grid_same(old, x, y);
            }
        }
    }

    /// A world on which all four passes are done holds the terrain that
    /// follows from its recipe, within the ranges of the model, and keeps
    /// the extremes of its grid.
    pub proof fn lemma_finished(&self)
        requires
            self.finished(),
        ensures
            self.is_generated(),
            self.within_bounds(),
            self.extrema_consistent(),
    {
        assert forall|x: int, y: int| 0 <= x < self.width && 0 <= y < self.height implies {
            let cell = #[trigger] self.cell(x, y);
            &&& cell.rainfall == self.rainfall_spec(x, y)
            &&& cell.temperature == self.temperature_spec(x, y)
            &&& MIN_ALTITUDE <= cell.altitude <= MAX_ALTITUDE
            &&& MIN_RAINFALL <= cell.rainfall <= MAX_RAINFALL
            &&& MIN_TEMPERATURE <= cell.temperature <= MAX_TEMPERATURE
        } by {
            assert(World::before(x, y, 0, self.height as int));
            self.lemma_from_grid_is_generated(x, y);
        }
    }

    /// Runs one pass of the generation on a world that is ready for it, and
    /// says which pass comes next, if any. The pass writes its own quantity
    /// and the extremes of it, or the lists of biomes, and nothing else.
    /// After the last pass the terrain is the one that follows from the
    /// recipe. No pass fails on a world that is ready for it.
    pub fn run_phase(&mut self, phase: Phase) -> (r: Result<Option<Phase>, WorldGenError>)
        requires
            old(self).ready_for(phase),
        ensures
            match r {
                Ok(next) => {
                    &&& next == phase.next_spec()
                    &&& final(self).changed_by(old(self), phase)
                    &&& match next {
                        Some(following) => final(self).ready_for(following),
                        None => final(self).finished(),
                    }
                },
                Err(_) => false,
            },
    {
        match phase {
            Phase::Altitude => {
                if let Err(error) = self.generate_altitude() {
                    return Err(WorldGenError::CartesianError(error));
                }
            },
            Phase::Rainfall => {
                if let Err(error) = self.generate_rainfall() {
                    return Err(WorldGenError::CartesianError(error));
                }
                proof {
                    self.lemma_only_changed_keeps(
                        old(self),
                        Quantity::Rainfall,
                        Quantity::Altitude,
                    );
                    self.lemma_done_stays(old(self));
                }
            },
            Phase::Temperature => {
                if let Err(error) = self.generate_temperature() {
                    return Err(WorldGenError::CartesianError(error));
                }
                proof {
                    self.lemma_only_changed_keeps(
                        old(self),
                        Quantity::Temperature,
                        Quantity::Altitude,
                    );
                    self.lemma_only_changed_keeps(
                        old(self),
                        Quantity::Temperature,
                        Quantity::Rainfall,
                    );
                    self.lemma_done_stays(old(self));
                }
            },
            Phase::Biomes => {
                self.generate_biomes();
                proof {
                    assert forall|x: int, y: int|
                        0 <= x < self.width && 0 <= y < self.height implies {
                        let cell = #[trigger] self.cell(x, y);
                        &&& cell.quantity_spec(Quantity::Altitude) == old(self).cell(
                            x,
                            y,
                        ).quantity_spec(Quantity::Altitude)
                        &&& cell.quantity_spec(Quantity::Rainfall) == old(self).cell(
                            x,
                            y,
                        ).quantity_spec(Quantity::Rainfall)
                        &&& cell.quantity_spec(Quantity::Temperature) == old(self).cell(
                            x,
                            y,
                        ).quantity_spec(Quantity::Temperature)
                    } by {
                        assert(self.cell(x, y).same_but_biomes(&old(self).cell(x, y)));
                    }
                    self.lemma_done_stays(old(self));
                }
            },
        }
        Ok(phase.next())
    }

    /// Runs the four passes in their order on a world that is ready for the
    /// first.
    fn run_passes(&mut self) -> (r: Result<(), WorldGenError>)
        requires
            old(self).ready_for(Phase::Altitude),
        ensures
            r is Ok,
            final(self).same_setting(old(self)),
            final(self).finished(),
    {
        let mut phase = Phase::Altitude;
        loop
            invariant
                self.ready_for(phase),
                self.same_setting(old(self)),
            ensures
                self.finished(),
                self.same_setting(old(self)),
            decreases Phase::ITEM_COUNT - phase.index(),
        {
            match self.run_phase(phase) {
                Ok(Some(following)) => {
                    phase = following;
                },
                Ok(None) => {
                    break ;
                },
                Err(error) => {
                    return Err(error);
                },
            }
        }
        Ok(())
    }

    /// Draws the recipe of the world from the random stream that the
    /// world's seed starts, keeps it, and says with which pass the
    /// generation begins. The grid stays as it is.
    pub fn prepare(&mut self) -> (phase: Phase)
        requires
            old(self).wf(),
        ensures
            phase == Phase::Altitude,
            final(self).ready_for(phase),
            final(self).width == old(self).width,
            final(self).height == old(self).height,
            final(self).seed == old(self).seed,
            final(self).terrain == old(self).terrain,
            final(self).recipe.wf(final(self).width as int, final(self).height as int),
            is_walk(final(self).recipe.continents@, final(self).width as int),
    {
        let mut rng = seeded_stream(self.seed as u64);
        let recipe = draw_recipe(&mut rng, self.width, self.height);
        proof {
            recipe.lemma_wf_usable(self.width as int, self.height as int);
        }
        self.recipe = recipe;
        assert forall|x: int, y: int| self.cell(x, y) == old(self).cell(x, y) by {}
        Phase::Altitude
    }

    /// Makes the terrain that follows from the given recipe: keeps the
    /// recipe and runs the four passes in their order, altitude, rainfall,
    /// temperature, biomes. The extremes are those of the finished grid.
    pub fn synthesize(&mut self, recipe: Recipe) -> (r: Result<(), WorldGenError>)
        requires
            old(self).wf(),
            recipe.usable(),
        ensures
            r is Ok,
            final(self).wf(),
            final(self).width == old(self).width,
            final(self).height == old(self).height,
            final(self).seed == old(self).seed,
            final(self).recipe == recipe,
            final(self).is_generated(),
            final(self).within_bounds(),
            final(self).extrema_consistent(),
    {
        self.recipe = recipe;
        assert forall|x: int, y: int| self.cell(x, y) == old(self).cell(x, y) by {}
        let r = self.run_passes();
        proof {
            self.lemma_finished();
        }
        r
    }

    /// Generates the terrain of the world: draws a recipe from the random
    /// stream that the world's seed starts, and makes the terrain that
    /// follows from it. What was on the grid before is overwritten. The
    /// generation of a well-formed world does not fail.
    pub fn generate(&mut self) -> (r: Result<(), WorldGenError>)
        requires
            old(self).wf(),
        ensures
            r is Ok,
            final(self).wf(),
            final(self).width == old(self).width,
            final(self).height == old(self).height,
            final(self).seed == old(self).seed,
            final(self).recipe.wf(final(self).width as int, final(self).height as int),
            is_walk(final(self).recipe.continents@, final(self).width as int),
            final(self).is_generated(),
            final(self).within_bounds(),
            final(self).extrema_consistent(),
    {
        let _ = self.prepare();
        let r = self.run_passes();
        proof {
            self.lemma_finished();
        }
        r
    }

    /// Two worlds of one size and one seed whose terrain follows from the
    /// same recipe have the same terrain: cell by cell the same altitude,
    /// rainfall and temperature and the same list of biomes.
    pub proof fn lemma_generation_deterministic(&self, other: &World)
        requires
            self.wf(),
            other.wf(),
            self.width == other.width,
            self.height == other.height,
            self.seed == other.seed,
            self.recipe.continents@ == other.recipe.continents@,
            self.recipe.octaves@ == other.recipe.octaves@,
            self.is_generated(),
            other.is_generated(),
        ensures
            forall|x: int, y: int|
                0 <= x < self.width && 0 <= y < self.height ==> {
                    let cell = #[trigger] self.cell(x, y);
                    &&& cell.altitude == other.cell(x, y).altitude
                    &&& cell.rainfall == other.cell(x, y).rainfall
                    &&& cell.temperature == other.cell(x, y).temperature
                    &&& entries_view(cell.biome_presences@) == entries_view(
                        other.cell(x, y).biome_presences@,
                    )
                },
    {
        assert forall|x: int, y: int| 0 <= x < self.width && 0 <= y < self.height implies {
            let cell = #[trigger] self.cell(x, y);
            &&& cell.altitude == other.cell(x, y).altitude
            &&& cell.rainfall == other.cell(x, y).rainfall
            &&& cell.temperature == other.cell(x, y).temperature
            &&& entries_view(cell.biome_presences@) == entries_view(
                other.cell(x, y).biome_presences@,
            )
        } by {
            assert(other.cell(x, y).altitude == other.altitude_spec(x, y));
            assert(other.cell(x, y).rainfall == other.rainfall_spec(x, y));
            assert(other.cell(x, y).temperature == other.temperature_spec(x, y));
            assert(entries_view(other.cell(x, y).biome_presences@) == presences_spec(
                other.cell(x, y).altitude as int,
                other.cell(x, y).rainfall as int,
                other.cell(x, y).temperature as int,
            ));
        }
    }

    /// A world whose terrain follows from its recipe has every altitude,
    /// rainfall and temperature in its range of the model.
    pub proof fn lemma_generated_within_bounds(&self)
        requires
            self.wf(),
            self.is_generated(),
        ensures
            self.within_bounds(),
    {
        reveal(rainfall_at_spec);
        reveal(temperature_at_spec);
        assert forall|x: int, y: int| 0 <= x < self.width && 0 <= y < self.height implies {
            let cell = #[trigger] self.cell(x, y);
            &&& MIN_ALTITUDE <= cell.altitude <= MAX_ALTITUDE
            &&& MIN_RAINFALL <= cell.rainfall <= MAX_RAINFALL
            &&& MIN_TEMPERATURE <= cell.temperature <= MAX_TEMPERATURE
        } by {
            lemma_altitude_at_bounds(
                self.width as int,
                self.height as int,
                self.seed as int,
                self.recipe.continents@,
                self.recipe.octaves@,
                x,
                y,
            );
        }
    }

    /// In a world whose cells hold the biomes that go with their altitude,
    /// rainfall and temperature, the biomes of every cell are normalised:
    /// every weight is above zero and at most one, every listed kind has the
    /// cell's altitude, rainfall and temperature within its ranges, no kind
    /// is listed twice, and the weights of a list that is not empty add up
    /// to at least one and to less than one plus a millionth for each entry.
    pub proof fn lemma_biomes_normalized(&self, x: int, y: int)
        requires
            self.biomes_classified(),
            0 <= x < self.width,
            0 <= y < self.height,
        ensures
            ({
                let cell = self.cell(x, y);
                let listed = entries_view(cell.biome_presences@);
                &&& listed.len() <= BiomeType::ITEM_COUNT
                &&& forall|i: int|
                    0 <= i < listed.len() ==> 0 < (#[trigger] listed[i]).1 <= ONE
                        && listed[i].0.ranges().contains(
                        cell.altitude as int,
                        cell.rainfall as int,
                        cell.temperature as int,
                    )
                &&& forall|i: int, j: int|
                    0 <= i < j < listed.len() ==> (#[trigger] listed[i]).0 != (
                    #[trigger] listed[j]).0
                &&& listed.len() > 0 ==> ONE <= total_spec(listed) < ONE + listed.len()
            }),
    {
        let cell = self.cell(x, y);
        lemma_presences_normalized(
            cell.altitude as int,
            cell.rainfall as int,
            cell.temperature as int,
        );
    }
}

} // verus!
