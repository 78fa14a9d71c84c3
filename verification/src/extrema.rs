//! The extremes of the terrain: the lowest and the highest altitude, rainfall
//! and temperature of the grid, found by a scan over the grid.

use crate::terrain_cell::TerrainCell;
use crate::world::World;
use vstd::prelude::*;

verus! {

/// The three quantities of which a world keeps the extremes.
#[derive(Debug, Clone, Copy, PartialEq, Eq, Structural)]
pub enum Quantity {
    Altitude,
    Rainfall,
    Temperature,
}

impl TerrainCell {
    /// What the cell holds of the given quantity.
    pub open spec fn quantity_spec(&self, quantity: Quantity) -> i64 {
        match quantity {
            Quantity::Altitude => self.altitude,
            Quantity::Rainfall => self.rainfall,
            Quantity::Temperature => self.temperature,
        }
    }

    /// Whether the cell holds what `other` holds, but for the given
    /// quantity.
    pub open spec fn same_but(&self, other: &TerrainCell, quantity: Quantity) -> bool {
        &&& self.x == other.x
        &&& self.y == other.y
        &&& self.local_iteration == other.local_iteration
        &&& self.biome_presences == other.biome_presences
        &&& self.human_groups == other.human_groups
        &&& quantity != Quantity::Altitude ==> self.altitude == other.altitude
        &&& quantity != Quantity::Rainfall ==> self.rainfall == other.rainfall
        &&& quantity != Quantity::Temperature ==> self.temperature == other.temperature
    }

    /// Whether the cell holds what `other` holds, but for its list of
    /// biomes.
    pub open spec fn same_but_biomes(&self, other: &TerrainCell) -> bool {
        &&& self.x == other.x
        &&& self.y == other.y
        &&& self.local_iteration == other.local_iteration
        &&& self.human_groups == other.human_groups
        &&& self.altitude == other.altitude
        &&& self.rainfall == other.rainfall
        &&& self.temperature == other.temperature
    }

    /// What the cell holds of the given quantity.
    pub fn quantity(&self, quantity: Quantity) -> (value: i64)
        ensures
            value == self.quantity_spec(quantity),
    {
        match quantity {
            Quantity::Altitude => self.altitude,
            Quantity::Rainfall => self.rainfall,
            Quantity::Temperature => self.temperature,
        }
    }
}

impl World {
    /// Whether `value` is the least that any cell of the grid holds of the
    /// given quantity: no cell holds less, and some cell holds just that.
    pub open spec fn is_lowest(&self, quantity: Quantity, value: int) -> bool {
        &&& forall|x: int, y: int|
            0 <= x < self.width && 0 <= y < self.height ==> value <= (#[trigger] self.cell(
                x,
                y,
            )).quantity_spec(quantity)
        &&& exists|x: int, y: int|
            0 <= x < self.width && 0 <= y < self.height && (#[trigger] self.cell(
                x,
                y,
            )).quantity_spec(quantity) == value
    }

    /// Whether `value` is the most that any cell of the grid holds of the
    /// given quantity: no cell holds more, and some cell holds just that.
    pub open spec fn is_highest(&self, quantity: Quantity, value: int) -> bool {
        &&& forall|x: int, y: int|
            0 <= x < self.width && 0 <= y < self.height ==> value >= (#[trigger] self.cell(
                x,
                y,
            )).quantity_spec(quantity)
        &&& exists|x: int, y: int|
            0 <= x < self.width && 0 <= y < self.height && (#[trigger] self.cell(
                x,
                y,
            )).quantity_spec(quantity) == value
    }

    /// The lower extreme that the world keeps of the given quantity.
    pub open spec fn lowest_kept(&self, quantity: Quantity) -> i64 {
        match quantity {
            Quantity::Altitude => self.min_altitude,
            Quantity::Rainfall => self.min_rainfall,
            Quantity::Temperature => self.min_temperature,
        }
    }

    /// The upper extreme that the world keeps of the given quantity.
    pub open spec fn highest_kept(&self, quantity: Quantity) -> i64 {
        match quantity {
            Quantity::Altitude => self.max_altitude,
            Quantity::Rainfall => self.max_rainfall,
            Quantity::Temperature => self.max_temperature,
        }
    }

    /// Whether this world keeps the extremes that `old` keeps of the given
    /// quantity.
    pub open spec fn same_extremes(&self, old: &World, quantity: Quantity) -> bool {
        &&& self.lowest_kept(quantity) == old.lowest_kept(quantity)
        &&& self.highest_kept(quantity) == old.highest_kept(quantity)
    }

    /// The extremes that the world keeps of the given quantity are those of
    /// its grid.
    pub open spec fn extremes_kept(&self, quantity: Quantity) -> bool {
        &&& self.is_lowest(quantity, self.lowest_kept(quantity) as int)
        &&& self.is_highest(quantity, self.highest_kept(quantity) as int)
    }

    /// The extremes that the world keeps are those of its grid.
    pub open spec fn extrema_consistent(&self) -> bool {
        &&& self.extremes_kept(Quantity::Altitude)
        &&& self.extremes_kept(Quantity::Rainfall)
        &&& self.extremes_kept(Quantity::Temperature)
    }

    /// Whether this world and `other` have grids of one size whose cells
    /// agree on the given quantity.
    pub open spec fn same_quantity(&self, other: &World, quantity: Quantity) -> bool {
        &&& self.width == other.width
        &&& self.height == other.height
        &&& forall|x: int, y: int|
            0 <= x < self.width && 0 <= y < self.height ==> (#[trigger] self.cell(
                x,
                y,
            )).quantity_spec(quantity) == other.cell(x, y).quantity_spec(quantity)
    }

    /// What is the least and the most of a quantity on one grid is so on
    /// every grid whose cells agree with it on that quantity.
    pub proof fn lemma_extremes_carry(&self, other: &World, quantity: Quantity, low: int, high: int)
        requires
            self.same_quantity(other, quantity),
            other.is_lowest(quantity, low),
            other.is_highest(quantity, high),
        ensures
            self.is_lowest(quantity, low),
            self.is_highest(quantity, high),
    {
        let (x, y) = choose|x: int, y: int|
            0 <= x < other.width && 0 <= y < other.height && (#[trigger] other.cell(
                x,
                y,
            )).quantity_spec(quantity) == low;
        assert(self.cell(x, y).quantity_spec(quantity) == low);
        let (i, j) = choose|i: int, j: int|
            0 <= i < other.width && 0 <= j < other.height && (#[trigger] other.cell(
                i,
                j,
            )).quantity_spec(quantity) == high;
        assert(self.cell(i, j).quantity_spec(quantity) == high);
        assert forall|x: int, y: int| 0 <= x < self.width && 0 <= y < self.height implies low <= (
        #[trigger] self.cell(x, y)).quantity_spec(quantity) <= high by {
            assert(other.cell(x, y).quantity_spec(quantity) == self.cell(x, y).quantity_spec(
                quantity,
            ));
        }
    }

    /// Extremes that are kept stay those of the grid while the cells keep
    /// what they hold of the quantity.
    pub proof fn lemma_extremes_stay(&self, old: &World, quantity: Quantity)
        requires
            self.same_quantity(old, quantity),
            self.same_extremes(old, quantity),
            old.extremes_kept(quantity),
        ensures
            self.extremes_kept(quantity),
    {
        self.lemma_extremes_carry(
            old,
            quantity,
            old.lowest_kept(quantity) as int,
            old.highest_kept(quantity) as int,
        );
    }

    /// Finds the least and the most that any cell of the grid holds of the
    /// given quantity.
    pub fn range_of(&self, quantity: Quantity) -> (range: (i64, i64))
        requires
            self.wf(),
        ensures
            self.is_lowest(quantity, range.0 as int),
            self.is_highest(quantity, range.1 as int),
    {
        let width: usize = self.width as usize;
        let height: usize = self.height as usize;
        let mut lowest: i64 = self.terrain[0][0].quantity(quantity);
        let mut highest: i64 = lowest;
        let ghost mut lowest_at: (int, int) = (0, 0);
        let ghost mut highest_at: (int, int) = (0, 0);
        let mut y: usize = 0;
        while y < height
            invariant
                y <= height,
                width == self.width,
                height == self.height,
                self.wf(),
                forall|i: int, j: int|
                    0 <= i < self.width && 0 <= j < y ==> lowest <= (#[trigger] self.cell(
                        i,
                        j,
                    )).quantity_spec(quantity) <= highest,
                0 <= lowest_at.0 < self.width && 0 <= lowest_at.1 < self.height,
                0 <= highest_at.0 < self.width && 0 <= highest_at.1 < self.height,
                self.cell(lowest_at.0, lowest_at.1).quantity_spec(quantity) == lowest,
                self.cell(highest_at.0, highest_at.1).quantity_spec(quantity) == highest,
            decreases height - y,
        {
            let mut x: usize = 0;
            while x < width
                invariant
                    x <= width,
                    y < height,
                    width == self.width,
                    height == self.height,
                    self.wf(),
                    forall|i: int, j: int|
                        0 <= i < self.width && 0 <= j < self.height && World::before(
                            i,
                            j,
                            x as int,
                            y as int,
                        ) ==> lowest <= (#[trigger] self.cell(i, j)).quantity_spec(quantity)
                            <= highest,
                    0 <= lowest_at.0 < self.width && 0 <= lowest_at.1 < self.height,
                    0 <= highest_at.0 < self.width && 0 <= highest_at.1 < self.height,
                    self.cell(lowest_at.0, lowest_at.1).quantity_spec(quantity) == lowest,
                    self.cell(highest_at.0, highest_at.1).quantity_spec(quantity) == highest,
                decreases width - x,
            {
                let value: i64 = self.terrain[y][x].quantity(quantity);
                assert(value == self.cell(x as int, y as int).quantity_spec(quantity));
                if value < lowest {
                    lowest = value;
                    proof {
                        lowest_at = (x as int, y as int);
                    }
                }
                if value > highest {
                    highest = value;
                    proof {
                        highest_at = (x as int, y as int);
                    }
                }
                x = x + 1;
            }
            y = y + 1;
        }
        (lowest, highest)
    }

    /// Sets the extremes that the world keeps of the given quantity to those
    /// of its grid. Nothing else changes.
    pub fn refresh_extremes(&mut self, quantity: Quantity)
        requires
            old(self).wf(),
        ensures
            final(self).wf(),
            final(self).width == old(self).width,
            final(self).height == old(self).height,
            final(self).seed == old(self).seed,
            final(self).recipe == old(self).recipe,
            final(self).terrain == old(self).terrain,
            final(self).extremes_kept(quantity),
            quantity != Quantity::Altitude ==> final(self).same_extremes(
                old(self),
                Quantity::Altitude,
            ),
            quantity != Quantity::Rainfall ==> final(self).same_extremes(
                old(self),
                Quantity::Rainfall,
            ),
            quantity != Quantity::Temperature ==> final(self).same_extremes(
                old(self),
                Quantity::Temperature,
            ),
    {
        let (lowest, highest) = self.range_of(quantity);
        match quantity {
            Quantity::Altitude => {
                self.min_altitude = lowest;
                self.max_altitude = highest;
            },
            Quantity::Rainfall => {
                self.min_rainfall = lowest;
                self.max_rainfall = highest;
            },
            Quantity::Temperature => {
                self.min_temperature = lowest;
                self.max_temperature = highest;
            },
        }
        proof {
            assert forall|x: int, y: int| self.cell(x, y) == old(self).cell(x, y) by {}
            self.lemma_extremes_carry(old(self), quantity, lowest as int, highest as int);
        }
    }

    /// Sets the extremes that the world keeps to those of its grid.
    pub fn update_extrema(&mut self)
        requires
            old(self).wf(),
        ensures
            final(self).wf(),
            final(self).width == old(self).width,
            final(self).height == old(self).height,
            final(self).seed == old(self).seed,
            final(self).recipe == old(self).recipe,
            final(self).terrain == old(self).terrain,
            final(self).extrema_consistent(),
    {
        self.refresh_extremes(Quantity::Altitude);
        let ghost first = *self;
        self.refresh_extremes(Quantity::Rainfall);
        let ghost second = *self;
        proof {
            assert forall|x: int, y: int| self.cell(x, y) == first.cell(x, y) by {}
            self.lemma_extremes_stay(&first, Quantity::Altitude);
        }
        self.refresh_extremes(Quantity::Temperature);
        proof {
            assert forall|x: int, y: int| self.cell(x, y) == second.cell(x, y) by {}
            self.lemma_extremes_stay(&second, Quantity::Altitude);
            self.lemma_extremes_stay(&second, Quantity::Rainfall);
        }
    }
}

} // verus!
