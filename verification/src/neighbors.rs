//! The neighbours of a cell, by direction.
//!
//! The collection is a hash map of the `bevy` crate behind a handful of
//! operations whose contracts are stated, not proved: they say of the map
//! what its documentation says.

use bevy::utils::HashMap;
use crate::terrain_cell::TerrainCell;
use vstd::prelude::*;

verus! {

/// The eight directions in which a cell has neighbours.
#[derive(Debug, Copy, Clone, PartialEq, Eq, PartialOrd, Ord, Hash, Structural)]
pub enum CompassDirection {
    North,
    NorthEast,
    East,
    SouthEast,
    South,
    SouthWest,
    West,
    NorthWest,
}

/// The neighbours of one cell: for each direction in which the cell has a
/// neighbour, that neighbour. It holds a `bevy::utils::HashMap` from
/// directions to cells of the world that made it.
#[verifier::external_body]
pub struct Neighbors<'a> {
    entries: HashMap<CompassDirection, &'a TerrainCell>,
}

/// What a collection of neighbours holds: the directions that have an entry,
/// each with its cell.
pub uninterp spec fn neighbor_entries(neighbors: Neighbors) -> Map<CompassDirection, TerrainCell>;

/// Calls `HashMap::new`, which makes an empty map.
#[verifier::external_body]
pub(crate) fn no_neighbors<'a>() -> (neighbors: Neighbors<'a>)
    ensures
        neighbor_entries(neighbors) == (Map::<CompassDirection, TerrainCell>::empty()),
{
    Neighbors { entries: HashMap::new() }
}

/// Calls `HashMap::insert_unique_unchecked`, which adds an entry for a key
/// that the map does not hold yet and leaves the other entries as they are.
/// A key that the map holds already is excluded: the map's documentation
/// leaves open what happens then.
#[verifier::external_body]
pub(crate) fn add_neighbor<'a>(
    neighbors: &mut Neighbors<'a>,
    direction: CompassDirection,
    cell: &'a TerrainCell,
)
    requires
        !neighbor_entries(*old(neighbors)).dom().contains(direction),
    ensures
        neighbor_entries(*final(neighbors)) == neighbor_entries(*old(neighbors)).insert(
            direction,
            *cell,
        ),
{
    let _ = neighbors.entries.insert_unique_unchecked(direction, cell);
}

/// Calls `HashMap::get`, which returns the value of the entry with the given
/// key, and nothing where the map holds no such entry.
#[verifier::external_body]
pub(crate) fn find_neighbor<'a>(neighbors: &Neighbors<'a>, direction: CompassDirection) -> (found:
    Option<&'a TerrainCell>)
    ensures
        match found {
            Some(cell) => neighbor_entries(*neighbors).dom().contains(direction) && *cell
                == neighbor_entries(*neighbors)[direction],
            None => !neighbor_entries(*neighbors).dom().contains(direction),
        },
{
    neighbors.entries.get(&direction).copied()
}

/// Calls `HashMap::len`, which returns the number of entries.
#[verifier::external_body]
pub(crate) fn count_neighbors<'a>(neighbors: &Neighbors<'a>) -> (count: usize)
    ensures
        count == neighbor_entries(*neighbors).dom().len(),
{
    neighbors.entries.len()
}

impl CompassDirection {
    /// The number of directions.
    pub const ITEM_COUNT: usize = 8;

    /// The direction at a position of the order in which they are declared.
    pub open spec fn at(index: int) -> CompassDirection {
        if index == 0 {
            CompassDirection::North
        } else if index == 1 {
            CompassDirection::NorthEast
        } else if index == 2 {
            CompassDirection::East
        } else if index == 3 {
            CompassDirection::SouthEast
        } else if index == 4 {
            CompassDirection::South
        } else if index == 5 {
            CompassDirection::SouthWest
        } else if index == 6 {
            CompassDirection::West
        } else {
            CompassDirection::NorthWest
        }
    }

    /// The position of the direction in the order in which they are declared.
    pub open spec fn index(self) -> int {
        match self {
            CompassDirection::North => 0,
            CompassDirection::NorthEast => 1,
            CompassDirection::East => 2,
            CompassDirection::SouthEast => 3,
            CompassDirection::South => 4,
            CompassDirection::SouthWest => 5,
            CompassDirection::West => 6,
            CompassDirection::NorthWest => 7,
        }
    }

    /// The step along x that the direction takes: one to the east, minus one
    /// to the west.
    pub open spec fn dx(self) -> int {
        match self {
            CompassDirection::NorthEast | CompassDirection::East | CompassDirection::SouthEast => 1,
            CompassDirection::NorthWest
            | CompassDirection::West
            | CompassDirection::SouthWest => -1,
            _ => 0,
        }
    }

    /// The step along y that the direction takes: one to the north, minus one
    /// to the south.
    pub open spec fn dy(self) -> int {
        match self {
            CompassDirection::NorthWest
            | CompassDirection::North
            | CompassDirection::NorthEast => 1,
            CompassDirection::SouthWest
            | CompassDirection::South
            | CompassDirection::SouthEast => -1,
            _ => 0,
        }
    }

    /// The direction at a position of the order in which they are declared.
    pub fn from_index(index: usize) -> (direction: CompassDirection)
        requires
            index < CompassDirection::ITEM_COUNT,
        ensures
            direction == CompassDirection::at(index as int),
            direction.index() == index,
    {
        if index == 0 {
            CompassDirection::North
        } else if index == 1 {
            CompassDirection::NorthEast
        } else if index == 2 {
            CompassDirection::East
        } else if index == 3 {
            CompassDirection::SouthEast
        } else if index == 4 {
            CompassDirection::South
        } else if index == 5 {
            CompassDirection::SouthWest
        } else if index == 6 {
            CompassDirection::West
        } else {
            CompassDirection::NorthWest
        }
    }
}

impl<'a> Neighbors<'a> {
    /// The neighbour in the given direction, and nothing where there is
    /// none.
    pub fn get(&self, direction: CompassDirection) -> (found: Option<&'a TerrainCell>)
        ensures
            match found {
                Some(cell) => neighbor_entries(*self).dom().contains(direction) && *cell
                    == neighbor_entries(*self)[direction],
                None => !neighbor_entries(*self).dom().contains(direction),
            },
    {
        find_neighbor(self, direction)
    }

    /// The number of neighbours.
    pub fn len(&self) -> (count: usize)
        ensures
            count == neighbor_entries(*self).dom().len(),
    {
        count_neighbors(self)
    }
}

} // verus!
