//! One cell of the grid.

use crate::biome::{entries_view, BiomeType};
use crate::human_group::HumanGroup;
use vstd::prelude::*;

verus! {

/// A cell: where it lies on the grid, its altitude, rainfall and temperature,
/// and the biomes that are present in it, each with its weight.
#[derive(Debug, Clone)]
pub struct TerrainCell {
    pub altitude: i64,
    pub rainfall: i64,
    pub temperature: i64,
    pub x: usize,
    pub y: usize,
    pub local_iteration: usize,
    pub biome_presences: Vec<(BiomeType, i64)>,
    pub human_groups: Vec<HumanGroup>,
}

/// What a cell holds, as mathematical values.
pub struct CellModel {
    pub altitude: int,
    pub rainfall: int,
    pub temperature: int,
    pub x: int,
    pub y: int,
    pub local_iteration: int,
    pub biome_presences: Seq<(BiomeType, int)>,
    pub human_groups: Seq<HumanGroup>,
}

impl View for TerrainCell {
    type V = CellModel;

    open spec fn view(&self) -> CellModel {
        CellModel {
            altitude: self.altitude as int,
            rainfall: self.rainfall as int,
            temperature: self.temperature as int,
            x: self.x as int,
            y: self.y as int,
            local_iteration: self.local_iteration as int,
            biome_presences: entries_view(self.biome_presences@),
            human_groups: self.human_groups@,
        }
    }
}

/// The weight of `biome` in a list of presences: that of the first entry
/// with this kind, and zero where there is none.
pub open spec fn presence_of_spec(entries: Seq<(BiomeType, i64)>, biome: BiomeType) -> int
    decreases entries.len(),
{
    if entries.len() == 0 {
        0
    } else if entries[0].0 == biome {
        entries[0].1 as int
    } else {
        presence_of_spec(entries.subrange(1, entries.len() as int), biome)
    }
}

impl TerrainCell {
    /// A cell at the origin with nothing in it: altitude, rainfall and
    /// temperature zero, no biome, no settlement.
    pub fn new() -> (cell: TerrainCell)
        ensures
            cell.altitude == 0,
            cell.rainfall == 0,
            cell.temperature == 0,
            cell.x == 0,
            cell.y == 0,
            cell.local_iteration == 0,
            cell.biome_presences@.len() == 0,
            cell.human_groups@.len() == 0,
    {
        TerrainCell {
            altitude: 0,
            rainfall: 0,
            temperature: 0,
            x: 0,
            y: 0,
            local_iteration: 0,
            biome_presences: Vec::new(),
            human_groups: Vec::new(),
        }
    }

    /// The weight of `biome` in the cell: that of the first entry of the
    /// cell's list with this kind, and zero where the list has none.
    pub fn biome_presence(&self, biome: BiomeType) -> (weight: i64)
        ensures
            weight == presence_of_spec(self.biome_presences@, biome),
    {
        let ghost entries = self.biome_presences@;
        let mut index: usize = 0;
        assert(entries.subrange(0, entries.len() as int) =~= entries);
        while index < self.biome_presences.len()
            invariant
                index <= entries.len(),
                entries == self.biome_presences@,
                presence_of_spec(entries, biome) == presence_of_spec(
                    entries.subrange(index as int, entries.len() as int),
                    biome,
                ),
            decreases entries.len() - index,
        {
            let ghost rest = entries.subrange(index as int, entries.len() as int);
            assert(rest[0] == entries[index as int]);
            if self.biome_presences[index].0 == biome {
                return self.biome_presences[index].1;
            }
            assert(rest.subrange(1, rest.len() as int) =~= entries.subrange(
                index + 1,
                entries.len() as int,
            ));
            index = index + 1;
        }
        0
    }
}

impl Default for TerrainCell {
    fn default() -> (cell: TerrainCell)
        ensures
            cell.altitude == 0,
            cell.rainfall == 0,
            cell.temperature == 0,
            cell.x == 0,
            cell.y == 0,
            cell.local_iteration == 0,
            cell.biome_presences@.len() == 0,
            cell.human_groups@.len() == 0,
    {
        TerrainCell::new()
    }
}

} // verus!
