//! The shape of the grid: a cylinder. It wraps round in x, so that every
//! cell has neighbours to the west and to the east, and it ends at the first
//! and at the last row, where the neighbours beyond are missing.

use crate::altitude::{MAX_ALTITUDE, MIN_ALTITUDE};
use crate::fixed::{floor_div, lemma_div_bounds, max_of, max_spec};
use crate::neighbors::{add_neighbor, neighbor_entries, no_neighbors, CompassDirection, Neighbors};
use crate::terrain_cell::TerrainCell;
use crate::world::World;
use vstd::prelude::*;

verus! {

/// The place of the neighbour of the cell `(x, y)` in the given direction on
/// a grid of the given size, and nothing where the grid ends. To the west
/// of the first column lies the last, to the east of the last the first.
pub open spec fn neighbor_position_spec(
    width: int,
    height: int,
    x: int,
    y: int,
    direction: CompassDirection,
) -> Option<(int, int)> {
    let row = y + direction.dy();
    if 0 <= row < height {
        Some(((x + width + direction.dx()) % width, row))
    } else {
        None
    }
}

/// On the first column the neighbour to the west lies on the last column of
/// the same row, and on the last column the neighbour to the east lies on
/// the first.
pub proof fn lemma_wraparound_neighbors(width: int, height: int, y: int)
    requires
        width > 0,
        0 <= y < height,
    ensures
        neighbor_position_spec(width, height, 0, y, CompassDirection::West) == Some(
            (width - 1, y),
        ),
        neighbor_position_spec(width, height, width - 1, y, CompassDirection::East) == Some(
            (0int, y),
        ),
{
    assert((0 + width - 1) % width == width - 1) by (nonlinear_arith)
        requires
            width > 0,
    ;
    assert((width - 1 + width + 1) % width == 0) by (nonlinear_arith)
        requires
            width > 0,
    ;
}

/// The neighbour to the west lies one column down, the neighbour to the east
/// one column up, each wrapped round the grid; every neighbour lies on the
/// grid.
pub proof fn lemma_neighbor_columns(
    width: int,
    height: int,
    x: int,
    y: int,
    direction: CompassDirection,
)
    requires
        width > 0,
        0 <= x < width,
        0 <= y < height,
    ensures
        match neighbor_position_spec(width, height, x, y, direction) {
            Some((column, row)) => {
                &&& 0 <= column < width
                &&& 0 <= row < height
                &&& row == y + direction.dy()
                &&& direction.dx() == -1 ==> column == (x + width - 1) % width
                &&& direction.dx() == 1 ==> column == (x + 1) % width
                &&& direction.dx() == 0 ==> column == x
            },
            None => y + direction.dy() < 0 || y + direction.dy() >= height,
        },
        (x + width - 1) % width == if x == 0 {
            width - 1
        } else {
            x - 1
        },
        (x + 1) % width == if x + 1 == width {
            0
        } else {
            x + 1
        },
{
    assert((x + width - 1) % width == if x == 0 {
        width - 1
    } else {
        x - 1
    }) by (nonlinear_arith)
        requires
            width > 0,
            0 <= x < width,
    ;
    assert((x + 1) % width == if x + 1 == width {
        0
    } else {
        x + 1
    }) by (nonlinear_arith)
        requires
            width > 0,
            0 <= x < width,
    ;
    assert((x + width + 1) % width == (x + 1) % width) by (nonlinear_arith)
        requires
            width > 0,
            0 <= x < width,
    ;
    assert((x + width) % width == x) by (nonlinear_arith)
        requires
            width > 0,
            0 <= x < width,
    ;
}

/// The highest altitude seen so far, `sofar`, raised to that of the
/// neighbour in the given direction where there is one.
pub open spec fn raised_spec(
    entries: Map<CompassDirection, TerrainCell>,
    direction: CompassDirection,
    sofar: int,
) -> int {
    if entries.dom().contains(direction) {
        max_spec(sofar, entries[direction].altitude as int)
    } else {
        sofar
    }
}

/// One where there is a neighbour in the given direction, else zero.
pub open spec fn present_spec(
    entries: Map<CompassDirection, TerrainCell>,
    direction: CompassDirection,
) -> int {
    if entries.dom().contains(direction) {
        1
    } else {
        0
    }
}

/// One side of the slant: the highest altitude among the neighbours in the
/// three given directions, as far as there are such neighbours, divided by
/// their number. The quotient rounds towards negative infinity.
pub open spec fn side_spec(
    entries: Map<CompassDirection, TerrainCell>,
    first: CompassDirection,
    second: CompassDirection,
    third: CompassDirection,
) -> int {
    raised_spec(
        entries,
        third,
        raised_spec(entries, second, raised_spec(entries, first, i64::MIN as int)),
    ) / (present_spec(entries, first) + present_spec(entries, second) + present_spec(
        entries,
        third,
    ))
}

/// The slant of a cell with the given neighbours: the side of the neighbours
/// to the west, south-west and south, less the side of the neighbours to the
/// east, north-east and north. Both sides are taken alike.
pub open spec fn slant_spec(entries: Map<CompassDirection, TerrainCell>) -> int {
    side_spec(
        entries,
        CompassDirection::West,
        CompassDirection::SouthWest,
        CompassDirection::South,
    ) - side_spec(
        entries,
        CompassDirection::East,
        CompassDirection::NorthEast,
        CompassDirection::North,
    )
}

/// Raises the highest altitude seen so far to that of the neighbour in the
/// given direction, and counts that neighbour, where there is one.
fn raise<'a>(
    neighbors: &Neighbors<'a>,
    direction: CompassDirection,
    sofar: i64,
    count: i64,
) -> (r: (
    i64,
    i64,
))
    requires
        count < 8,
    ensures
        r.0 == raised_spec(neighbor_entries(*neighbors), direction, sofar as int),
        r.1 == count + present_spec(neighbor_entries(*neighbors), direction),
{
    match neighbors.get(direction) {
        Some(cell) => (max_of(sofar, cell.altitude), count + 1),
        None => (sofar, count),
    }
}

impl World {
    /// The neighbours of the cell `(x, y)`: for every direction in which the
    /// grid goes on, the cell that lies there.
    pub open spec fn neighbors_spec(&self, x: int, y: int) -> Map<CompassDirection, TerrainCell> {
        Map::new(
            |direction: CompassDirection|
                neighbor_position_spec(
                    self.width as int,
                    self.height as int,
                    x,
                    y,
                    direction,
                ) is Some,
            |direction: CompassDirection|
                {
                    let place = neighbor_position_spec(
                        self.width as int,
                        self.height as int,
                        x,
                        y,
                        direction,
                    )->0;
                    self.cell(place.0, place.1)
                },
        )
    }

    /// Whether the cell `(x, y)` has a neighbour, in any direction, whose
    /// altitude is at most `level`.
    pub open spec fn has_neighbor_at_most(&self, x: int, y: int, level: int) -> bool {
        exists|direction: CompassDirection|
            #![trigger self.neighbors_spec(x, y)[direction]]
            self.neighbors_spec(x, y).dom().contains(direction) && self.neighbors_spec(
                x,
                y,
            )[direction].altitude <= level
    }

    /// Whether the cell `(x, y)` has a neighbour, in any direction, whose
    /// altitude is at least `level`.
    pub open spec fn has_neighbor_at_least(&self, x: int, y: int, level: int) -> bool {
        exists|direction: CompassDirection|
            #![trigger self.neighbors_spec(x, y)[direction]]
            self.neighbors_spec(x, y).dom().contains(direction) && self.neighbors_spec(
                x,
                y,
            )[direction].altitude >= level
    }

    /// The place of the neighbour of the cell `(x, y)` in the given
    /// direction, and nothing where the grid ends.
    pub fn neighbor_position(&self, x: usize, y: usize, direction: CompassDirection) -> (place:
        Option<(usize, usize)>)
        requires
            self.wf(),
            x < self.width,
            y < self.height,
        ensures
            match place {
                Some((column, row)) => neighbor_position_spec(
                    self.width as int,
                    self.height as int,
                    x as int,
                    y as int,
                    direction,
                ) == Some((column as int, row as int)) && column < self.width && row
                    < self.height,
                None => neighbor_position_spec(
                    self.width as int,
                    self.height as int,
                    x as int,
                    y as int,
                    direction,
                ) is None,
            },
    {
        proof {
            lemma_neighbor_columns(
                self.width as int,
                self.height as int,
                x as int,
                y as int,
                direction,
            );
        }
        let width: usize = self.width as usize;
        let height: usize = self.height as usize;
        let west_x: usize = if x == 0 {
            width - 1
        } else {
            x - 1
        };
        let east_x: usize = if x + 1 == width {
            0
        } else {
            x + 1
        };
        let column: usize = match direction {
            CompassDirection::NorthEast
            | CompassDirection::East
            | CompassDirection::SouthEast => east_x,
            CompassDirection::NorthWest
            | CompassDirection::West
            | CompassDirection::SouthWest => west_x,
            _ => x,
        };
        match direction {
            CompassDirection::NorthWest | CompassDirection::North | CompassDirection::NorthEast => {
                if y + 1 < height {
                    Some((column, y + 1))
                } else {
                    None
                }
            },
            CompassDirection::SouthWest | CompassDirection::South | CompassDirection::SouthEast => {
                if y > 0 {
                    Some((column, y - 1))
                } else {
                    None
                }
            },
            _ => Some((column, y)),
        }
    }

    /// Collects the neighbours of the cell `(x, y)`: up to eight, fewer on
    /// the first and on the last row.
    pub fn cell_neighbors<'a>(&'a self, x: usize, y: usize) -> (neighbors: Neighbors<'a>)
        requires
            self.wf(),
            x < self.width,
            y < self.height,
        ensures
            neighbor_entries(neighbors) == self.neighbors_spec(x as int, y as int),
    {
        let mut neighbors = no_neighbors();
        let mut index: usize = 0;
        while index < CompassDirection::ITEM_COUNT
            invariant
                index <= CompassDirection::ITEM_COUNT,
                self.wf(),
                x < self.width,
                y < self.height,
                forall|direction: CompassDirection|
                    #![trigger neighbor_entries(neighbors).dom().contains(direction)]
                    neighbor_entries(neighbors).dom().contains(direction) <==> (direction.index()
                        < index && self.neighbors_spec(x as int, y as int).dom().contains(
                        direction,
                    )),
                forall|direction: CompassDirection|
                    #![trigger neighbor_entries(neighbors)[direction]]
                    neighbor_entries(neighbors).dom().contains(direction) ==> neighbor_entries(
                        neighbors,
                    )[direction] == self.neighbors_spec(x as int, y as int)[direction],
            decreases CompassDirection::ITEM_COUNT - index,
        {
            let direction = CompassDirection::from_index(index);
            match self.neighbor_position(x, y, direction) {
                Some((column, row)) => {
                    add_neighbor(&mut neighbors, direction, &self.terrain[row][column]);
                },
                None => {},
            }
            index = index + 1;
        }
        assert(neighbor_entries(neighbors) =~= self.neighbors_spec(x as int, y as int));
        neighbors
    }
    /// Every cell of the grid has a neighbour to the west and one to the
    /// east, and every neighbour is a cell of the grid.
    pub proof fn lemma_neighbors_on_grid(&self, x: int, y: int)
        requires
            self.wf(),
            0 <= x < self.width,
            0 <= y < self.height,
        ensures
            self.neighbors_spec(x, y).dom().contains(CompassDirection::West),
            self.neighbors_spec(x, y).dom().contains(CompassDirection::East),
            forall|direction: CompassDirection|
                self.neighbors_spec(x, y).dom().contains(direction) ==> {
                    let place = neighbor_position_spec(
                        self.width as int,
                        self.height as int,
                        x,
                        y,
                        direction,
                    )->0;
                    &&& 0 <= place.0 < self.width
                    &&& 0 <= place.1 < self.height
                    &&& (#[trigger] self.neighbors_spec(x, y)[direction]) == self.cell(
                        place.0,
                        place.1,
                    )
                },
    {
        assert forall|direction: CompassDirection|
            self.neighbors_spec(x, y).dom().contains(direction) implies {
            let place = neighbor_position_spec(
                self.width as int,
                self.height as int,
                x,
                y,
                direction,
            )->0;
            &&& 0 <= place.0 < self.width
            &&& 0 <= place.1 < self.height
            &&& (#[trigger] self.neighbors_spec(x, y)[direction]) == self.cell(place.0, place.1)
        } by {
            lemma_neighbor_columns(self.width as int, self.height as int, x, y, direction);
        }
    }

    /// On a grid whose cells all lie at one altitude, a cell away from the
    /// first and the last row has no slant.
    pub proof fn lemma_flat_grid_has_no_slant(&self, x: int, y: int, altitude: int)
        requires
            self.wf(),
            0 <= x < self.width,
            0 < y < self.height - 1,
            forall|i: int, j: int|
                0 <= i < self.width && 0 <= j < self.height ==> (#[trigger] self.cell(
                    i,
                    j,
                )).altitude == altitude,
        ensures
            slant_spec(self.neighbors_spec(x, y)) == 0,
    {
        let entries = self.neighbors_spec(x, y);
        self.lemma_neighbors_on_grid(x, y);
        assert forall|direction: CompassDirection|
            entries.dom().contains(direction) && (#[trigger] entries[direction]).altitude
                == altitude by {
            lemma_neighbor_columns(self.width as int, self.height as int, x, y, direction);
            let place = neighbor_position_spec(
                self.width as int,
                self.height as int,
                x,
                y,
                direction,
            )->0;
            assert(entries[direction] == self.cell(place.0, place.1));
        }
        assert(entries[CompassDirection::West].altitude == altitude);
        assert(entries[CompassDirection::SouthWest].altitude == altitude);
        assert(entries[CompassDirection::South].altitude == altitude);
        assert(entries[CompassDirection::East].altitude == altitude);
        assert(entries[CompassDirection::NorthEast].altitude == altitude);
        assert(entries[CompassDirection::North].altitude == altitude);
    }

    /// Computes the slant of a cell of the grid: how much higher the land
    /// lies to its west and south than to its east and north.
    pub fn get_slant(&self, cell: &TerrainCell) -> (slant: i64)
        requires
            self.wf(),
            self.altitudes_within_bounds(),
            cell.x < self.width,
            cell.y < self.height,
        ensures
            slant == slant_spec(self.neighbors_spec(cell.x as int, cell.y as int)),
    {
        let neighbors = self.cell_neighbors(cell.x, cell.y);
        let ghost entries = neighbor_entries(neighbors);
        proof {
            self.lemma_neighbors_on_grid(cell.x as int, cell.y as int);
            assert forall|direction: CompassDirection| entries.dom().contains(direction) implies MIN_ALTITUDE
                <= (#[trigger] entries[direction]).altitude <= MAX_ALTITUDE by {
                let place = neighbor_position_spec(
                    self.width as int,
                    self.height as int,
                    cell.x as int,
                    cell.y as int,
                    direction,
                )->0;
                assert(entries[direction] == self.cell(place.0, place.1));
            }
        }
        let (west, west_count) = raise(&neighbors, CompassDirection::West, i64::MIN, 0);
        let (west, west_count) = raise(&neighbors, CompassDirection::SouthWest, west, west_count);
        let (west, west_count) = raise(&neighbors, CompassDirection::South, west, west_count);
        let (east, east_count) = raise(&neighbors, CompassDirection::East, i64::MIN, 0);
        let (east, east_count) = raise(&neighbors, CompassDirection::NorthEast, east, east_count);
        let (east, east_count) = raise(&neighbors, CompassDirection::North, east, east_count);
        proof {
            lemma_div_bounds(
                west as int,
                west_count as int,
                MIN_ALTITUDE as int,
                MAX_ALTITUDE as int,
            );
            lemma_div_bounds(
                east as int,
                east_count as int,
                MIN_ALTITUDE as int,
                MAX_ALTITUDE as int,
            );
        }
        floor_div(west, west_count) - floor_div(east, east_count)
    }

    /// Whether any neighbour of the cell `(x, y)` has an altitude of at most
    /// `level`, where `below` holds, or of at least `level`, where it does
    /// not.
    fn any_neighbor_beyond(&self, x: usize, y: usize, level: i64, below: bool) -> (found: bool)
        requires
            self.wf(),
            x < self.width,
            y < self.height,
        ensures
            found == if below {
                self.has_neighbor_at_most(x as int, y as int, level as int)
            } else {
                self.has_neighbor_at_least(x as int, y as int, level as int)
            },
    {
        let neighbors = self.cell_neighbors(x, y);
        let ghost entries = self.neighbors_spec(x as int, y as int);
        let mut index: usize = 0;
        while index < CompassDirection::ITEM_COUNT
            invariant
                index <= CompassDirection::ITEM_COUNT,
                entries == self.neighbors_spec(x as int, y as int),
                neighbor_entries(neighbors) == entries,
                forall|direction: CompassDirection|
                    #![trigger entries[direction]]
                    direction.index() < index && entries.dom().contains(direction) ==> if below {
                        entries[direction].altitude > level
                    } else {
                        entries[direction].altitude < level
                    },
            decreases CompassDirection::ITEM_COUNT - index,
        {
            let direction = CompassDirection::from_index(index);
            match neighbors.get(direction) {
                Some(cell) => {
                    if (below && cell.altitude <= level) || (!below && cell.altitude >= level) {
                        assert(entries.dom().contains(direction));
                        assert(entries[direction].altitude == cell.altitude);
                        return true;
                    }
                },
                None => {},
            }
            index = index + 1;
        }
        false
    }

    /// Whether a cell of the grid is land on the coast: it lies above sea
    /// level and has a neighbour at sea level or below.
    pub fn is_cell_coastline(&self, cell: &TerrainCell) -> (coast: bool)
        requires
            self.wf(),
            cell.x < self.width,
            cell.y < self.height,
        ensures
            coast == (cell.altitude > 0 && self.has_neighbor_at_most(
                cell.x as int,
                cell.y as int,
                0,
            )),
    {
        if cell.altitude <= 0 {
            return false;
        }
        self.any_neighbor_beyond(cell.x, cell.y, 0, true)
    }

    /// Whether a cell of the grid is sea off the coast: it lies below sea
    /// level and has a neighbour at sea level or above.
    pub fn is_cell_near_coastline(&self, cell: &TerrainCell) -> (near: bool)
        requires
            self.wf(),
            cell.x < self.width,
            cell.y < self.height,
        ensures
            near == (cell.altitude < 0 && self.has_neighbor_at_least(
                cell.x as int,
                cell.y as int,
                0,
            )),
    {
        if cell.altitude >= 0 {
            return false;
        }
        self.any_neighbor_beyond(cell.x, cell.y, 0, false)
    }
}

} // verus!
