//! What a viewer of the map keeps between two frames.

use vstd::prelude::*;

verus! {

/// Whether the map follows the pointer when it is dragged.
#[derive(Debug, Clone, Copy, PartialEq, Eq, Structural)]
pub struct Pan2d {
    pub enabled: bool,
}

impl Pan2d {
    /// Panning, switched on.
    #[must_use]
    pub fn new() -> (pan: Pan2d)
        ensures
            pan.enabled,
    {
        Pan2d { enabled: true }
    }
}

/// The cell of the map over which the pointer stands.
#[derive(Debug, Clone, Copy, PartialEq, Eq, Structural)]
pub struct CursorMapPosition {
    pub x: i32,
    pub y: i32,
}

impl Default for CursorMapPosition {
    fn default() -> (position: CursorMapPosition)
        ensures
            position.x == 0,
            position.y == 0,
    {
        CursorMapPosition { x: 0, y: 0 }
    }
}

/// Whether the map has to be drawn anew.
#[derive(Debug, Clone, Copy, PartialEq, Eq, Structural)]
pub struct ShouldRedraw(pub bool);

impl Default for ShouldRedraw {
    fn default() -> (flag: ShouldRedraw)
        ensures
            !flag.0,
    {
        ShouldRedraw(false)
    }
}

/// What the map shows of the terrain.
#[derive(Debug, Clone, Copy, PartialEq, Eq, Hash, Structural)]
pub enum WorldView {
    Biomes,
    Topography,
    Coastlines,
}

/// What can be laid over the map.
#[derive(Debug, Clone, Copy, PartialEq, Eq, Hash, Structural)]
pub enum WorldOverlay {
    Temperature,
    Rainfall,
}

impl WorldView {
    /// The number of views.
    pub const ITEM_COUNT: usize = 3;

    /// The position of the view in the order in which they are declared.
    pub open spec fn index(self) -> int {
        match self {
            WorldView::Biomes => 0,
            WorldView::Topography => 1,
            WorldView::Coastlines => 2,
        }
    }
}

impl Default for WorldView {
    fn default() -> (view: WorldView)
        ensures
            view == WorldView::Biomes,
    {
        WorldView::Biomes
    }
}

impl WorldOverlay {
    /// The number of overlays.
    pub const ITEM_COUNT: usize = 2;
}

/// The number of pictures of one world that differ: one for each view and
/// each choice of overlays.
pub const CACHE_SIZE: usize = 12;

/// The slot of the picture of the given view under the given overlays: four
/// slots for each view, and in them one for each choice of overlays.
pub open spec fn cache_index_spec(view: WorldView, temperature: bool, rainfall: bool) -> int {
    view.index() * 4 + (if temperature {
        1int
    } else {
        0int
    }) + (if rainfall {
        2int
    } else {
        0int
    })
}

/// Pictures that differ in the view or in an overlay have different slots.
pub proof fn lemma_cache_index_injective(
    view: WorldView,
    temperature: bool,
    rainfall: bool,
    other_view: WorldView,
    other_temperature: bool,
    other_rainfall: bool,
)
    requires
        cache_index_spec(view, temperature, rainfall) == cache_index_spec(
            other_view,
            other_temperature,
            other_rainfall,
        ),
    ensures
        view == other_view,
        temperature == other_temperature,
        rainfall == other_rainfall,
{
}

/// Computes the slot of the picture of the given view under the given
/// overlays.
pub fn cache_index(view: WorldView, temperature: bool, rainfall: bool) -> (index: usize)
    ensures
        index == cache_index_spec(view, temperature, rainfall),
        index < CACHE_SIZE,
{
    let view_num: usize = match view {
        WorldView::Biomes => 0,
        WorldView::Topography => 1,
        WorldView::Coastlines => 2,
    };
    let mut overlay_num: usize = 0;
    if temperature {
        overlay_num = overlay_num + 1;
    }
    if rainfall {
        overlay_num = overlay_num + 2;
    }
    view_num * 4 + overlay_num
}

} // verus!
