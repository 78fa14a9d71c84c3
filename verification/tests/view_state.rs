use planet::human_group::HumanGroup;
use planet::view_state::{
    cache_index, CursorMapPosition, Pan2d, ShouldRedraw, WorldView, CACHE_SIZE,
};
use planet::world::World;

#[test]
fn panning_starts_switched_on() {
    assert!(Pan2d::new().enabled);
}

#[test]
fn the_pointer_starts_at_the_origin() {
    assert_eq!(CursorMapPosition::default(), CursorMapPosition { x: 0, y: 0 });
}

#[test]
fn nothing_is_to_be_drawn_at_the_start() {
    assert_eq!(ShouldRedraw::default(), ShouldRedraw(false));
}

#[test]
fn a_group_of_people_by_default() {
    assert_eq!(HumanGroup::default(), HumanGroup { id: 0, population: 0 });
}

#[test]
fn the_width_of_a_cell_at_the_equator() {
    assert_eq!(World::new(400, 200, 0).cell_max_widht(), 400_000_000 / 40_075);
    assert_eq!(World::async_new(40_075, 2, 0).cell_max_widht(), 1_000_000);
}

#[test]
fn every_picture_has_its_own_slot() {
    let mut seen = vec![false; CACHE_SIZE];
    for view in [WorldView::Biomes, WorldView::Topography, WorldView::Coastlines] {
        for temperature in [false, true] {
            for rainfall in [false, true] {
                let index = cache_index(view, temperature, rainfall);
                assert!(index < CACHE_SIZE);
                assert!(!seen[index]);
                seen[index] = true;
            }
        }
    }
    assert_eq!(cache_index(WorldView::Biomes, false, false), 0);
    assert_eq!(cache_index(WorldView::Topography, true, false), 5);
    assert_eq!(cache_index(WorldView::Coastlines, true, true), 11);
    assert_eq!(WorldView::default(), WorldView::Biomes);
}
