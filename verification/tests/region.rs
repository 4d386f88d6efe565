use wayoa::compositor::state::CompositorState;
use wayoa::protocol::compositor::{Region, WlCompositorHandler};

#[test]
fn test_region_add() {
    let mut region = Region::new();
    region.add(0, 0, 100, 100);
    assert!(region.contains(50, 50));
    assert!(!region.contains(150, 150));
}

#[test]
fn test_region_subtract() {
    let mut region = Region::new();
    region.add(0, 0, 100, 100);
    region.subtract(25, 25, 50, 50);
    assert!(region.contains(10, 10));
    assert!(!region.contains(50, 50));
}

#[test]
fn test_create_surface() {
    let handler = WlCompositorHandler::new();
    let mut state = CompositorState::new();
    let id = handler.create_surface(&mut state);
    assert!(state.surfaces.get(id).is_some());
}

#[test]
fn region_edges_and_order_of_operations() {
    let mut region = Region::new();
    assert!(region.is_empty());
    assert!(!region.contains(0, 0));
    region.add(10, 20, 30, 40);
    assert!(!region.is_empty());
    assert!(region.contains(10, 20));
    assert!(region.contains(39, 59));
    assert!(!region.contains(40, 59));
    assert!(!region.contains(39, 60));
    assert!(!region.contains(9, 20));
    region.subtract(10, 20, 30, 40);
    assert!(!region.contains(10, 20));
    assert!(!region.is_empty());
    region.add(15, 25, 1, 1);
    assert!(region.contains(15, 25));
    assert!(!region.contains(16, 25));
}

#[test]
fn region_at_the_ends_of_the_number_range() {
    let mut region = Region::new();
    region.add(i32::MAX - 1, i32::MAX - 1, i32::MAX, i32::MAX);
    assert!(region.contains(i32::MAX, i32::MAX));
    assert!(!region.contains(i32::MAX - 2, i32::MAX));
    region.add(i32::MIN, i32::MIN, 1, 1);
    assert!(region.contains(i32::MIN, i32::MIN));
    region.add(0, 0, -5, -5);
    assert!(!region.contains(-1, -1));
    assert!(!region.contains(0, 0));
}

#[test]
fn handler_creates_an_empty_region() {
    let handler = WlCompositorHandler::new();
    let region = handler.create_region();
    assert!(region.is_empty());
    assert!(Region::default().is_empty());
}
