use wayoa::compositor::surface::SurfaceId;
use wayoa::input::pointer::{GrabType, Pointer, ResizeEdge};

fn fixed(pixels: f64) -> i32 {
    (pixels * 256.0) as i32
}

#[test]
fn test_pointer_new() {
    let pointer = Pointer::new();
    assert!(pointer.focus().is_none());
    assert!(pointer.pressed_buttons().is_empty());
}

#[test]
fn test_button_press_release() {
    let mut pointer = Pointer::new();

    // Press left button
    assert!(pointer.button_press(0x110));
    assert!(pointer.pressed_buttons().contains(&0x110));
    assert!(pointer.has_button_pressed());

    // Release
    assert!(pointer.button_release(0x110));
    assert!(!pointer.has_button_pressed());
}

#[test]
fn pointer_test_focus_change() {
    let mut pointer = Pointer::new();

    let surface1 = SurfaceId(1);
    let surface2 = SurfaceId(2);

    // Set initial focus
    let change = pointer.set_focus(Some(surface1), fixed(100.0), fixed(50.0));
    assert!(change.old_focus.is_none());
    assert_eq!(change.new_focus, Some(surface1));

    // Check position
    assert_eq!(pointer.position(), (fixed(100.0), fixed(50.0)));

    // Change focus
    let change = pointer.set_focus(Some(surface2), fixed(200.0), fixed(100.0));
    assert_eq!(change.old_focus, Some(surface1));
    assert_eq!(change.new_focus, Some(surface2));
}

#[test]
fn test_cursor() {
    let mut pointer = Pointer::new();

    let cursor_surface = SurfaceId(100);
    pointer.set_cursor(Some(cursor_surface), 10, 5);

    assert_eq!(pointer.cursor(), Some(cursor_surface));
    assert_eq!(pointer.cursor_hotspot(), (10, 5));
}

#[test]
fn test_grab() {
    let mut pointer = Pointer::new();

    let surface = SurfaceId(1);
    pointer.start_grab(surface, 1, GrabType::Move);

    assert!(pointer.has_grab());
    assert_eq!(pointer.grab().unwrap().grab_type, GrabType::Move);

    pointer.end_grab();
    assert!(!pointer.has_grab());
}

#[test]
fn pointer_motion_and_repeated_buttons() {
    let mut pointer = Pointer::new();
    assert_eq!(pointer.position(), (0, 0));
    pointer.motion(fixed(1.5), fixed(-2.25));
    assert_eq!(pointer.position(), (384, -576));
    assert!(pointer.button_press(0x110));
    assert!(!pointer.button_press(0x110));
    assert!(pointer.button_press(0x111));
    assert!(!pointer.button_release(0x112));
    assert!(pointer.button_release(0x110));
    assert_eq!(pointer.pressed_buttons(), &[0x111]);
    assert!(pointer.cursor().is_none());
    assert_eq!(pointer.cursor_hotspot(), (0, 0));
}

#[test]
fn resize_grab_keeps_its_edge_and_serial() {
    let mut pointer = Pointer::new();
    assert!(pointer.grab().is_none());
    pointer.start_grab(SurfaceId(2), 17, GrabType::Resize(ResizeEdge::BottomRight));
    let grab = pointer.grab().unwrap();
    assert_eq!(grab.surface, SurfaceId(2));
    assert_eq!(grab.serial, 17);
    assert_eq!(grab.grab_type, GrabType::Resize(ResizeEdge::BottomRight));
    pointer.start_grab(SurfaceId(3), 18, GrabType::Popup);
    assert_eq!(pointer.grab().unwrap().grab_type, GrabType::Popup);
}
