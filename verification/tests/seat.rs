use wayoa::compositor::surface::SurfaceId;
use wayoa::input::pointer::GrabType;
use wayoa::input::seat::{Seat, SeatCapabilities};
use wayoa::protocol::seat::{
    AxisType, ButtonState, KeyState, KeyboardState, PointerState, TouchState, WlSeatHandler,
};

#[test]
fn test_seat_new() {
    let seat = Seat::new();
    assert_eq!(seat.name(), "seat0");
    assert!(seat.capabilities().keyboard);
    assert!(seat.capabilities().pointer);
}

#[test]
fn seat_test_seat_capabilities() {
    let caps = SeatCapabilities {
        keyboard: true,
        pointer: true,
        touch: false,
    };
    assert_eq!(caps.to_wayland(), 3); // pointer (1) + keyboard (2)

    let caps = wayoa::protocol::seat::SeatCapabilities {
        pointer: true,
        keyboard: true,
        touch: false,
    };
    assert_eq!(caps.to_wayland(), 3); // pointer (1) + keyboard (2)
}

#[test]
fn test_focus_surface() {
    let mut seat = Seat::new();
    let surface = SurfaceId(1);

    seat.focus_surface(Some(surface), (100.0_f64 * 256.0) as i32, (50.0_f64 * 256.0) as i32);

    assert_eq!(seat.keyboard_focus(), Some(surface));
    assert_eq!(seat.pointer_focus(), Some(surface));
}

#[test]
fn test_keyboard_access() {
    let mut seat = Seat::new();

    seat.keyboard_mut().key_press(30);
    assert!(seat.keyboard().pressed_keys().contains(&30));
}

#[test]
fn test_pointer_access() {
    let mut seat = Seat::new();

    seat.pointer_mut().button_press(0x110);
    assert!(seat.pointer().has_button_pressed());
}

#[test]
fn test_seat_handler() {
    let handler = WlSeatHandler::new();
    assert!(handler.capabilities().pointer);
    assert!(handler.capabilities().keyboard);
    assert_eq!(handler.name(), "default");
}

#[test]
fn every_capability_mask() {
    for bits in 0u32..8 {
        let caps = SeatCapabilities {
            pointer: bits & 1 != 0,
            keyboard: bits & 2 != 0,
            touch: bits & 4 != 0,
        };
        assert_eq!(caps.to_wayland(), bits);
        let caps = wayoa::protocol::seat::SeatCapabilities {
            pointer: bits & 1 != 0,
            keyboard: bits & 2 != 0,
            touch: bits & 4 != 0,
        };
        assert_eq!(caps.to_wayland(), bits);
    }
}

#[test]
fn seat_with_name_and_capabilities() {
    let mut seat = Seat::with_name("second".to_string());
    assert_eq!(seat.name(), "second");
    assert!(!seat.capabilities().touch);
    seat.set_capabilities(SeatCapabilities { keyboard: false, pointer: true, touch: true });
    assert_eq!(seat.capabilities().to_wayland(), 5);
    assert_eq!(seat.name(), "second");
    let mut handler = WlSeatHandler::new();
    handler.set_capabilities(wayoa::protocol::seat::SeatCapabilities {
        pointer: false,
        keyboard: false,
        touch: true,
    });
    assert_eq!(handler.capabilities().to_wayland(), 4);
    assert_eq!(handler.name(), "default");
}

#[test]
fn seat_forgets_a_surface_that_has_gone() {
    let mut seat = Seat::new();
    let gone = SurfaceId(1);
    let other = SurfaceId(2);
    seat.focus_surface(Some(gone), 256, 512);
    seat.pointer_mut().set_cursor(Some(gone), 3, 4);
    seat.pointer_mut().start_grab(gone, 5, GrabType::Button);
    seat.keyboard_mut().key_press(30);
    seat.forget_surface(other);
    assert_eq!(seat.keyboard_focus(), Some(gone));
    assert_eq!(seat.pointer_focus(), Some(gone));
    assert!(seat.pointer().has_grab());
    seat.forget_surface(gone);
    assert_eq!(seat.keyboard_focus(), None);
    assert_eq!(seat.pointer_focus(), None);
    assert_eq!(seat.pointer().cursor(), None);
    assert!(!seat.pointer().has_grab());
    assert_eq!(seat.pointer().position(), (256, 512));
    assert_eq!(seat.pointer().cursor_hotspot(), (3, 4));
    assert_eq!(seat.keyboard().pressed_keys(), &[30]);
}

#[test]
fn wire_codes_of_states_and_axes() {
    assert_eq!(KeyState::Released.to_wayland(), 0);
    assert_eq!(KeyState::Pressed.to_wayland(), 1);
    assert_eq!(ButtonState::Released.to_wayland(), 0);
    assert_eq!(ButtonState::Pressed.to_wayland(), 1);
    assert_eq!(AxisType::VerticalScroll.to_wayland(), 0);
    assert_eq!(AxisType::HorizontalScroll.to_wayland(), 1);
}

#[test]
fn device_states_start_empty() {
    let keyboard = KeyboardState::default();
    assert!(keyboard.focus.is_none() && keyboard.pressed_keys.is_empty());
    assert_eq!(keyboard.modifiers, wayoa::protocol::seat::ModifierState::default());
    let pointer = PointerState::default();
    assert!(pointer.focus.is_none() && pointer.pressed_buttons.is_empty());
    assert_eq!((pointer.x, pointer.y), (0, 0));
    assert!(TouchState::default().points.is_empty());
}
