use wayoa::backend::cocoa::input::InputTranslator;
use wayoa::protocol::seat::{AxisType, ButtonState, KeyState, KeyboardEvent, PointerEvent};

#[test]
fn test_keycode_translation() {
    let translator = InputTranslator::new();

    // Test some common keys
    assert_eq!(translator.translate_keycode(0x00), 30); // A
    assert_eq!(translator.translate_keycode(0x24), 28); // Return
    assert_eq!(translator.translate_keycode(0x31), 57); // Space
    assert_eq!(translator.translate_keycode(0x35), 1); // Escape
}

#[test]
fn test_button_translation() {
    let translator = InputTranslator::new();

    assert_eq!(translator.translate_button(0), 0x110); // Left
    assert_eq!(translator.translate_button(1), 0x111); // Right
    assert_eq!(translator.translate_button(2), 0x112); // Middle
}

#[test]
fn test_key_event() {
    let translator = InputTranslator::new();
    let event = translator.key_event(0x00, true, 1000);

    match event {
        KeyboardEvent::Key { key, state, time } => {
            assert_eq!(key, 30); // A
            assert_eq!(state, KeyState::Pressed);
            assert_eq!(time, 1000);
        }
        _ => panic!("Wrong event type"),
    }
}

#[test]
fn test_scroll_event() {
    let translator = InputTranslator::new();
    let ten = (10.0_f64 * 256.0) as i32;
    let events = translator.scroll_event(0, ten, 1000);

    assert_eq!(events.len(), 2); // Vertical scroll + frame
    match &events[0] {
        PointerEvent::Axis { axis, value, .. } => {
            assert_eq!(*axis, AxisType::VerticalScroll);
            assert_eq!(*value, ten);
        }
        _ => panic!("Wrong event type"),
    }
}

#[test]
fn test_modifier_translation() {
    let translator = InputTranslator::new();

    // Shift pressed
    let (dep, _, _, _) = translator.translate_modifiers(1 << 17);
    assert_eq!(dep & 1, 1);

    // Command pressed
    let (dep, _, _, _) = translator.translate_modifiers(1 << 20);
    assert_eq!(dep & 64, 64);

    // Caps lock
    let (_, _, locked, _) = translator.translate_modifiers(1 << 16);
    assert_eq!(locked, 2);
}

#[test]
fn unknown_keycode_translates_to_zero() {
    let translator = InputTranslator::new();
    assert_eq!(translator.translate_keycode(0x0A), 0);
    assert_eq!(translator.translate_keycode(0x34), 0);
    assert_eq!(translator.translate_keycode(0x7F), 0);
    assert_eq!(translator.translate_keycode(0xFFFF), 0);
}

#[test]
fn table_keycodes_are_distinct_and_nonzero() {
    let translator = InputTranslator::new();
    let mut seen: Vec<u32> = Vec::new();
    for code in 0u16..=0x7E {
        let key = translator.translate_keycode(code);
        if key != 0 {
            assert!(!seen.contains(&key));
            assert!(key <= 186);
            seen.push(key);
        }
    }
    assert_eq!(seen.len(), 90);
}

#[test]
fn side_buttons_and_unknown_buttons() {
    let translator = InputTranslator::new();
    assert_eq!(translator.translate_button(3), 0x113);
    assert_eq!(translator.translate_button(4), 0x114);
    assert_eq!(translator.translate_button(5), 0x110);
    assert_eq!(translator.translate_button(-1), 0x110);
}

#[test]
fn all_modifiers_together() {
    let translator = InputTranslator::new();
    let flags = (1u64 << 16) | (1 << 17) | (1 << 18) | (1 << 19) | (1 << 20);
    assert_eq!(translator.translate_modifiers(flags), (1 + 4 + 8 + 64, 0, 2, 0));
    assert_eq!(translator.translate_modifiers(0), (0, 0, 0, 0));
    assert_eq!(translator.translate_modifiers(1 << 18), (4, 0, 0, 0));
    assert_eq!(translator.translate_modifiers(1 << 19), (8, 0, 0, 0));
}

#[test]
fn key_release_and_modifier_events() {
    let translator = InputTranslator::new();
    match translator.key_event(0x31, false, 7) {
        KeyboardEvent::Key { key, state, time } => {
            assert_eq!((key, state, time), (57, KeyState::Released, 7));
        }
        _ => panic!("Wrong event type"),
    }
    match translator.modifier_event(1, 2, 3, 4) {
        KeyboardEvent::Modifiers { depressed, latched, locked, group } => {
            assert_eq!((depressed, latched, locked, group), (1, 2, 3, 4));
        }
        _ => panic!("Wrong event type"),
    }
}

#[test]
fn pointer_events_of_the_translator() {
    let translator = InputTranslator::new();
    assert_eq!(translator.motion_event(256, 512, 9), PointerEvent::Motion { time: 9, x: 256, y: 512 });
    assert_eq!(
        translator.button_event(1, true, 3),
        PointerEvent::Button { time: 3, button: 0x111, state: ButtonState::Pressed }
    );
    assert_eq!(
        translator.button_event(2, false, 4),
        PointerEvent::Button { time: 4, button: 0x112, state: ButtonState::Released }
    );
}

#[test]
fn scroll_in_both_directions_ends_with_a_frame() {
    let translator = InputTranslator::new();
    let events = translator.scroll_event(-256, 512, 5);
    assert_eq!(
        events,
        vec![
            PointerEvent::Axis { time: 5, axis: AxisType::VerticalScroll, value: 512 },
            PointerEvent::Axis { time: 5, axis: AxisType::HorizontalScroll, value: -256 },
            PointerEvent::Frame,
        ]
    );
    assert_eq!(translator.scroll_event(0, 0, 5), vec![PointerEvent::Frame]);
}
