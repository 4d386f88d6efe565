use wayoa::compositor::surface::SurfaceId;
use wayoa::input::keyboard::{Keyboard, ModifierState};

#[test]
fn test_keyboard_new() {
    let keyboard = Keyboard::new();
    assert!(keyboard.focus().is_none());
    assert!(keyboard.pressed_keys().is_empty());
}

#[test]
fn test_key_press_release() {
    let mut keyboard = Keyboard::new();

    // Press a key
    assert!(keyboard.key_press(30)); // 'A' key
    assert!(keyboard.pressed_keys().contains(&30));

    // Press same key again should return false (already pressed)
    assert!(!keyboard.key_press(30));

    // Release the key
    assert!(keyboard.key_release(30));
    assert!(!keyboard.pressed_keys().contains(&30));

    // Release again should return false
    assert!(!keyboard.key_release(30));
}

#[test]
fn keyboard_test_focus_change() {
    let mut keyboard = Keyboard::new();

    let surface1 = SurfaceId(1);
    let surface2 = SurfaceId(2);

    // Set initial focus
    let change = keyboard.set_focus(Some(surface1));
    assert!(change.old_focus.is_none());
    assert_eq!(change.new_focus, Some(surface1));

    // Change focus
    let change = keyboard.set_focus(Some(surface2));
    assert_eq!(change.old_focus, Some(surface1));
    assert_eq!(change.new_focus, Some(surface2));
}

#[test]
fn test_modifiers() {
    let mut keyboard = Keyboard::new();

    let mods = ModifierState {
        depressed: 1,
        latched: 0,
        locked: 2,
        group: 0,
    };

    keyboard.update_modifiers(mods);
    assert_eq!(keyboard.modifiers().depressed, 1);
    assert_eq!(keyboard.modifiers().locked, 2);
}

#[test]
fn test_repeat_info() {
    let mut keyboard = Keyboard::new();
    keyboard.set_repeat_rate(30);
    keyboard.set_repeat_delay(500);

    let (rate, delay) = keyboard.repeat_info();
    assert_eq!(rate, 30);
    assert_eq!(delay, 500);
}

#[test]
fn keyboard_defaults_and_keymap() {
    let mut keyboard = Keyboard::new();
    assert_eq!(keyboard.repeat_info(), (25, 600));
    assert!(keyboard.keymap().is_none());
    assert_eq!(keyboard.modifiers(), ModifierState::default());
    let keymap = Keyboard::default_keymap();
    assert!(keymap.starts_with("xkb_keymap {\n    xkb_keycodes \"evdev+aliases(qwerty)\" { };\n"));
    assert!(keymap.ends_with("    xkb_geometry \"pc(pc105)\" { };\n};"));
    assert_eq!(keymap.lines().count(), 7);
    keyboard.set_keymap(keymap.clone());
    assert_eq!(keyboard.keymap(), Some(keymap.as_str()));
}

#[test]
fn pressed_keys_keep_their_order_and_go_with_the_focus_change() {
    let mut keyboard = Keyboard::new();
    assert!(keyboard.key_press(30));
    assert!(keyboard.key_press(31));
    assert!(keyboard.key_press(32));
    assert!(keyboard.key_release(31));
    assert_eq!(keyboard.pressed_keys(), &[30, 32]);
    let change = keyboard.set_focus(Some(SurfaceId(4)));
    assert_eq!(change.pressed_keys, vec![30, 32]);
    assert_eq!(keyboard.focus(), Some(SurfaceId(4)));
    assert_eq!(keyboard.pressed_keys(), &[30, 32]);
    let change = keyboard.set_focus(None);
    assert_eq!(change.old_focus, Some(SurfaceId(4)));
    assert_eq!(change.new_focus, None);
}
