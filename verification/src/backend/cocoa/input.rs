//! Translation of the host's input into seat events: key codes, mouse
//! buttons and modifier flags of the host become what the wire carries.

use vstd::prelude::*;
use crate::protocol::seat::{AxisType, ButtonState, KeyState, KeyboardEvent, PointerEvent};

verus! {

/// The evdev key code that stands for a virtual key code of the host; 0
/// where the host's code names no key of the table.
pub open spec fn evdev_keycode(macos_keycode: u16) -> u32 {
    match macos_keycode {
        0x00 => 30, // A
        0x01 => 31, // S
        0x02 => 32, // D
        0x03 => 33, // F
        0x04 => 35, // H
        0x05 => 34, // G
        0x06 => 44, // Z
        0x07 => 45, // X
        0x08 => 46, // C
        0x09 => 47, // V
        0x0B => 48, // B
        0x0C => 16, // Q
        0x0D => 17, // W
        0x0E => 18, // E
        0x0F => 19, // R
        0x10 => 21, // Y
        0x11 => 20, // T
        0x12 => 2, // 1
        0x13 => 3, // 2
        0x14 => 4, // 3
        0x15 => 5, // 4
        0x16 => 7, // 6
        0x17 => 6, // 5
        0x18 => 13, // =
        0x19 => 10, // 9
        0x1A => 8, // 7
        0x1B => 12, // -
        0x1C => 9, // 8
        0x1D => 11, // 0
        0x1E => 27, // ]
        0x1F => 24, // O
        0x20 => 22, // U
        0x21 => 26, // [
        0x22 => 23, // I
        0x23 => 25, // P
        0x24 => 28, // Return
        0x25 => 38, // L
        0x26 => 36, // J
        0x27 => 40, // '
        0x28 => 37, // K
        0x29 => 39, // ;
        0x2A => 43, // \
        0x2B => 51, // ,
        0x2C => 53, // /
        0x2D => 49, // N
        0x2E => 50, // M
        0x2F => 52, // .
        0x30 => 15, // Tab
        0x31 => 57, // Space
        0x32 => 41, // `
        0x33 => 14, // Backspace
        0x35 => 1, // Escape
        0x37 => 125, // Left Command
        0x38 => 42, // Left Shift
        0x39 => 58, // Caps Lock
        0x3A => 56, // Left Alt/Option
        0x3B => 29, // Left Control
        0x3C => 54, // Right Shift
        0x3D => 100, // Right Alt/Option
        0x3E => 97, // Right Control
        0x40 => 126, // F17
        0x4F => 127, // F18
        0x50 => 128, // F19
        0x5A => 129, // F20
        0x60 => 63, // F5
        0x61 => 64, // F6
        0x62 => 65, // F7
        0x63 => 61, // F3
        0x64 => 66, // F8
        0x65 => 67, // F9
        0x67 => 87, // F11
        0x69 => 183, // F13
        0x6A => 184, // F16
        0x6B => 185, // F14
        0x6D => 68, // F10
        0x6F => 88, // F12
        0x71 => 186, // F15
        0x72 => 110, // Insert (Help on Mac)
        0x73 => 102, // Home
        0x74 => 104, // Page Up
        0x75 => 111, // Delete
        0x76 => 62, // F4
        0x77 => 107, // End
        0x78 => 60, // F2
        0x79 => 109, // Page Down
        0x7A => 59, // F1
        0x7B => 105, // Left Arrow
        0x7C => 106, // Right Arrow
        0x7D => 108, // Down Arrow
        0x7E => 103, // Up Arrow
        _ => 0, // Unknown key
    }
}

/// A key of the table has a key code of its own: no two host codes share
/// an evdev code, and no key of the table has the code 0.
pub proof fn lemma_keycodes_distinct(a: u16, b: u16)
    requires
        evdev_keycode(a) == evdev_keycode(b),
        evdev_keycode(a) != 0,
    ensures
        a == b,
{
}

/// Every key code of the table lies in the range of evdev key codes
/// that a keymap covers.
pub proof fn lemma_keycode_range(code: u16)
    ensures
        evdev_keycode(code) <= 186,
        code > 0x7E ==> evdev_keycode(code) == 0,
{
}

/// The evdev button code of a mouse button of the host, counted from 0:
/// left, right, middle, side, extra. Any other button counts as the left
/// one.
pub open spec fn evdev_button(macos_button: i32) -> u32 {
    if 0 <= macos_button <= 4 {
        (0x110 + macos_button) as u32
    } else {
        0x110
    }
}

/// The modifiers that are held down, as a mask of the keymap's
/// modifiers: shift is bit 0, control bit 2, alt bit 3 and logo bit 6.
/// The host reports shift as bit 17 of its flags, control as bit 18,
/// option as bit 19 and command as bit 20.
pub open spec fn depressed_modifiers(macos_flags: u64) -> u32 {
    ((if macos_flags & 0x2_0000 != 0 {
        1int
    } else {
        0int
    }) + (if macos_flags & 0x4_0000 != 0 {
        4int
    } else {
        0int
    }) + (if macos_flags & 0x8_0000 != 0 {
        8int
    } else {
        0int
    }) + (if macos_flags & 0x10_0000 != 0 {
        64int
    } else {
        0int
    })) as u32
}

/// The modifiers that are locked: caps lock, bit 1 of the mask, which
/// the host reports as bit 16 of its flags.
pub open spec fn locked_modifiers(macos_flags: u64) -> u32 {
    if macos_flags & 0x1_0000 != 0 {
        2
    } else {
        0
    }
}

/// The events of one scroll step: the vertical part where there is one,
/// then the horizontal part where there is one, then the frame that ends
/// the batch.
pub open spec fn scroll_events(dx: i32, dy: i32, time: u32) -> Seq<PointerEvent> {
    (if dy != 0 {
        seq![PointerEvent::Axis { time, axis: AxisType::VerticalScroll, value: dy }]
    } else {
        Seq::empty()
    }) + (if dx != 0 {
        seq![PointerEvent::Axis { time, axis: AxisType::HorizontalScroll, value: dx }]
    } else {
        Seq::empty()
    }) + seq![PointerEvent::Frame]
}

/// Translates macOS NSEvent to Wayland input events
#[derive(Debug)]
pub struct InputTranslator;

impl InputTranslator {
    /// Create a new input translator
    pub fn new() -> Self {
        InputTranslator
    }

    /// Translate a key code from macOS to Linux/evdev keycode
    pub fn translate_keycode(&self, macos_keycode: u16) -> (code: u32)
        ensures
            code == evdev_keycode(macos_keycode),
    {
        // macOS virtual key codes to Linux evdev keycodes
        match macos_keycode {
            0x00 => 30, // A
            0x01 => 31, // S
            0x02 => 32, // D
            0x03 => 33, // F
            0x04 => 35, // H
            0x05 => 34, // G
            0x06 => 44, // Z
            0x07 => 45, // X
            0x08 => 46, // C
            0x09 => 47, // V
            0x0B => 48, // B
            0x0C => 16, // Q
            0x0D => 17, // W
            0x0E => 18, // E
            0x0F => 19, // R
            0x10 => 21, // Y
            0x11 => 20, // T
            0x12 => 2, // 1
            0x13 => 3, // 2
            0x14 => 4, // 3
            0x15 => 5, // 4
            0x16 => 7, // 6
            0x17 => 6, // 5
            0x18 => 13, // =
            0x19 => 10, // 9
            0x1A => 8, // 7
            0x1B => 12, // -
            0x1C => 9, // 8
            0x1D => 11, // 0
            0x1E => 27, // ]
            0x1F => 24, // O
            0x20 => 22, // U
            0x21 => 26, // [
            0x22 => 23, // I
            0x23 => 25, // P
            0x24 => 28, // Return
            0x25 => 38, // L
            0x26 => 36, // J
            0x27 => 40, // '
            0x28 => 37, // K
            0x29 => 39, // ;
            0x2A => 43, // \
            0x2B => 51, // ,
            0x2C => 53, // /
            0x2D => 49, // N
            0x2E => 50, // M
            0x2F => 52, // .
            0x30 => 15, // Tab
            0x31 => 57, // Space
            0x32 => 41, // `
            0x33 => 14, // Backspace
            0x35 => 1, // Escape
            0x37 => 125, // Left Command
            0x38 => 42, // Left Shift
            0x39 => 58, // Caps Lock
            0x3A => 56, // Left Alt/Option
            0x3B => 29, // Left Control
            0x3C => 54, // Right Shift
            0x3D => 100, // Right Alt/Option
            0x3E => 97, // Right Control
            0x40 => 126, // F17
            0x4F => 127, // F18
            0x50 => 128, // F19
            0x5A => 129, // F20
            0x60 => 63, // F5
            0x61 => 64, // F6
            0x62 => 65, // F7
            0x63 => 61, // F3
            0x64 => 66, // F8
            0x65 => 67, // F9
            0x67 => 87, // F11
            0x69 => 183, // F13
            0x6A => 184, // F16
            0x6B => 185, // F14
            0x6D => 68, // F10
            0x6F => 88, // F12
            0x71 => 186, // F15
            0x72 => 110, // Insert (Help on Mac)
            0x73 => 102, // Home
            0x74 => 104, // Page Up
            0x75 => 111, // Delete
            0x76 => 62, // F4
            0x77 => 107, // End
            0x78 => 60, // F2
            0x79 => 109, // Page Down
            0x7A => 59, // F1
            0x7B => 105, // Left Arrow
            0x7C => 106, // Right Arrow
            0x7D => 108, // Down Arrow
            0x7E => 103, // Up Arrow
            _ => 0, // Unknown key
        }
    }

    /// Translate mouse button from macOS to Linux button code
    pub fn translate_button(&self, macos_button: i32) -> (code: u32)
        ensures
            code == evdev_button(macos_button),
    {
        // macOS button numbers to Linux evdev button codes
        match macos_button {
            0 => 0x110, // BTN_LEFT
            1 => 0x111, // BTN_RIGHT
            2 => 0x112, // BTN_MIDDLE
            3 => 0x113, // BTN_SIDE
            4 => 0x114, // BTN_EXTRA
            _ => 0x110, // Default to left
        }
    }

    /// Create a key event
    pub fn key_event(&self, keycode: u16, pressed: bool, time: u32) -> (event: KeyboardEvent)
        ensures
            event == (KeyboardEvent::Key {
                time,
                key: evdev_keycode(keycode),
                state: if pressed {
                    KeyState::Pressed
                } else {
                    KeyState::Released
                },
            }),
    {
        let key = self.translate_keycode(keycode);
        let state = if pressed {
            KeyState::Pressed
        } else {
            KeyState::Released
        };

        KeyboardEvent::Key { time, key, state }
    }

    /// Create a modifier event
    pub fn modifier_event(&self, depressed: u32, latched: u32, locked: u32, group: u32) -> (event:
        KeyboardEvent)
        ensures
            event == (KeyboardEvent::Modifiers { depressed, latched, locked, group }),
    {
        KeyboardEvent::Modifiers { depressed, latched, locked, group }
    }

    /// Create a pointer motion event
    pub fn motion_event(&self, x: i32, y: i32, time: u32) -> (event: PointerEvent)
        ensures
            event == (PointerEvent::Motion { time, x, y }),
    {
        PointerEvent::Motion { time, x, y }
    }

    /// Create a pointer button event
    pub fn button_event(&self, button: i32, pressed: bool, time: u32) -> (event: PointerEvent)
        ensures
            event == (PointerEvent::Button {
                time,
                button: evdev_button(button),
                state: if pressed {
                    ButtonState::Pressed
                } else {
                    ButtonState::Released
                },
            }),
    {
        let button = self.translate_button(button);
        let state = if pressed {
            ButtonState::Pressed
        } else {
            ButtonState::Released
        };

        PointerEvent::Button { time, button, state }
    }

    /// Create a scroll/axis event
    pub fn scroll_event(&self, dx: i32, dy: i32, time: u32) -> (events: Vec<PointerEvent>)
        ensures
            events@ == scroll_events(dx, dy, time),
            events@.last() == PointerEvent::Frame,
    {
        let mut events: Vec<PointerEvent> = Vec::new();

        if dy != 0 {
            events.push(PointerEvent::Axis { time, axis: AxisType::VerticalScroll, value: dy });
        }

        if dx != 0 {
            events.push(PointerEvent::Axis { time, axis: AxisType::HorizontalScroll, value: dx });
        }

        events.push(PointerEvent::Frame);
        assert(events@ =~= scroll_events(dx, dy, time));
        events
    }

    /// Translate macOS modifier flags to XKB modifier mask: the modifiers
    /// that are held down, latched and locked, and the layout group
    pub fn translate_modifiers(&self, macos_flags: u64) -> (mods: (u32, u32, u32, u32))
        ensures
            mods.0 == depressed_modifiers(macos_flags),
            mods.1 == 0,
            mods.2 == locked_modifiers(macos_flags),
            mods.3 == 0,
    {
        // macOS NSEventModifierFlags to XKB modifier state
        let mut depressed: u32 = 0;
        let latched: u32 = 0;
        let group: u32 = 0;

        let shift = macos_flags & (1 << 17) != 0;
        let control = macos_flags & (1 << 18) != 0;
        let alt = macos_flags & (1 << 19) != 0;
        let logo = macos_flags & (1 << 20) != 0;
        let caps = macos_flags & (1 << 16) != 0;
        assert((1u64 << 17) == 0x2_0000 && (1u64 << 18) == 0x4_0000 && (1u64 << 19) == 0x8_0000 && (
        1u64 << 20) == 0x10_0000 && (1u64 << 16) == 0x1_0000) by (bit_vector);

        // Shift
        if shift {
            depressed = depressed | 1; // MOD_SHIFT
        }
        let ghost d1 = depressed;
        // Control
        if control {
            depressed = depressed | 4; // MOD_CTRL
        }
        let ghost d2 = depressed;
        // Alt/Option
        if alt {
            depressed = depressed | 8; // MOD_ALT
        }
        let ghost d3 = depressed;
        // Command (map to Super/Logo)
        if logo {
            depressed = depressed | 64; // MOD_LOGO
        }
        assert(depressed == (if shift { 1u32 } else { 0u32 }) + (if control { 4u32 } else { 0u32 })
            + (if alt { 8u32 } else { 0u32 }) + (if logo { 64u32 } else { 0u32 })) by (bit_vector)
            requires
                d1 == if shift { 0u32 | 1u32 } else { 0u32 },
                d2 == if control { d1 | 4u32 } else { d1 },
                d3 == if alt { d2 | 8u32 } else { d2 },
                depressed == if logo { d3 | 64u32 } else { d3 },
        ;
        // Caps Lock
        let locked: u32 = if caps {
            2  // MOD_CAPS
        } else {
            0
        };

        (depressed, latched, locked, group)
    }
}

impl Default for InputTranslator {
    fn default() -> Self {
        InputTranslator
    }
}

} // verus!
