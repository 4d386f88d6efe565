//! Keyboard state: focus, pressed keys, modifiers, repeat settings and
//! keymap.

use vstd::prelude::*;
use crate::compositor::surface::SurfaceId;
use crate::input::{first_index, position_of};

verus! {

/// Keyboard modifier state
#[derive(Debug, Clone, Copy, PartialEq, Eq, Structural)]
pub struct ModifierState {
    /// Depressed modifiers (currently held down)
    pub depressed: u32,
    /// Latched modifiers (sticky, cleared on next key)
    pub latched: u32,
    /// Locked modifiers (toggled, like caps lock)
    pub locked: u32,
    /// Keyboard group/layout
    pub group: u32,
}

impl Default for ModifierState {
    fn default() -> (m: Self)
        ensures
            m == (ModifierState { depressed: 0, latched: 0, locked: 0, group: 0 }),
    {
        ModifierState { depressed: 0, latched: 0, locked: 0, group: 0 }
    }
}

/// Keyboard state and XKB integration
#[derive(Debug)]
pub struct Keyboard {
    /// Currently focused surface
    focus: Option<SurfaceId>,
    /// Currently pressed keys (keycodes)
    pressed_keys: Vec<u32>,
    /// Modifier state
    modifiers: ModifierState,
    /// Repeat rate (characters per second)
    repeat_rate: u32,
    /// Repeat delay (milliseconds)
    repeat_delay: u32,
    /// Keymap string (XKB format)
    keymap: Option<String>,
}

/// A keyboard as a mathematical value.
pub struct KeyboardView {
    pub focus: Option<SurfaceId>,
    /// The pressed keys, in the order in which they went down
    pub pressed: Seq<u32>,
    pub modifiers: ModifierState,
    pub repeat_rate: u32,
    pub repeat_delay: u32,
    pub keymap: Option<String>,
}

impl KeyboardView {
    /// No key is listed twice.
    pub open spec fn wf(self) -> bool {
        self.pressed.no_duplicates()
    }
}

impl View for Keyboard {
    type V = KeyboardView;

    closed spec fn view(&self) -> KeyboardView {
        KeyboardView {
            focus: self.focus,
            pressed: self.pressed_keys@,
            modifiers: self.modifiers,
            repeat_rate: self.repeat_rate,
            repeat_delay: self.repeat_delay,
            keymap: self.keymap,
        }
    }
}

/// Result of a focus change operation
#[derive(Debug)]
pub struct KeyboardFocusChange {
    /// Previously focused surface
    pub old_focus: Option<SurfaceId>,
    /// Newly focused surface
    pub new_focus: Option<SurfaceId>,
    /// Keys that were pressed when focus changed
    pub pressed_keys: Vec<u32>,
}

impl Keyboard {
    /// A keyboard that was just created: no focus, no key down, no
    /// modifier, 25 repeats a second after 600 milliseconds, no keymap.
    pub open spec fn new_view() -> KeyboardView {
        KeyboardView {
            focus: None,
            pressed: Seq::empty(),
            modifiers: ModifierState { depressed: 0, latched: 0, locked: 0, group: 0 },
            repeat_rate: 25,
            repeat_delay: 600,
            keymap: None,
        }
    }

    /// Create a new keyboard
    pub fn new() -> (k: Self)
        ensures
            k@ == Self::new_view(),
            k@.wf(),
    {
        Keyboard {
            focus: None,
            pressed_keys: Vec::new(),
            modifiers: ModifierState::default(),
            repeat_rate: 25,
            repeat_delay: 600,
            keymap: None,
        }
    }

    /// Set keyboard focus to a surface. The result names the surface that
    /// lost the focus, the one that gained it, and the keys that were down
    /// at that moment.
    pub fn set_focus(&mut self, surface: Option<SurfaceId>) -> (change: KeyboardFocusChange)
        ensures
            final(self)@ == (KeyboardView { focus: surface, ..old(self)@ }),
            change.old_focus == old(self)@.focus,
            change.new_focus == surface,
            change.pressed_keys@ == old(self)@.pressed,
    {
        let old_focus = self.focus;
        self.focus = surface;

        KeyboardFocusChange { old_focus, new_focus: surface, pressed_keys: self.pressed_keys.clone() }
    }

    /// Get the currently focused surface
    pub fn focus(&self) -> (f: Option<SurfaceId>)
        ensures
            f == self@.focus,
    {
        self.focus
    }

    /// Handle a key press. A key that is already down stays as it is and
    /// the answer is `false`.
    pub fn key_press(&mut self, keycode: u32) -> (pressed: bool)
        ensures
            pressed == !old(self)@.pressed.contains(keycode),
            final(self)@ == (KeyboardView {
                pressed: if pressed {
                    old(self)@.pressed.push(keycode)
                } else {
                    old(self)@.pressed
                },
                ..old(self)@
            }),
            old(self)@.wf() ==> final(self)@.wf(),
    {
        match position_of(&self.pressed_keys, keycode) {
            Some(_) => false,
            None => {
                self.pressed_keys.push(keycode);
                proof {
                    let before = old(self)@.pressed;
                    let after = self@.pressed;
                    if before.no_duplicates() {
                        assert forall|i: int, j: int|
                            0 <= i < after.len() && 0 <= j < after.len() && i != j implies after[i]
                            != after[j] by {
                            if i < before.len() {
                                assert(before.contains(after[i]));
                            }
                            if j < before.len() {
                                assert(before.contains(after[j]));
                            }
                        }
                    }
                }
                true
            },
        }
    }

    /// Handle a key release. A key that is not down changes nothing and
    /// the answer is `false`.
    pub fn key_release(&mut self, keycode: u32) -> (released: bool)
        ensures
            released == old(self)@.pressed.contains(keycode),
            final(self)@ == (KeyboardView {
                pressed: if released {
                    old(self)@.pressed.remove(first_index(old(self)@.pressed, keycode))
                } else {
                    old(self)@.pressed
                },
                ..old(self)@
            }),
            old(self)@.wf() ==> !final(self)@.pressed.contains(keycode),
            old(self)@.wf() ==> final(self)@.wf(),
    {
        match position_of(&self.pressed_keys, keycode) {
            Some(idx) => {
                self.pressed_keys.remove(idx);
                proof {
                    let before = old(self)@.pressed;
                    let after = self@.pressed;
                    assert(after == before.remove(idx as int));
                    assert forall|i: int| 0 <= i < after.len() implies after[i] == before[if i
                        < idx {
                        i
                    } else {
                        i + 1
                    }] by {}
                    if before.no_duplicates() {
                        assert forall|i: int| 0 <= i < after.len() implies after[i] != keycode by {}
                    }
                }
                true
            },
            None => false,
        }
    }

    /// Update modifier state
    pub fn update_modifiers(&mut self, modifiers: ModifierState)
        ensures
            final(self)@ == (KeyboardView { modifiers, ..old(self)@ }),
    {
        self.modifiers = modifiers;
    }

    /// Get current modifier state
    pub fn modifiers(&self) -> (m: ModifierState)
        ensures
            m == self@.modifiers,
    {
        self.modifiers
    }

    /// Get currently pressed keys
    pub fn pressed_keys(&self) -> (keys: &[u32])
        ensures
            keys@ == self@.pressed,
    {
        self.pressed_keys.as_slice()
    }

    /// Set repeat rate
    pub fn set_repeat_rate(&mut self, rate: u32)
        ensures
            final(self)@ == (KeyboardView { repeat_rate: rate, ..old(self)@ }),
    {
        self.repeat_rate = rate;
    }

    /// Set repeat delay
    pub fn set_repeat_delay(&mut self, delay: u32)
        ensures
            final(self)@ == (KeyboardView { repeat_delay: delay, ..old(self)@ }),
    {
        self.repeat_delay = delay;
    }

    /// Get repeat info
    pub fn repeat_info(&self) -> (info: (u32, u32))
        ensures
            info == (self@.repeat_rate, self@.repeat_delay),
    {
        (self.repeat_rate, self.repeat_delay)
    }

    /// Set the keymap
    pub fn set_keymap(&mut self, keymap: String)
        ensures
            final(self)@ == (KeyboardView { keymap: Some(keymap), ..old(self)@ }),
    {
        self.keymap = Some(keymap);
    }

    /// Get the keymap
    pub fn keymap(&self) -> (k: Option<&str>)
        ensures
            match k {
                Some(text) => self@.keymap is Some && text@ == self@.keymap->0@,
                None => self@.keymap is None,
            },
    {
        match &self.keymap {
            Some(text) => Some(text.as_str()),
            None => None,
        }
    }

    /// The text of the default keymap: a US layout on evdev key codes.
    pub open spec fn default_keymap_text() -> Seq<char> {
        "xkb_keymap {\n    xkb_keycodes \"evdev+aliases(qwerty)\" { };\n    xkb_types \"complete\" { };\n    xkb_compat \"complete\" { };\n    xkb_symbols \"pc+us+inet(evdev)\" { };\n    xkb_geometry \"pc(pc105)\" { };\n};"@
    }

    /// Create a default XKB keymap string
    pub fn default_keymap() -> (keymap: String)
        ensures
            keymap@ == Self::default_keymap_text(),
    {
        "xkb_keymap {\n    xkb_keycodes \"evdev+aliases(qwerty)\" { };\n    xkb_types \"complete\" { };\n    xkb_compat \"complete\" { };\n    xkb_symbols \"pc+us+inet(evdev)\" { };\n    xkb_geometry \"pc(pc105)\" { };\n};".to_string()
    }
}

impl Default for Keyboard {
    fn default() -> (k: Self)
        ensures
            k@.focus is None,
            k@.pressed == Seq::<u32>::empty(),
            k@.wf(),
    {
        Keyboard::new()
    }
}

} // verus!
