//! Pointer state: focus, position, pressed buttons, cursor and grab.
//!
//! Coordinates are fixed-point numbers as the wire carries them: a
//! signed 32-bit value that counts 256ths of a pixel.

use vstd::prelude::*;
use crate::compositor::surface::SurfaceId;
use crate::input::{first_index, position_of};

verus! {

/// Resize edge for resize grab
#[derive(Debug, Clone, Copy, PartialEq, Eq, Structural)]
pub enum ResizeEdge {
    NoEdge,
    Top,
    Bottom,
    Left,
    Right,
    TopLeft,
    TopRight,
    BottomLeft,
    BottomRight,
}

/// Type of pointer grab
#[derive(Debug, Clone, Copy, PartialEq, Eq, Structural)]
pub enum GrabType {
    /// Button press grab
    Button,
    /// Popup grab
    Popup,
    /// Move operation
    Move,
    /// Resize operation
    Resize(ResizeEdge),
}

/// Pointer grab state
#[derive(Debug, Clone, Copy, PartialEq, Eq, Structural)]
pub struct PointerGrab {
    /// Surface that has the grab
    pub surface: SurfaceId,
    /// Serial that initiated the grab
    pub serial: u32,
    /// Type of grab
    pub grab_type: GrabType,
}

/// Pointer state
#[derive(Debug)]
pub struct Pointer {
    /// Currently focused surface
    focus: Option<SurfaceId>,
    /// Position in focused surface coordinates
    position: (i32, i32),
    /// Currently pressed buttons
    pressed_buttons: Vec<u32>,
    /// Cursor surface (for software cursor)
    cursor_surface: Option<SurfaceId>,
    /// Cursor hotspot
    cursor_hotspot: (i32, i32),
    /// Grab state
    grab: Option<PointerGrab>,
}

/// A pointer as a mathematical value.
pub struct PointerView {
    pub focus: Option<SurfaceId>,
    pub position: (i32, i32),
    /// The pressed buttons, in the order in which they went down
    pub pressed: Seq<u32>,
    pub cursor_surface: Option<SurfaceId>,
    pub cursor_hotspot: (i32, i32),
    pub grab: Option<PointerGrab>,
}

impl PointerView {
    /// No button is listed twice.
    pub open spec fn wf(self) -> bool {
        self.pressed.no_duplicates()
    }
}

impl View for Pointer {
    type V = PointerView;

    closed spec fn view(&self) -> PointerView {
        PointerView {
            focus: self.focus,
            position: self.position,
            pressed: self.pressed_buttons@,
            cursor_surface: self.cursor_surface,
            cursor_hotspot: self.cursor_hotspot,
            grab: self.grab,
        }
    }
}

/// Result of a focus change operation
#[derive(Debug, Clone, Copy, PartialEq, Eq, Structural)]
pub struct PointerFocusChange {
    /// Previously focused surface
    pub old_focus: Option<SurfaceId>,
    /// Newly focused surface
    pub new_focus: Option<SurfaceId>,
    /// X coordinate in new surface
    pub x: i32,
    /// Y coordinate in new surface
    pub y: i32,
}

impl Pointer {
    /// A pointer that was just created: no focus, at the origin, no
    /// button down, no cursor, no grab.
    pub open spec fn new_view() -> PointerView {
        PointerView {
            focus: None,
            position: (0, 0),
            pressed: Seq::empty(),
            cursor_surface: None,
            cursor_hotspot: (0, 0),
            grab: None,
        }
    }

    /// Create a new pointer
    pub fn new() -> (p: Self)
        ensures
            p@ == Self::new_view(),
            p@.wf(),
    {
        Pointer {
            focus: None,
            position: (0, 0),
            pressed_buttons: Vec::new(),
            cursor_surface: None,
            cursor_hotspot: (0, 0),
            grab: None,
        }
    }

    /// Set pointer focus to a surface
    pub fn set_focus(&mut self, surface: Option<SurfaceId>, x: i32, y: i32) -> (change:
        PointerFocusChange)
        ensures
            final(self)@ == (PointerView { focus: surface, position: (x, y), ..old(self)@ }),
            change == (PointerFocusChange {
                old_focus: old(self)@.focus,
                new_focus: surface,
                x,
                y,
            }),
    {
        let old_focus = self.focus;

        self.focus = surface;
        self.position = (x, y);

        PointerFocusChange { old_focus, new_focus: surface, x, y }
    }

    /// Get the currently focused surface
    pub fn focus(&self) -> (f: Option<SurfaceId>)
        ensures
            f == self@.focus,
    {
        self.focus
    }

    /// Update pointer position
    pub fn motion(&mut self, x: i32, y: i32)
        ensures
            final(self)@ == (PointerView { position: (x, y), ..old(self)@ }),
    {
        self.position = (x, y);
    }

    /// Get current position
    pub fn position(&self) -> (p: (i32, i32))
        ensures
            p == self@.position,
    {
        self.position
    }

    /// Handle a button press. A button that is already down stays as it
    /// is and the answer is `false`.
    pub fn button_press(&mut self, button: u32) -> (pressed: bool)
        ensures
            pressed == !old(self)@.pressed.contains(button),
            final(self)@ == (PointerView {
                pressed: if pressed {
                    old(self)@.pressed.push(button)
                } else {
                    old(self)@.pressed
                },
                ..old(self)@
            }),
            old(self)@.wf() ==> final(self)@.wf(),
    {
        match position_of(&self.pressed_buttons, button) {
            Some(_) => false,
            None => {
                self.pressed_buttons.push(button);
                proof {
                    let before = old(self)@.pressed;
                    let after = self@.pressed;
                    if before.no_duplicates() {
                        assert forall|i: int, j: int|
                            0 <= i < after.len() && 0 <= j < after.len() && i != j implies after[i]
                            != after[j] by {
                            if i < before.len() {
                                assert(before.contains(after[i]));
                            }
                            if j < before.len() {
                                assert(before.contains(after[j]));
                            }
                        }
                    }
                }
                true
            },
        }
    }

    /// Handle a button release. A button that is not down changes nothing
    /// and the answer is `false`.
    pub fn button_release(&mut self, button: u32) -> (released: bool)
        ensures
            released == old(self)@.pressed.contains(button),
            final(self)@ == (PointerView {
                pressed: if released {
                    old(self)@.pressed.remove(first_index(old(self)@.pressed, button))
                } else {
                    old(self)@.pressed
                },
                ..old(self)@
            }),
            old(self)@.wf() ==> !final(self)@.pressed.contains(button),
            old(self)@.wf() ==> final(self)@.wf(),
    {
        match position_of(&self.pressed_buttons, button) {
            Some(idx) => {
                self.pressed_buttons.remove(idx);
                proof {
                    let before = old(self)@.pressed;
                    let after = self@.pressed;
                    assert(after == before.remove(idx as int));
                    assert forall|i: int| 0 <= i < after.len() implies after[i] == before[if i
                        < idx {
                        i
                    } else {
                        i + 1
                    }] by {}
                    if before.no_duplicates() {
                        assert forall|i: int| 0 <= i < after.len() implies after[i] != button by {}
                    }
                }
                true
            },
            None => false,
        }
    }

    /// Get currently pressed buttons
    pub fn pressed_buttons(&self) -> (buttons: &[u32])
        ensures
            buttons@ == self@.pressed,
    {
        self.pressed_buttons.as_slice()
    }

    /// Check if any button is pressed
    pub fn has_button_pressed(&self) -> (b: bool)
        ensures
            b == (self@.pressed.len() > 0),
    {
        !self.pressed_buttons.is_empty()
    }

    /// Set the cursor surface
    pub fn set_cursor(&mut self, surface: Option<SurfaceId>, hotspot_x: i32, hotspot_y: i32)
        ensures
            final(self)@ == (PointerView {
                cursor_surface: surface,
                cursor_hotspot: (hotspot_x, hotspot_y),
                ..old(self)@
            }),
    {
        self.cursor_surface = surface;
        self.cursor_hotspot = (hotspot_x, hotspot_y);
    }

    /// Get the cursor surface
    pub fn cursor(&self) -> (c: Option<SurfaceId>)
        ensures
            c == self@.cursor_surface,
    {
        self.cursor_surface
    }

    /// Get cursor hotspot
    pub fn cursor_hotspot(&self) -> (h: (i32, i32))
        ensures
            h == self@.cursor_hotspot,
    {
        self.cursor_hotspot
    }

    /// Start a grab
    pub fn start_grab(&mut self, surface: SurfaceId, serial: u32, grab_type: GrabType)
        ensures
            final(self)@ == (PointerView {
                grab: Some(PointerGrab { surface, serial, grab_type }),
                ..old(self)@
            }),
    {
        self.grab = Some(PointerGrab { surface, serial, grab_type });
    }

    /// End the current grab
    pub fn end_grab(&mut self)
        ensures
            final(self)@ == (PointerView { grab: None, ..old(self)@ }),
    {
        self.grab = None;
    }

    /// Get the current grab
    pub fn grab(&self) -> (g: Option<&PointerGrab>)
        ensures
            match g {
                Some(grab) => self@.grab == Some(*grab),
                None => self@.grab is None,
            },
    {
        self.grab.as_ref()
    }

    /// Check if there's an active grab
    pub fn has_grab(&self) -> (b: bool)
        ensures
            b == self@.grab is Some,
    {
        self.grab.is_some()
    }
}

impl Default for Pointer {
    fn default() -> (p: Self)
        ensures
            p@.focus is None,
            p@.pressed == Seq::<u32>::empty(),
            p@.wf(),
    {
        Pointer::new()
    }
}

} // verus!
