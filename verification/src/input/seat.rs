//! The seat: one keyboard and one pointer, and what the seat can do.

use vstd::prelude::*;
use crate::compositor::surface::SurfaceId;
use crate::input::keyboard::{Keyboard, KeyboardView};
use crate::input::pointer::{Pointer, PointerView};

verus! {

/// Seat capabilities
#[derive(Debug, Clone, Copy, PartialEq, Eq, Structural)]
pub struct SeatCapabilities {
    pub keyboard: bool,
    pub pointer: bool,
    pub touch: bool,
}

impl Default for SeatCapabilities {
    fn default() -> (c: Self)
        ensures
            c == (SeatCapabilities { keyboard: false, pointer: false, touch: false }),
    {
        SeatCapabilities { keyboard: false, pointer: false, touch: false }
    }
}

impl SeatCapabilities {
    /// The capability mask of the wire: 1 for a pointer, 2 for a
    /// keyboard, 4 for touch.
    pub open spec fn mask(self) -> u32 {
        ((if self.pointer {
            1int
        } else {
            0int
        }) + (if self.keyboard {
            2int
        } else {
            0int
        }) + (if self.touch {
            4int
        } else {
            0int
        })) as u32
    }

    /// Convert to Wayland capability flags
    pub fn to_wayland(&self) -> (flags: u32)
        ensures
            flags == self.mask(),
    {
        let ghost (pointer, keyboard, touch) = (self.pointer, self.keyboard, self.touch);
        let mut flags: u32 = 0;
        if self.pointer {
            flags = flags | 1;
        }
        let ghost low = flags;
        if self.keyboard {
            flags = flags | 2;
        }
        let ghost mid = flags;
        if self.touch {
            flags = flags | 4;
        }
        assert(flags == (if pointer { 1u32 } else { 0u32 }) + (if keyboard { 2u32 } else { 0u32 })
            + (if touch { 4u32 } else { 0u32 })) by (bit_vector)
            requires
                low == if pointer { 0u32 | 1u32 } else { 0u32 },
                mid == if keyboard { low | 2u32 } else { low },
                flags == if touch { mid | 4u32 } else { mid },
        ;
        flags
    }
}

/// Input seat that coordinates keyboard and pointer
#[derive(Debug)]
pub struct Seat {
    /// Seat name
    name: String,
    /// Keyboard device
    keyboard: Keyboard,
    /// Pointer device
    pointer: Pointer,
    /// Capabilities
    capabilities: SeatCapabilities,
}

/// A seat as a mathematical value.
pub struct SeatView {
    pub name: Seq<char>,
    pub keyboard: KeyboardView,
    pub pointer: PointerView,
    pub capabilities: SeatCapabilities,
}

impl SeatView {
    /// Keyboard and pointer are well formed.
    pub open spec fn wf(self) -> bool {
        self.keyboard.wf() && self.pointer.wf()
    }

    /// The seat after a surface has gone: where the surface had the
    /// keyboard's or the pointer's focus, was the cursor or held the grab,
    /// there is none afterwards.
    pub open spec fn without(self, surface: SurfaceId) -> SeatView {
        SeatView {
            keyboard: KeyboardView {
                focus: if self.keyboard.focus == Some(surface) {
                    None
                } else {
                    self.keyboard.focus
                },
                ..self.keyboard
            },
            pointer: PointerView {
                focus: if self.pointer.focus == Some(surface) {
                    None
                } else {
                    self.pointer.focus
                },
                cursor_surface: if self.pointer.cursor_surface == Some(surface) {
                    None
                } else {
                    self.pointer.cursor_surface
                },
                grab: match self.pointer.grab {
                    Some(grab) => if grab.surface == surface {
                        None
                    } else {
                        Some(grab)
                    },
                    None => None,
                },
                ..self.pointer
            },
            ..self
        }
    }
}

impl View for Seat {
    type V = SeatView;

    closed spec fn view(&self) -> SeatView {
        SeatView {
            name: self.name@,
            keyboard: self.keyboard@,
            pointer: self.pointer@,
            capabilities: self.capabilities,
        }
    }
}

impl Seat {
    /// Create a new seat
    pub fn new() -> (s: Self)
        ensures
            s@.name == "seat0"@,
            s@.keyboard == Keyboard::new_view(),
            s@.pointer == Pointer::new_view(),
            s@.capabilities == (SeatCapabilities { keyboard: true, pointer: true, touch: false }),
            s@.wf(),
    {
        Seat {
            name: "seat0".to_string(),
            keyboard: Keyboard::new(),
            pointer: Pointer::new(),
            capabilities: SeatCapabilities { keyboard: true, pointer: true, touch: false },
        }
    }

    /// Create a seat with a specific name
    pub fn with_name(name: String) -> (s: Self)
        ensures
            s@.name == name@,
            s@.keyboard == Keyboard::new_view(),
            s@.pointer == Pointer::new_view(),
            s@.capabilities == (SeatCapabilities { keyboard: true, pointer: true, touch: false }),
            s@.wf(),
    {
        Seat {
            name,
            keyboard: Keyboard::new(),
            pointer: Pointer::new(),
            capabilities: SeatCapabilities { keyboard: true, pointer: true, touch: false },
        }
    }

    /// Get the seat name
    pub fn name(&self) -> (n: &str)
        ensures
            n@ == self@.name,
    {
        self.name.as_str()
    }

    /// Get seat capabilities
    pub fn capabilities(&self) -> (c: SeatCapabilities)
        ensures
            c == self@.capabilities,
    {
        self.capabilities
    }

    /// Set seat capabilities
    pub fn set_capabilities(&mut self, capabilities: SeatCapabilities)
        ensures
            final(self)@ == (SeatView { capabilities, ..old(self)@ }),
    {
        self.capabilities = capabilities;
    }

    /// Get keyboard reference
    pub fn keyboard(&self) -> (k: &Keyboard)
        ensures
            k@ == self@.keyboard,
    {
        &self.keyboard
    }

    /// Get mutable keyboard reference
    pub fn keyboard_mut(&mut self) -> (k: &mut Keyboard)
        ensures
            k@ == old(self)@.keyboard,
            final(self)@ == (SeatView { keyboard: final(k)@, ..old(self)@ }),
    {
        &mut self.keyboard
    }

    /// Get pointer reference
    pub fn pointer(&self) -> (p: &Pointer)
        ensures
            p@ == self@.pointer,
    {
        &self.pointer
    }

    /// Get mutable pointer reference
    pub fn pointer_mut(&mut self) -> (p: &mut Pointer)
        ensures
            p@ == old(self)@.pointer,
            final(self)@ == (SeatView { pointer: final(p)@, ..old(self)@ }),
    {
        &mut self.pointer
    }

    /// Focus a surface for both keyboard and pointer
    pub fn focus_surface(&mut self, surface: Option<SurfaceId>, x: i32, y: i32)
        ensures
            final(self)@ == (SeatView {
                keyboard: KeyboardView { focus: surface, ..old(self)@.keyboard },
                pointer: PointerView { focus: surface, position: (x, y), ..old(self)@.pointer },
                ..old(self)@
            }),
    {
        let _ = self.keyboard.set_focus(surface);
        let _ = self.pointer.set_focus(surface, x, y);
    }

    /// Drops every reference to a surface that has gone.
    pub fn forget_surface(&mut self, surface: SurfaceId)
        ensures
            final(self)@ == old(self)@.without(surface),
            old(self)@.wf() ==> final(self)@.wf(),
    {
        let had_keyboard = match self.keyboard.focus() {
            Some(f) => f.0 == surface.0,
            None => false,
        };
        if had_keyboard {
            let _ = self.keyboard.set_focus(None);
        }
        let had_pointer = match self.pointer.focus() {
            Some(f) => f.0 == surface.0,
            None => false,
        };
        if had_pointer {
            let (x, y) = self.pointer.position();
            let _ = self.pointer.set_focus(None, x, y);
        }
        let was_cursor = match self.pointer.cursor() {
            Some(c) => c.0 == surface.0,
            None => false,
        };
        if was_cursor {
            let (x, y) = self.pointer.cursor_hotspot();
            self.pointer.set_cursor(None, x, y);
        }
        let held_grab = match self.pointer.grab() {
            Some(grab) => grab.surface.0 == surface.0,
            None => false,
        };
        if held_grab {
            self.pointer.end_grab();
        }
    }

    /// Get the keyboard-focused surface
    pub fn keyboard_focus(&self) -> (f: Option<SurfaceId>)
        ensures
            f == self@.keyboard.focus,
    {
        self.keyboard.focus()
    }

    /// Get the pointer-focused surface
    pub fn pointer_focus(&self) -> (f: Option<SurfaceId>)
        ensures
            f == self@.pointer.focus,
    {
        self.pointer.focus()
    }
}

impl Default for Seat {
    fn default() -> (s: Self)
        ensures
            s@.name == "seat0"@,
            s@.wf(),
    {
        Seat::new()
    }
}

} // verus!
