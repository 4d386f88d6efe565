//! The seat on the wire: capabilities, device state, and the events
//! that are sent to clients.
//!
//! Coordinates and scroll amounts are fixed-point numbers as the wire
//! carries them: a signed 32-bit value that counts 256ths.

use vstd::prelude::*;
use crate::compositor::surface::SurfaceId;

verus! {

/// Seat capabilities
#[derive(Debug, Clone, Copy, PartialEq, Eq, Structural)]
pub struct SeatCapabilities {
    pub pointer: bool,
    pub keyboard: bool,
    pub touch: bool,
}

impl Default for SeatCapabilities {
    fn default() -> (c: Self)
        ensures
            c == (SeatCapabilities { pointer: false, keyboard: false, touch: false }),
    {
        SeatCapabilities { pointer: false, keyboard: false, touch: false }
    }
}

impl SeatCapabilities {
    /// The capability mask of the wire: 1 for a pointer, 2 for a
    /// keyboard, 4 for touch.
    pub open spec fn mask(self) -> u32 {
        ((if self.pointer {
            1int
        } else {
            0int
        }) + (if self.keyboard {
            2int
        } else {
            0int
        }) + (if self.touch {
            4int
        } else {
            0int
        })) as u32
    }

    /// Convert to Wayland capability bitmask
    pub fn to_wayland(&self) -> (caps: u32)
        ensures
            caps == self.mask(),
    {
        let ghost (pointer, keyboard, touch) = (self.pointer, self.keyboard, self.touch);
        let mut caps: u32 = 0;
        if self.pointer {
            caps = caps | 1;
        }
        let ghost low = caps;
        if self.keyboard {
            caps = caps | 2;
        }
        let ghost mid = caps;
        if self.touch {
            caps = caps | 4;
        }
        assert(caps == (if pointer { 1u32 } else { 0u32 }) + (if keyboard { 2u32 } else { 0u32 })
            + (if touch { 4u32 } else { 0u32 })) by (bit_vector)
            requires
                low == if pointer { 0u32 | 1u32 } else { 0u32 },
                mid == if keyboard { low | 2u32 } else { low },
                caps == if touch { mid | 4u32 } else { mid },
        ;
        caps
    }
}

/// Handler for wl_seat protocol
#[derive(Debug)]
pub struct WlSeatHandler {
    /// Seat capabilities
    capabilities: SeatCapabilities,
    /// Seat name
    name: String,
}

impl WlSeatHandler {
    /// What the seat can do.
    pub closed spec fn caps(&self) -> SeatCapabilities {
        self.capabilities
    }

    /// The seat's name.
    pub closed spec fn name_text(&self) -> Seq<char> {
        self.name@
    }

    /// Create a new seat handler
    pub fn new() -> (h: Self)
        ensures
            h.caps() == (SeatCapabilities { pointer: true, keyboard: true, touch: false }),
            h.name_text() == "default"@,
    {
        WlSeatHandler {
            capabilities: SeatCapabilities { pointer: true, keyboard: true, touch: false },
            name: "default".to_string(),
        }
    }

    /// Get the seat capabilities
    pub fn capabilities(&self) -> (c: SeatCapabilities)
        ensures
            c == self.caps(),
    {
        self.capabilities
    }

    /// Get the seat name
    pub fn name(&self) -> (n: &str)
        ensures
            n@ == self.name_text(),
    {
        self.name.as_str()
    }

    /// Set capabilities
    pub fn set_capabilities(&mut self, caps: SeatCapabilities)
        ensures
            final(self).caps() == caps,
            final(self).name_text() == old(self).name_text(),
    {
        self.capabilities = caps;
    }
}

impl Default for WlSeatHandler {
    fn default() -> (h: Self)
        ensures
            h.caps() == (SeatCapabilities { pointer: true, keyboard: true, touch: false }),
            h.name_text() == "default"@,
    {
        WlSeatHandler::new()
    }
}

/// Keyboard modifier state
#[derive(Debug, Clone, Copy, PartialEq, Eq, Structural)]
pub struct ModifierState {
    pub depressed: u32,
    pub latched: u32,
    pub locked: u32,
    pub group: u32,
}

impl Default for ModifierState {
    fn default() -> (m: Self)
        ensures
            m == (ModifierState { depressed: 0, latched: 0, locked: 0, group: 0 }),
    {
        ModifierState { depressed: 0, latched: 0, locked: 0, group: 0 }
    }
}

/// Keyboard state
#[derive(Debug)]
pub struct KeyboardState {
    /// Currently focused surface
    pub focus: Option<SurfaceId>,
    /// Currently pressed keys (keycodes)
    pub pressed_keys: Vec<u32>,
    /// Modifier state
    pub modifiers: ModifierState,
}

impl Default for KeyboardState {
    fn default() -> (s: Self)
        ensures
            s.focus is None,
            s.pressed_keys@ == Seq::<u32>::empty(),
            s.modifiers == (ModifierState { depressed: 0, latched: 0, locked: 0, group: 0 }),
    {
        KeyboardState { focus: None, pressed_keys: Vec::new(), modifiers: ModifierState::default() }
    }
}

/// Pointer state
#[derive(Debug)]
pub struct PointerState {
    /// Currently focused surface
    pub focus: Option<SurfaceId>,
    /// Position in focused surface coordinates
    pub x: i32,
    pub y: i32,
    /// Currently pressed buttons
    pub pressed_buttons: Vec<u32>,
}

impl Default for PointerState {
    fn default() -> (s: Self)
        ensures
            s.focus is None,
            s.x == 0 && s.y == 0,
            s.pressed_buttons@ == Seq::<u32>::empty(),
    {
        PointerState { focus: None, x: 0, y: 0, pressed_buttons: Vec::new() }
    }
}

/// A touch point
#[derive(Debug, Clone, Copy, PartialEq, Eq, Structural)]
pub struct TouchPoint {
    /// Touch point ID
    pub id: i32,
    /// Surface being touched
    pub surface: SurfaceId,
    /// Position in surface coordinates
    pub x: i32,
    pub y: i32,
}

/// Touch state
#[derive(Debug)]
pub struct TouchState {
    /// Active touch points
    pub points: Vec<TouchPoint>,
}

impl Default for TouchState {
    fn default() -> (s: Self)
        ensures
            s.points@ == Seq::<TouchPoint>::empty(),
    {
        TouchState { points: Vec::new() }
    }
}

/// Key state
#[derive(Debug, Clone, Copy, PartialEq, Eq, Structural)]
pub enum KeyState {
    Released,
    Pressed,
}

impl KeyState {
    /// The number of the state on the wire.
    pub open spec fn code(self) -> u32 {
        match self {
            KeyState::Released => 0,
            KeyState::Pressed => 1,
        }
    }

    /// The number of the state on the wire.
    pub fn to_wayland(&self) -> (code: u32)
        ensures
            code == self.code(),
    {
        match self {
            KeyState::Released => 0,
            KeyState::Pressed => 1,
        }
    }
}

/// Keyboard events to send to clients
#[derive(Debug, PartialEq, Eq)]
pub enum KeyboardEvent {
    /// Keyboard focus entered a surface
    Enter { surface: SurfaceId, pressed_keys: Vec<u32> },
    /// Keyboard focus left a surface
    Leave { surface: SurfaceId },
    /// Key press or release
    Key { time: u32, key: u32, state: KeyState },
    /// Modifier state changed
    Modifiers { depressed: u32, latched: u32, locked: u32, group: u32 },
}

/// Button state
#[derive(Debug, Clone, Copy, PartialEq, Eq, Structural)]
pub enum ButtonState {
    Released,
    Pressed,
}

impl ButtonState {
    /// The number of the state on the wire.
    pub open spec fn code(self) -> u32 {
        match self {
            ButtonState::Released => 0,
            ButtonState::Pressed => 1,
        }
    }

    /// The number of the state on the wire.
    pub fn to_wayland(&self) -> (code: u32)
        ensures
            code == self.code(),
    {
        match self {
            ButtonState::Released => 0,
            ButtonState::Pressed => 1,
        }
    }
}

/// Axis type
#[derive(Debug, Clone, Copy, PartialEq, Eq, Structural)]
pub enum AxisType {
    VerticalScroll,
    HorizontalScroll,
}

impl AxisType {
    /// The number of the axis on the wire.
    pub open spec fn code(self) -> u32 {
        match self {
            AxisType::VerticalScroll => 0,
            AxisType::HorizontalScroll => 1,
        }
    }

    /// The number of the axis on the wire.
    pub fn to_wayland(&self) -> (code: u32)
        ensures
            code == self.code(),
    {
        match self {
            AxisType::VerticalScroll => 0,
            AxisType::HorizontalScroll => 1,
        }
    }
}

/// Pointer events to send to clients
#[derive(Debug, Clone, Copy, PartialEq, Eq, Structural)]
pub enum PointerEvent {
    /// Pointer entered a surface
    Enter { surface: SurfaceId, x: i32, y: i32 },
    /// Pointer left a surface
    Leave { surface: SurfaceId },
    /// Pointer motion
    Motion { time: u32, x: i32, y: i32 },
    /// Button press or release
    Button { time: u32, button: u32, state: ButtonState },
    /// Axis (scroll) event
    Axis { time: u32, axis: AxisType, value: i32 },
    /// Frame delimiter
    Frame,
}

} // verus!
