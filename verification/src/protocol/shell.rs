//! The xdg-shell: shell surfaces with their configure handshake,
//! toplevels, popups, and the positioner that places a popup.
//!
//! A shell surface wraps a surface. It starts without a role. Once a
//! toplevel or a popup is made from it, a configure is sent and the
//! client has to acknowledge it before it may commit a buffer.

use vstd::prelude::*;
use crate::compositor::state::{serial_after, CompositorState};
use crate::compositor::surface::{SurfaceId, SurfaceRole, SurfaceView};
use crate::compositor::window::{Window, WindowId};
use crate::input::{first_index, position_of};

verus! {

/// XDG shell errors
#[derive(Debug, Clone, Copy, PartialEq, Eq, Structural)]
pub enum XdgShellError {
    InvalidSurface,
    RoleAlreadySet,
    InvalidPositioner,
    NotConfigured,
    /// A configure was acknowledged that is not outstanding
    InvalidSerial,
}

impl XdgShellError {
    /// The error in words.
    pub fn message(&self) -> (text: &'static str)
        ensures
            text@ == (match self {
                XdgShellError::InvalidSurface => "Invalid surface"@,
                XdgShellError::RoleAlreadySet => "Surface already has a role"@,
                XdgShellError::InvalidPositioner => "Invalid positioner"@,
                XdgShellError::NotConfigured => "Not configured"@,
                XdgShellError::InvalidSerial => "Invalid serial"@,
            }),
    {
        match self {
            XdgShellError::InvalidSurface => "Invalid surface",
            XdgShellError::RoleAlreadySet => "Surface already has a role",
            XdgShellError::InvalidPositioner => "Invalid positioner",
            XdgShellError::NotConfigured => "Not configured",
            XdgShellError::InvalidSerial => "Invalid serial",
        }
    }
}

/// Window geometry as set by the client
#[derive(Debug, Clone, Copy, PartialEq, Eq, Structural)]
pub struct XdgGeometry {
    pub x: i32,
    pub y: i32,
    pub width: i32,
    pub height: i32,
}

/// Where a shell surface stands in its handshake.
#[derive(Debug, Clone, Copy, PartialEq, Eq, Structural)]
pub enum XdgSurfaceState {
    /// Created, no toplevel or popup made from it yet
    Unconfigured,
    /// A toplevel or popup was made and a configure sent; the client has
    /// not acknowledged one
    AwaitingInitialAck,
    /// The client has acknowledged a configure
    Configured,
}

/// XDG surface state
#[derive(Debug)]
pub struct XdgSurface {
    /// Associated wl_surface
    pub surface_id: SurfaceId,
    /// Has been configured
    pub configured: bool,
    /// Window geometry (set by client)
    pub geometry: Option<XdgGeometry>,
    /// Whether a toplevel or a popup was made from this shell surface
    pub role_assigned: bool,
    /// The serials of the configures that were sent and are neither
    /// acknowledged nor superseded, oldest first
    pub pending_configures: Vec<u32>,
}

/// A shell surface as a mathematical value.
pub struct XdgSurfaceView {
    pub surface_id: SurfaceId,
    pub configured: bool,
    pub geometry: Option<XdgGeometry>,
    pub role_assigned: bool,
    pub pending: Seq<u32>,
}

impl XdgSurfaceView {
    /// A shell surface that was just made for `surface_id`.
    pub open spec fn fresh(surface_id: SurfaceId) -> XdgSurfaceView {
        XdgSurfaceView {
            surface_id,
            configured: false,
            geometry: None,
            role_assigned: false,
            pending: Seq::empty(),
        }
    }

    /// Where the shell surface stands in its handshake.
    pub open spec fn state(self) -> XdgSurfaceState {
        if self.configured {
            XdgSurfaceState::Configured
        } else if self.role_assigned {
            XdgSurfaceState::AwaitingInitialAck
        } else {
            XdgSurfaceState::Unconfigured
        }
    }

    /// The shell surface after a configure with `serial` was sent.
    pub open spec fn sent(self, serial: u32) -> XdgSurfaceView {
        XdgSurfaceView { pending: self.pending.push(serial), ..self }
    }

    /// Whether an acknowledgement of `serial` is accepted: a configure
    /// with that serial is outstanding.
    pub open spec fn accepts_ack(self, serial: u32) -> bool {
        self.pending.contains(serial)
    }

    /// The shell surface after `serial` was acknowledged: that configure
    /// and all that were sent before it are no longer outstanding.
    pub open spec fn acked(self, serial: u32) -> XdgSurfaceView {
        XdgSurfaceView {
            configured: true,
            pending: self.pending.skip(first_index(self.pending, serial) + 1),
            ..self
        }
    }

    /// Whether a commit is in order: a buffer may not be committed while
    /// the first configure waits for its acknowledgement.
    pub open spec fn may_commit(self, with_buffer: bool) -> bool {
        !(with_buffer && self.state() == XdgSurfaceState::AwaitingInitialAck)
    }
}

impl View for XdgSurface {
    type V = XdgSurfaceView;

    open spec fn view(&self) -> XdgSurfaceView {
        XdgSurfaceView {
            surface_id: self.surface_id,
            configured: self.configured,
            geometry: self.geometry,
            role_assigned: self.role_assigned,
            pending: self.pending_configures@,
        }
    }
}

/// An acknowledged serial was outstanding, and with it every configure
/// that was sent before it is superseded: where no serial is outstanding
/// twice, none of them is accepted afterwards, nor the acknowledged one a
/// second time.
pub proof fn lemma_ack_supersedes(before: XdgSurfaceView, serial: u32, earlier: int)
    requires
        before.accepts_ack(serial),
        before.pending.no_duplicates(),
        0 <= earlier <= first_index(before.pending, serial),
    ensures
        first_index(before.pending, serial) < before.pending.len(),
        before.pending[first_index(before.pending, serial)] == serial,
        !before.acked(serial).accepts_ack(before.pending[earlier]),
        !before.acked(serial).accepts_ack(serial),
        before.acked(serial).pending.no_duplicates(),
{
    let i = choose|i: int| 0 <= i < before.pending.len() && before.pending[i] == serial;
    assert forall|j: int| 0 <= j < i implies before.pending[j] != serial by {}
    crate::input::lemma_first_index(before.pending, serial, i);
    let after = before.acked(serial).pending;
    assert forall|j: int| 0 <= j < after.len() implies after[j] == before.pending[i + 1 + j] by {}
}

/// Every serial that is outstanding after an acknowledgement was
/// outstanding before it, and was sent after the acknowledged one.
pub proof fn lemma_ack_keeps_later(before: XdgSurfaceView, serial: u32, j: int)
    requires
        before.accepts_ack(serial),
        0 <= j < before.acked(serial).pending.len(),
    ensures
        first_index(before.pending, serial) + 1 + j < before.pending.len(),
        before.acked(serial).pending[j] == before.pending[first_index(before.pending, serial) + 1
            + j],
{
    lemma_first_index_bound(before.pending, serial);
}

/// `first_index` of a value that occurs is an index that holds it.
pub proof fn lemma_first_index_bound(codes: Seq<u32>, code: u32)
    requires
        codes.contains(code),
    ensures
        0 <= first_index(codes, code) < codes.len(),
        codes[first_index(codes, code)] == code,
    decreases codes.len(),
{
    if codes[0] != code {
        let rest = codes.drop_first();
        let i = choose|i: int| 0 <= i < codes.len() && codes[i] == code;
        assert(rest[i - 1] == code);
        lemma_first_index_bound(rest, code);
    }
}

impl XdgSurface {
    /// Set the window geometry
    pub fn set_geometry(&mut self, x: i32, y: i32, width: i32, height: i32)
        ensures
            final(self)@ == (XdgSurfaceView {
                geometry: Some(XdgGeometry { x, y, width, height }),
                ..old(self)@
            }),
    {
        self.geometry = Some(XdgGeometry { x, y, width, height });
    }

    /// Records that a configure with `serial` was sent to the client.
    pub fn send_configure(&mut self, serial: u32)
        ensures
            final(self)@ == old(self)@.sent(serial),
    {
        self.pending_configures.push(serial);
    }

    /// Acknowledge a configure event. The serial has to be outstanding;
    /// with it, the configures that were sent before it are settled, and
    /// the shell surface is configured.
    pub fn ack_configure(&mut self, serial: u32) -> (r: Result<(), XdgShellError>)
        ensures
            r is Ok <==> old(self)@.accepts_ack(serial),
            r is Ok ==> final(self)@ == old(self)@.acked(serial),
            r is Err ==> r == Err::<(), XdgShellError>(XdgShellError::InvalidSerial) && final(self)@
                == old(self)@,
    {
        match position_of(&self.pending_configures, serial) {
            Some(idx) => {
                let mut rest: Vec<u32> = Vec::new();
                let count: usize = self.pending_configures.len();
                let mut i: usize = idx + 1;
                while i < count
                    invariant
                        idx + 1 <= i <= count,
                        count == self.pending_configures@.len(),
                        rest@ == self.pending_configures@.subrange(idx + 1, i as int),
                    decreases self.pending_configures@.len() - i,
                {
                    rest.push(self.pending_configures[i]);
                    assert(rest@ == self.pending_configures@.subrange(idx + 1, i + 1));
                    i = i + 1;
                }
                assert(rest@ == old(self)@.pending.skip(idx + 1));
                self.pending_configures = rest;
                self.configured = true;
                Ok(())
            },
            None => Err(XdgShellError::InvalidSerial),
        }
    }

    /// Where the shell surface stands in its handshake.
    pub fn state(&self) -> (s: XdgSurfaceState)
        ensures
            s == self@.state(),
    {
        if self.configured {
            XdgSurfaceState::Configured
        } else if self.role_assigned {
            XdgSurfaceState::AwaitingInitialAck
        } else {
            XdgSurfaceState::Unconfigured
        }
    }

    /// Checks a commit against the handshake: a buffer may not be
    /// committed while the first configure waits for its acknowledgement.
    pub fn check_commit(&self, with_buffer: bool) -> (r: Result<(), XdgShellError>)
        ensures
            r is Ok <==> self@.may_commit(with_buffer),
            r is Err ==> r == Err::<(), XdgShellError>(XdgShellError::NotConfigured),
    {
        if with_buffer && self.role_assigned && !self.configured {
            Err(XdgShellError::NotConfigured)
        } else {
            Ok(())
        }
    }
}

/// Popup geometry
#[derive(Debug, Clone, Copy, PartialEq, Eq, Structural)]
pub struct PopupGeometry {
    pub x: i32,
    pub y: i32,
    pub width: i32,
    pub height: i32,
}

impl Default for PopupGeometry {
    fn default() -> (g: Self)
        ensures
            g == (PopupGeometry { x: 0, y: 0, width: 0, height: 0 }),
    {
        PopupGeometry { x: 0, y: 0, width: 0, height: 0 }
    }
}

/// XDG popup state
#[derive(Debug, Clone, Copy, PartialEq, Eq, Structural)]
pub struct XdgPopup {
    /// Associated wl_surface
    pub surface_id: SurfaceId,
    /// Parent surface
    pub parent: SurfaceId,
    /// Popup geometry relative to parent
    pub geometry: PopupGeometry,
}

/// Anchor edge for popup positioning
#[derive(Debug, Clone, Copy, PartialEq, Eq, Structural)]
pub enum Anchor {
    NoAnchor,
    Top,
    Bottom,
    Left,
    Right,
    TopLeft,
    TopRight,
    BottomLeft,
    BottomRight,
}

impl Default for Anchor {
    fn default() -> (a: Self)
        ensures
            a == Anchor::NoAnchor,
    {
        Anchor::NoAnchor
    }
}

impl Anchor {
    /// The number of the anchor on the wire.
    pub open spec fn code(self) -> u32 {
        match self {
            Anchor::NoAnchor => 0,
            Anchor::Top => 1,
            Anchor::Bottom => 2,
            Anchor::Left => 3,
            Anchor::Right => 4,
            Anchor::TopLeft => 5,
            Anchor::BottomLeft => 6,
            Anchor::TopRight => 7,
            Anchor::BottomRight => 8,
        }
    }

    /// The anchor that a number of the wire names, if it names one.
    pub fn from_protocol(value: u32) -> (r: Option<Self>)
        ensures
            r is Some <==> value <= 8,
            r matches Some(anchor) ==> anchor.code() == value,
    {
        match value {
            0 => Some(Anchor::NoAnchor),
            1 => Some(Anchor::Top),
            2 => Some(Anchor::Bottom),
            3 => Some(Anchor::Left),
            4 => Some(Anchor::Right),
            5 => Some(Anchor::TopLeft),
            6 => Some(Anchor::BottomLeft),
            7 => Some(Anchor::TopRight),
            8 => Some(Anchor::BottomRight),
            _ => None,
        }
    }

    /// The anchor with left and right exchanged.
    pub open spec fn mirrored_x(self) -> Anchor {
        match self {
            Anchor::Left => Anchor::Right,
            Anchor::Right => Anchor::Left,
            Anchor::TopLeft => Anchor::TopRight,
            Anchor::TopRight => Anchor::TopLeft,
            Anchor::BottomLeft => Anchor::BottomRight,
            Anchor::BottomRight => Anchor::BottomLeft,
            other => other,
        }
    }

    /// The anchor with top and bottom exchanged.
    pub open spec fn mirrored_y(self) -> Anchor {
        match self {
            Anchor::Top => Anchor::Bottom,
            Anchor::Bottom => Anchor::Top,
            Anchor::TopLeft => Anchor::BottomLeft,
            Anchor::BottomLeft => Anchor::TopLeft,
            Anchor::TopRight => Anchor::BottomRight,
            Anchor::BottomRight => Anchor::TopRight,
            other => other,
        }
    }

    /// The anchor with left and right exchanged.
    pub fn flip_x(self) -> (r: Anchor)
        ensures
            r == self.mirrored_x(),
            r.on_left() == self.on_right(),
            r.on_right() == self.on_left(),
            r.on_top() == self.on_top(),
            r.on_bottom() == self.on_bottom(),
    {
        match self {
            Anchor::Left => Anchor::Right,
            Anchor::Right => Anchor::Left,
            Anchor::TopLeft => Anchor::TopRight,
            Anchor::TopRight => Anchor::TopLeft,
            Anchor::BottomLeft => Anchor::BottomRight,
            Anchor::BottomRight => Anchor::BottomLeft,
            other => other,
        }
    }

    /// The anchor with top and bottom exchanged.
    pub fn flip_y(self) -> (r: Anchor)
        ensures
            r == self.mirrored_y(),
            r.on_top() == self.on_bottom(),
            r.on_bottom() == self.on_top(),
            r.on_left() == self.on_left(),
            r.on_right() == self.on_right(),
    {
        match self {
            Anchor::Top => Anchor::Bottom,
            Anchor::Bottom => Anchor::Top,
            Anchor::TopLeft => Anchor::BottomLeft,
            Anchor::BottomLeft => Anchor::TopLeft,
            Anchor::TopRight => Anchor::BottomRight,
            Anchor::BottomRight => Anchor::TopRight,
            other => other,
        }
    }

    /// Whether the anchor lies on the left edge.
    pub open spec fn on_left(self) -> bool {
        self == Anchor::Left || self == Anchor::TopLeft || self == Anchor::BottomLeft
    }

    /// Whether the anchor lies on the right edge.
    pub open spec fn on_right(self) -> bool {
        self == Anchor::Right || self == Anchor::TopRight || self == Anchor::BottomRight
    }

    /// Whether the anchor lies on the upper edge.
    pub open spec fn on_top(self) -> bool {
        self == Anchor::Top || self == Anchor::TopLeft || self == Anchor::TopRight
    }

    /// Whether the anchor lies on the lower edge.
    pub open spec fn on_bottom(self) -> bool {
        self == Anchor::Bottom || self == Anchor::BottomLeft || self == Anchor::BottomRight
    }
}

/// Gravity for popup positioning
#[derive(Debug, Clone, Copy, PartialEq, Eq, Structural)]
pub enum Gravity {
    NoGravity,
    Top,
    Bottom,
    Left,
    Right,
    TopLeft,
    TopRight,
    BottomLeft,
    BottomRight,
}

impl Default for Gravity {
    fn default() -> (g: Self)
        ensures
            g == Gravity::NoGravity,
    {
        Gravity::NoGravity
    }
}

impl Gravity {
    /// The number of the gravity on the wire.
    pub open spec fn code(self) -> u32 {
        match self {
            Gravity::NoGravity => 0,
            Gravity::Top => 1,
            Gravity::Bottom => 2,
            Gravity::Left => 3,
            Gravity::Right => 4,
            Gravity::TopLeft => 5,
            Gravity::BottomLeft => 6,
            Gravity::TopRight => 7,
            Gravity::BottomRight => 8,
        }
    }

    /// The gravity that a number of the wire names, if it names one.
    pub fn from_protocol(value: u32) -> (r: Option<Self>)
        ensures
            r is Some <==> value <= 8,
            r matches Some(gravity) ==> gravity.code() == value,
    {
        match value {
            0 => Some(Gravity::NoGravity),
            1 => Some(Gravity::Top),
            2 => Some(Gravity::Bottom),
            3 => Some(Gravity::Left),
            4 => Some(Gravity::Right),
            5 => Some(Gravity::TopLeft),
            6 => Some(Gravity::BottomLeft),
            7 => Some(Gravity::TopRight),
            8 => Some(Gravity::BottomRight),
            _ => None,
        }
    }

    /// The gravity with left and right exchanged.
    pub open spec fn mirrored_x(self) -> Gravity {
        match self {
            Gravity::Left => Gravity::Right,
            Gravity::Right => Gravity::Left,
            Gravity::TopLeft => Gravity::TopRight,
            Gravity::TopRight => Gravity::TopLeft,
            Gravity::BottomLeft => Gravity::BottomRight,
            Gravity::BottomRight => Gravity::BottomLeft,
            other => other,
        }
    }

    /// The gravity with top and bottom exchanged.
    pub open spec fn mirrored_y(self) -> Gravity {
        match self {
            Gravity::Top => Gravity::Bottom,
            Gravity::Bottom => Gravity::Top,
            Gravity::TopLeft => Gravity::BottomLeft,
            Gravity::BottomLeft => Gravity::TopLeft,
            Gravity::TopRight => Gravity::BottomRight,
            Gravity::BottomRight => Gravity::TopRight,
            other => other,
        }
    }

    /// The gravity with left and right exchanged.
    pub fn flip_x(self) -> (r: Gravity)
        ensures
            r == self.mirrored_x(),
            r.on_left() == self.on_right(),
            r.on_right() == self.on_left(),
            r.on_top() == self.on_top(),
            r.on_bottom() == self.on_bottom(),
    {
        match self {
            Gravity::Left => Gravity::Right,
            Gravity::Right => Gravity::Left,
            Gravity::TopLeft => Gravity::TopRight,
            Gravity::TopRight => Gravity::TopLeft,
            Gravity::BottomLeft => Gravity::BottomRight,
            Gravity::BottomRight => Gravity::BottomLeft,
            other => other,
        }
    }

    /// The gravity with top and bottom exchanged.
    pub fn flip_y(self) -> (r: Gravity)
        ensures
            r == self.mirrored_y(),
            r.on_top() == self.on_bottom(),
            r.on_bottom() == self.on_top(),
            r.on_left() == self.on_left(),
            r.on_right() == self.on_right(),
    {
        match self {
            Gravity::Top => Gravity::Bottom,
            Gravity::Bottom => Gravity::Top,
            Gravity::TopLeft => Gravity::BottomLeft,
            Gravity::BottomLeft => Gravity::TopLeft,
            Gravity::TopRight => Gravity::BottomRight,
            Gravity::BottomRight => Gravity::TopRight,
            other => other,
        }
    }

    /// Whether the gravity lies on the left edge.
    pub open spec fn on_left(self) -> bool {
        self == Gravity::Left || self == Gravity::TopLeft || self == Gravity::BottomLeft
    }

    /// Whether the gravity lies on the right edge.
    pub open spec fn on_right(self) -> bool {
        self == Gravity::Right || self == Gravity::TopRight || self == Gravity::BottomRight
    }

    /// Whether the gravity lies on the upper edge.
    pub open spec fn on_top(self) -> bool {
        self == Gravity::Top || self == Gravity::TopLeft || self == Gravity::TopRight
    }

    /// Whether the gravity lies on the lower edge.
    pub open spec fn on_bottom(self) -> bool {
        self == Gravity::Bottom || self == Gravity::BottomLeft || self == Gravity::BottomRight
    }
}

/// Half of a length, rounded towards zero.
pub open spec fn half(v: int) -> int {
    if v >= 0 {
        v / 2
    } else {
        -((-v) / 2)
    }
}

/// The anchor point along one axis: the start of the anchor rectangle,
/// its end, or its middle.
pub open spec fn anchor_coordinate(start: int, length: int, at_start: bool, at_end: bool) -> int {
    if at_start {
        start
    } else if at_end {
        start + length
    } else {
        start + half(length)
    }
}

/// The popup's origin along one axis: the popup lies before the anchor
/// point, after it, or is centred on it.
pub open spec fn popup_coordinate(point: int, length: int, before: bool, after: bool) -> int {
    if before {
        point - length
    } else if after {
        point
    } else {
        point - half(length)
    }
}

/// A stretch along one axis: where it starts and how long it is.
pub struct Span {
    pub start: int,
    pub length: int,
}

impl Span {
    /// Whether the stretch reaches out of the bounds `[low, high)`.
    pub open spec fn outside(self, low: int, high: int) -> bool {
        self.start < low || self.start + self.length > high
    }

    /// The stretch slid into the bounds: moved back until its end is
    /// inside, and then forth until its start is inside.
    pub open spec fn slid(self, low: int, high: int) -> Span {
        let back = if self.start + self.length > high {
            high - self.length
        } else {
            self.start
        };
        Span {
            start: if back < low {
                low
            } else {
                back
            },
            ..self
        }
    }

    /// The stretch cut down to the part of it that lies in the bounds;
    /// the stretch as it is where no part of it lies there.
    pub open spec fn clipped(self, low: int, high: int) -> Span {
        let start = if self.start < low {
            low
        } else {
            self.start
        };
        let end = if self.start + self.length > high {
            high
        } else {
            self.start + self.length
        };
        if end > start {
            Span { start, length: end - start }
        } else {
            self
        }
    }

    /// The stretch adjusted to the bounds `[low, high)`, by the
    /// adjustments that are allowed, each applied only while the stretch
    /// reaches out of the bounds: first it is slid into them; then it is
    /// exchanged for `flipped`, if that lies inside; then it is cut down
    /// to them.
    pub open spec fn adjusted(
        self,
        flipped: int,
        low: int,
        high: int,
        slide: bool,
        flip: bool,
        resize: bool,
    ) -> Span {
        let first = if slide && self.outside(low, high) {
            self.slid(low, high)
        } else {
            self
        };
        let turned = Span { start: flipped, ..self };
        let second = if flip && first.outside(low, high) && !turned.outside(low, high) {
            turned
        } else {
            first
        };
        if resize && second.outside(low, high) {
            second.clipped(low, high)
        } else {
            second
        }
    }
}

/// A stretch that lies in the bounds is not adjusted, and neither is any
/// stretch where no adjustment is allowed.
pub proof fn lemma_adjustment_is_needed(
    span: Span,
    flipped: int,
    low: int,
    high: int,
    slide: bool,
    flip: bool,
    resize: bool,
)
    ensures
        !span.outside(low, high) ==> span.adjusted(flipped, low, high, slide, flip, resize)
            == span,
        !slide && !flip && !resize ==> span.adjusted(flipped, low, high, slide, flip, resize)
            == span,
{
}

/// Sliding brings a stretch into the bounds where it is no longer than
/// they are, and keeps its length; cutting brings any stretch into them
/// that has a part there.
pub proof fn lemma_adjustment_fits(
    span: Span,
    flipped: int,
    low: int,
    high: int,
    slide: bool,
    flip: bool,
    resize: bool,
)
    requires
        span.length >= 0,
        low <= high,
    ensures
        slide && span.length <= high - low ==> !span.adjusted(
            flipped,
            low,
            high,
            slide,
            flip,
            resize,
        ).outside(low, high),
        !resize ==> span.adjusted(flipped, low, high, slide, flip, resize).length == span.length,
        resize && low < high && span.start < high && span.start + span.length > low && !slide
            && !flip ==> !span.adjusted(flipped, low, high, slide, flip, resize).outside(
            low,
            high,
        ),
        span.adjusted(flipped, low, high, slide, flip, resize).length <= span.length,
{
}

/// XDG positioner for popup placement
#[derive(Debug, Clone, Copy)]
pub struct XdgPositioner {
    /// Size of the popup
    pub size: (i32, i32),
    /// Anchor rectangle in parent surface coordinates
    pub anchor_rect: (i32, i32, i32, i32),
    /// Anchor edge
    pub anchor: Anchor,
    /// Gravity
    pub gravity: Gravity,
    /// Constraint adjustment
    pub constraint_adjustment: u32,
    /// Offset from calculated position
    pub offset: (i32, i32),
}

impl Default for XdgPositioner {
    fn default() -> (p: Self)
        ensures
            p == XdgPositioner::initial(),
    {
        XdgPositioner {
            size: (0, 0),
            anchor_rect: (0, 0, 0, 0),
            anchor: Anchor::NoAnchor,
            gravity: Gravity::NoGravity,
            constraint_adjustment: 0,
            offset: (0, 0),
        }
    }
}

impl XdgPositioner {
    /// A positioner on which nothing was set.
    pub open spec fn initial() -> XdgPositioner {
        XdgPositioner {
            size: (0, 0),
            anchor_rect: (0, 0, 0, 0),
            anchor: Anchor::NoAnchor,
            gravity: Gravity::NoGravity,
            constraint_adjustment: 0,
            offset: (0, 0),
        }
    }

    /// The point of the anchor rectangle that the anchor names: a corner,
    /// the middle of an edge, or the centre.
    pub open spec fn anchor_point(&self) -> (int, int) {
        (
            anchor_coordinate(
                self.anchor_rect.0 as int,
                self.anchor_rect.2 as int,
                self.anchor.on_left(),
                self.anchor.on_right(),
            ),
            anchor_coordinate(
                self.anchor_rect.1 as int,
                self.anchor_rect.3 as int,
                self.anchor.on_top(),
                self.anchor.on_bottom(),
            ),
        )
    }

    /// The popup's origin: the popup is laid towards its gravity from the
    /// anchor point, and then moved by the offset.
    pub open spec fn origin(&self) -> (int, int) {
        (
            popup_coordinate(
                self.anchor_point().0,
                self.size.0 as int,
                self.gravity.on_left(),
                self.gravity.on_right(),
            ) + self.offset.0,
            popup_coordinate(
                self.anchor_point().1,
                self.size.1 as int,
                self.gravity.on_top(),
                self.gravity.on_bottom(),
            ) + self.offset.1,
        )
    }

    /// Whether the popup's origin can be written as two 32-bit numbers.
    pub open spec fn placeable(&self) -> bool {
        &&& i32::MIN <= self.origin().0 <= i32::MAX
        &&& i32::MIN <= self.origin().1 <= i32::MAX
    }

    /// The positioner with anchor and gravity exchanged from left to
    /// right.
    pub open spec fn mirrored_x(&self) -> XdgPositioner {
        XdgPositioner {
            anchor: self.anchor.mirrored_x(),
            gravity: self.gravity.mirrored_x(),
            ..*self
        }
    }

    /// The positioner with anchor and gravity exchanged from top to
    /// bottom.
    pub open spec fn mirrored_y(&self) -> XdgPositioner {
        XdgPositioner {
            anchor: self.anchor.mirrored_y(),
            gravity: self.gravity.mirrored_y(),
            ..*self
        }
    }

    /// The popup along x and along y, as the positioner places it without
    /// regard to bounds.
    pub open spec fn unadjusted(&self) -> (Span, Span) {
        (
            Span { start: self.origin().0, length: self.size.0 as int },
            Span { start: self.origin().1, length: self.size.1 as int },
        )
    }

    /// Whether the constraint adjustment has the bit `bit`.
    pub open spec fn allows(&self, bit: u32) -> bool {
        self.constraint_adjustment & bit != 0
    }

    /// The popup along the x axis, adjusted to the bounds `(x, y, width,
    /// height)` as far as the constraint adjustment allows: bit 1 allows
    /// sliding, bit 4 flipping and bit 16 resizing.
    pub open spec fn adjusted_x(&self, bounds: (i32, i32, i32, i32)) -> Span {
        (Span { start: self.origin().0, length: self.size.0 as int }).adjusted(
            self.mirrored_x().origin().0,
            bounds.0 as int,
            bounds.0 + bounds.2,
            self.allows(1),
            self.allows(4),
            self.allows(16),
        )
    }

    /// The popup along the y axis, adjusted to the bounds as far as the
    /// constraint adjustment allows: bit 2 allows sliding, bit 8 flipping
    /// and bit 32 resizing.
    pub open spec fn adjusted_y(&self, bounds: (i32, i32, i32, i32)) -> Span {
        (Span { start: self.origin().1, length: self.size.1 as int }).adjusted(
            self.mirrored_y().origin().1,
            bounds.1 as int,
            bounds.1 + bounds.3,
            self.allows(2),
            self.allows(8),
            self.allows(32),
        )
    }

    /// Whether the adjusted popup can be written as four 32-bit numbers.
    pub open spec fn adjustable(&self, bounds: (i32, i32, i32, i32)) -> bool {
        &&& i32::MIN <= self.adjusted_x(bounds).start <= i32::MAX
        &&& i32::MIN <= self.adjusted_x(bounds).length <= i32::MAX
        &&& i32::MIN <= self.adjusted_y(bounds).start <= i32::MAX
        &&& i32::MIN <= self.adjusted_y(bounds).length <= i32::MAX
    }

    /// Whether a popup can be made with this positioner: the popup has a
    /// size, and its origin can be written down.
    pub open spec fn complete(&self) -> bool {
        self.size.0 > 0 && self.size.1 > 0 && self.placeable()
    }

    /// Create a new positioner
    pub fn new() -> (p: Self)
        ensures
            p == XdgPositioner::initial(),
    {
        XdgPositioner {
            size: (0, 0),
            anchor_rect: (0, 0, 0, 0),
            anchor: Anchor::NoAnchor,
            gravity: Gravity::NoGravity,
            constraint_adjustment: 0,
            offset: (0, 0),
        }
    }

    /// Set the popup size
    pub fn set_size(&mut self, width: i32, height: i32)
        ensures
            *final(self) == (XdgPositioner { size: (width, height), ..*old(self) }),
    {
        self.size = (width, height);
    }

    /// Set the anchor rectangle
    pub fn set_anchor_rect(&mut self, x: i32, y: i32, width: i32, height: i32)
        ensures
            *final(self) == (XdgPositioner { anchor_rect: (x, y, width, height), ..*old(self) }),
    {
        self.anchor_rect = (x, y, width, height);
    }

    /// Set the anchor edge
    pub fn set_anchor(&mut self, anchor: Anchor)
        ensures
            *final(self) == (XdgPositioner { anchor, ..*old(self) }),
    {
        self.anchor = anchor;
    }

    /// Set the gravity
    pub fn set_gravity(&mut self, gravity: Gravity)
        ensures
            *final(self) == (XdgPositioner { gravity, ..*old(self) }),
    {
        self.gravity = gravity;
    }

    /// Set constraint adjustment
    pub fn set_constraint_adjustment(&mut self, adjustment: u32)
        ensures
            *final(self) == (XdgPositioner { constraint_adjustment: adjustment, ..*old(self) }),
    {
        self.constraint_adjustment = adjustment;
    }

    /// Set offset
    pub fn set_offset(&mut self, x: i32, y: i32)
        ensures
            *final(self) == (XdgPositioner { offset: (x, y), ..*old(self) }),
    {
        self.offset = (x, y);
    }

    /// The anchor point, computed in 64 bits.
    fn wide_anchor_point(&self) -> (point: (i64, i64))
        ensures
            point.0 == self.anchor_point().0,
            point.1 == self.anchor_point().1,
            -0x1_0000_0000 <= point.0 <= 0x1_0000_0000,
            -0x1_0000_0000 <= point.1 <= 0x1_0000_0000,
    {
        let (ax, ay, aw, ah) = self.anchor_rect;
        let (ax, ay, aw, ah) = (ax as i64, ay as i64, aw as i64, ah as i64);

        // Calculate anchor point based on anchor edge
        match self.anchor {
            Anchor::NoAnchor => (ax + aw / 2, ay + ah / 2),
            Anchor::Top => (ax + aw / 2, ay),
            Anchor::Bottom => (ax + aw / 2, ay + ah),
            Anchor::Left => (ax, ay + ah / 2),
            Anchor::Right => (ax + aw, ay + ah / 2),
            Anchor::TopLeft => (ax, ay),
            Anchor::TopRight => (ax + aw, ay),
            Anchor::BottomLeft => (ax, ay + ah),
            Anchor::BottomRight => (ax + aw, ay + ah),
        }
    }

    /// The popup's origin, computed in 64 bits.
    fn wide_origin(&self) -> (origin: (i64, i64))
        ensures
            origin.0 == self.origin().0,
            origin.1 == self.origin().1,
            -0x4_0000_0000 <= origin.0 <= 0x4_0000_0000,
            -0x4_0000_0000 <= origin.1 <= 0x4_0000_0000,
    {
        let (anchor_x, anchor_y) = self.wide_anchor_point();

        // Apply gravity to position popup relative to anchor
        let (popup_w, popup_h) = (self.size.0 as i64, self.size.1 as i64);
        let (x, y): (i64, i64) = match self.gravity {
            Gravity::NoGravity => (anchor_x - popup_w / 2, anchor_y - popup_h / 2),
            Gravity::Top => (anchor_x - popup_w / 2, anchor_y - popup_h),
            Gravity::Bottom => (anchor_x - popup_w / 2, anchor_y),
            Gravity::Left => (anchor_x - popup_w, anchor_y - popup_h / 2),
            Gravity::Right => (anchor_x, anchor_y - popup_h / 2),
            Gravity::TopLeft => (anchor_x - popup_w, anchor_y - popup_h),
            Gravity::TopRight => (anchor_x, anchor_y - popup_h),
            Gravity::BottomLeft => (anchor_x - popup_w, anchor_y),
            Gravity::BottomRight => (anchor_x, anchor_y),
        };

        // Apply offset
        (x + self.offset.0 as i64, y + self.offset.1 as i64)
    }

    /// Calculate the popup geometry
    pub fn calculate_geometry(&self) -> (g: PopupGeometry)
        requires
            self.placeable(),
        ensures
            g.x == self.origin().0,
            g.y == self.origin().1,
            g.width == self.size.0,
            g.height == self.size.1,
    {
        let (x, y) = self.wide_origin();
        PopupGeometry { x: x as i32, y: y as i32, width: self.size.0, height: self.size.1 }
    }

    /// One axis of the popup, adjusted to the bounds `[low, high)`.
    fn adjust_axis(
        start: i64,
        length: i64,
        flipped: i64,
        low: i64,
        high: i64,
        slide: bool,
        flip: bool,
        resize: bool,
    ) -> (r: (i64, i64))
        requires
            -0x4_0000_0000 <= start <= 0x4_0000_0000,
            -0x4_0000_0000 <= flipped <= 0x4_0000_0000,
            -0x1_0000_0000 <= length <= 0x1_0000_0000,
            -0x1_0000_0000 <= low <= 0x1_0000_0000,
            -0x2_0000_0000 <= high <= 0x2_0000_0000,
        ensures
            ({
                let span = (Span { start: start as int, length: length as int }).adjusted(
                    flipped as int,
                    low as int,
                    high as int,
                    slide,
                    flip,
                    resize,
                );
                r.0 == span.start && r.1 == span.length
            }),
    {
        let mut at: i64 = start;
        let mut len: i64 = length;
        // Slide
        if slide && (at < low || at + len > high) {
            if at + len > high {
                at = high - len;
            }
            if at < low {
                at = low;
            }
        }
        // Flip
        if flip && (at < low || at + len > high) && !(flipped < low || flipped + len > high) {
            at = flipped;
        }
        // Resize
        if resize && (at < low || at + len > high) {
            let from: i64 = if at < low {
                low
            } else {
                at
            };
            let to: i64 = if at + len > high {
                high
            } else {
                at + len
            };
            if to > from {
                at = from;
                len = to - from;
            }
        }
        (at, len)
    }

    /// The popup geometry within the bounds `(x, y, width, height)`, which
    /// are those of the parent's output in the parent's coordinates: the
    /// popup is placed as `calculate_geometry` places it, and where it
    /// reaches out of the bounds it is slid, flipped and resized, along x
    /// and along y, as far as the constraint adjustment allows. There is
    /// no geometry where the result cannot be written as 32-bit numbers.
    pub fn constrained_geometry(&self, bounds: (i32, i32, i32, i32)) -> (r: Option<PopupGeometry>)
        ensures
            r is Some <==> self.adjustable(bounds),
            r matches Some(g) ==> g.x == self.adjusted_x(bounds).start && g.width
                == self.adjusted_x(bounds).length && g.y == self.adjusted_y(bounds).start
                && g.height == self.adjusted_y(bounds).length,
    {
        let (x, y) = self.wide_origin();
        let mirrored_x = XdgPositioner {
            anchor: self.anchor.flip_x(),
            gravity: self.gravity.flip_x(),
            ..*self
        };
        let mirrored_y = XdgPositioner {
            anchor: self.anchor.flip_y(),
            gravity: self.gravity.flip_y(),
            ..*self
        };
        let (flipped_x, _) = mirrored_x.wide_origin();
        let (_, flipped_y) = mirrored_y.wide_origin();
        let adjustment = self.constraint_adjustment;
        let (left, width) = Self::adjust_axis(
            x,
            self.size.0 as i64,
            flipped_x,
            bounds.0 as i64,
            bounds.0 as i64 + bounds.2 as i64,
            adjustment & 1 != 0,
            adjustment & 4 != 0,
            adjustment & 16 != 0,
        );
        let (top, height) = Self::adjust_axis(
            y,
            self.size.1 as i64,
            flipped_y,
            bounds.1 as i64,
            bounds.1 as i64 + bounds.3 as i64,
            adjustment & 2 != 0,
            adjustment & 8 != 0,
            adjustment & 32 != 0,
        );
        if left < i32::MIN as i64 || left > i32::MAX as i64 || width < i32::MIN as i64 || width
            > i32::MAX as i64 || top < i32::MIN as i64 || top > i32::MAX as i64 || height
            < i32::MIN as i64 || height > i32::MAX as i64 {
            None
        } else {
            Some(
                PopupGeometry {
                    x: left as i32,
                    y: top as i32,
                    width: width as i32,
                    height: height as i32,
                },
            )
        }
    }

    /// The popup geometry, where its origin can be written as two 32-bit
    /// numbers.
    pub fn placement(&self) -> (r: Option<PopupGeometry>)
        ensures
            r is Some <==> self.placeable(),
            r matches Some(g) ==> g.x == self.origin().0 && g.y == self.origin().1 && g.width
                == self.size.0 && g.height == self.size.1,
    {
        let (x, y) = self.wide_origin();
        if x < i32::MIN as i64 || x > i32::MAX as i64 || y < i32::MIN as i64 || y > i32::MAX as i64 {
            None
        } else {
            Some(self.calculate_geometry())
        }
    }
}

/// Handler for xdg_shell protocol
#[derive(Debug)]
pub struct XdgShellHandler;

impl XdgShellHandler {
    /// Create a new xdg_shell handler
    pub fn new() -> Self {
        XdgShellHandler
    }

    /// Handle xdg_wm_base::get_xdg_surface
    pub fn get_xdg_surface(&self, state: &mut CompositorState, surface_id: SurfaceId) -> (r: Result<
        XdgSurface,
        XdgShellError,
    >)
        ensures
            *final(state) == *old(state),
            match r {
                Ok(xdg) => old(state).surfaces@.contains_key(surface_id.0) && xdg@
                    == XdgSurfaceView::fresh(surface_id),
                Err(e) => !old(state).surfaces@.contains_key(surface_id.0) && e
                    == XdgShellError::InvalidSurface,
            },
    {
        match state.surfaces.get(surface_id) {
            Some(_) => Ok(
                XdgSurface {
                    surface_id,
                    configured: false,
                    geometry: None,
                    role_assigned: false,
                    pending_configures: Vec::new(),
                },
            ),
            None => Err(XdgShellError::InvalidSurface),
        }
    }

    /// Why a toplevel or a popup cannot be made from a shell surface, if
    /// it cannot: its surface is gone; or one was already made from it, or
    /// the surface has another role.
    pub open spec fn role_refusal(
        state: &CompositorState,
        xdg: XdgSurfaceView,
        role: SurfaceRole,
    ) -> Option<XdgShellError> {
        if !state.surfaces@.contains_key(xdg.surface_id.0) {
            Some(XdgShellError::InvalidSurface)
        } else if xdg.role_assigned || !state.surfaces@[xdg.surface_id.0]@.accepts_role(role) {
            Some(XdgShellError::RoleAlreadySet)
        } else {
            None
        }
    }

    /// Handle xdg_surface::get_toplevel: the surface becomes a toplevel, a
    /// window is made for it, and the first configure is recorded with a
    /// new serial; the shell surface then waits for the acknowledgement.
    pub fn get_toplevel(&self, state: &mut CompositorState, xdg_surface: &mut XdgSurface) -> (r:
        Result<WindowId, XdgShellError>)
        requires
            old(state).wf(),
            old(state).windows.registry().has_room(),
        ensures
            final(state).wf(),
            match r {
                Ok(window_id) => {
                    let sid = old(xdg_surface).surface_id;
                    &&& Self::role_refusal(old(state), old(xdg_surface)@, SurfaceRole::XdgToplevel)
                        is None
                    &&& window_id.0 == old(state).windows.registry().next_id()
                    &&& final(state).surfaces@.dom() == old(state).surfaces@.dom()
                    &&& final(state).surfaces@[sid.0]@ == old(state).surfaces@[sid.0]@.set_role(
                        SurfaceRole::XdgToplevel,
                    )
                    &&& forall|k: u64|
                        old(state).surfaces@.contains_key(k) && k != sid.0 ==> final(state).surfaces@[k] == old(state).surfaces@[k]
                    &&& final(state).windows.windows() == old(state).windows.windows().insert(
                        window_id.0,
                        Window::fresh(window_id, sid),
                    )
                    &&& final(state).windows.surface_index() == old(state).windows.surface_index().insert(sid.0, window_id.0)
                    &&& final(state).windows.focused_id() == old(state).windows.focused_id()
                    &&& final(state).serial == serial_after(old(state).serial, 1)
                    &&& final(xdg_surface)@ == (XdgSurfaceView {
                        role_assigned: true,
                        ..old(xdg_surface)@.sent(old(state).serial)
                    })
                    &&& final(state).surfaces.registry() == old(state).surfaces.registry()
                    &&& *final(state) == (CompositorState {
                        surfaces: final(state).surfaces,
                        windows: final(state).windows,
                        serial: final(state).serial,
                        ..*old(state)
                    })
                },
                Err(e) => {
                    &&& Self::role_refusal(old(state), old(xdg_surface)@, SurfaceRole::XdgToplevel)
                        == Some(e)
                    &&& *final(state) == *old(state)
                    &&& *final(xdg_surface) == *old(xdg_surface)
                },
            },
    {
        let acceptable = match state.surfaces.get(xdg_surface.surface_id) {
            Some(surface) => surface.role == SurfaceRole::Unassigned || surface.role
                == SurfaceRole::XdgToplevel,
            None => {
                return Err(XdgShellError::InvalidSurface);
            },
        };
        if xdg_surface.role_assigned || !acceptable {
            return Err(XdgShellError::RoleAlreadySet);
        }
        // Set the surface role to toplevel
        match state.surfaces.get_mut(xdg_surface.surface_id) {
            Some(surface) => {
                let _ = surface.set_role(SurfaceRole::XdgToplevel);
            },
            None => {},
        }

        // Create a window for this toplevel
        let window_id = state.windows.create_window(xdg_surface.surface_id);

        let serial = state.next_serial();
        xdg_surface.send_configure(serial);
        xdg_surface.role_assigned = true;

        Ok(window_id)
    }

    /// Why a popup cannot be made, if it cannot: for one of the reasons of
    /// `role_refusal`; or the positioner gives the popup no size or an
    /// origin that cannot be written down.
    pub open spec fn popup_refusal(
        state: &CompositorState,
        xdg: XdgSurfaceView,
        positioner: &XdgPositioner,
    ) -> Option<XdgShellError> {
        if Self::role_refusal(state, xdg, SurfaceRole::XdgPopup) is Some {
            Self::role_refusal(state, xdg, SurfaceRole::XdgPopup)
        } else if !positioner.complete() {
            Some(XdgShellError::InvalidPositioner)
        } else {
            None
        }
    }

    /// The bounds that a popup of `parent` is kept in: those of the
    /// primary output, in the coordinates of the parent's surface. There
    /// are none where the parent has no window, or no output has a mode,
    /// or the bounds cannot be written as 32-bit numbers.
    pub open spec fn popup_bounds(state: &CompositorState, parent: SurfaceId) -> Option<
        (i32, i32, i32, i32),
    > {
        match (state.windows.by_surface(parent), state.outputs.primary_output()) {
            (Some(window), Some(output)) => match output.mode() {
                Some(mode) => {
                    let x = output.x - window.geometry.x;
                    let y = output.y - window.geometry.y;
                    if i32::MIN <= x <= i32::MAX && i32::MIN <= y <= i32::MAX && mode.width
                        <= i32::MAX && mode.height <= i32::MAX {
                        Some((x as i32, y as i32, mode.width as i32, mode.height as i32))
                    } else {
                        None
                    }
                },
                None => None,
            },
            _ => None,
        }
    }

    /// The place of a popup of `parent`: where there are bounds, the
    /// place that the positioner gives it within them, adjusted as far as
    /// the positioner allows; else the place that the positioner gives it
    /// without regard to bounds.
    pub open spec fn popup_place(
        state: &CompositorState,
        parent: SurfaceId,
        positioner: &XdgPositioner,
    ) -> (Span, Span) {
        match Self::popup_bounds(state, parent) {
            Some(bounds) => if positioner.adjustable(bounds) {
                (positioner.adjusted_x(bounds), positioner.adjusted_y(bounds))
            } else {
                positioner.unadjusted()
            },
            None => positioner.unadjusted(),
        }
    }

    /// The bounds that a popup of `parent` is kept in.
    fn bounds_for(&self, state: &CompositorState, parent: SurfaceId) -> (r: Option<
        (i32, i32, i32, i32),
    >)
        ensures
            r == Self::popup_bounds(state, parent),
    {
        let (window_x, window_y) = match state.windows.get_by_surface(parent) {
            Some(window) => (window.geometry.x, window.geometry.y),
            None => {
                return None;
            },
        };
        let output = match state.outputs.primary() {
            Some(output) => output,
            None => {
                return None;
            },
        };
        let mode = match output.current_mode() {
            Some(mode) => mode,
            None => {
                return None;
            },
        };
        let x: i64 = output.x as i64 - window_x as i64;
        let y: i64 = output.y as i64 - window_y as i64;
        if x < i32::MIN as i64 || x > i32::MAX as i64 || y < i32::MIN as i64 || y > i32::MAX as i64
            || mode.width > i32::MAX as u32 || mode.height > i32::MAX as u32 {
            None
        } else {
            Some((x as i32, y as i32, mode.width as i32, mode.height as i32))
        }
    }

    /// Handle xdg_surface::get_popup: the surface becomes a popup of
    /// `parent`, placed as the positioner says, and the first configure is
    /// recorded with a new serial; the shell surface then waits for the
    /// acknowledgement.
    pub fn get_popup(
        &self,
        state: &mut CompositorState,
        xdg_surface: &mut XdgSurface,
        parent: SurfaceId,
        positioner: &XdgPositioner,
    ) -> (r: Result<XdgPopup, XdgShellError>)
        requires
            old(state).wf(),
        ensures
            final(state).wf(),
            match r {
                Ok(popup) => {
                    let sid = old(xdg_surface).surface_id;
                    &&& Self::popup_refusal(old(state), old(xdg_surface)@, positioner) is None
                    &&& popup.surface_id == sid
                    &&& popup.parent == parent
                    &&& popup.geometry.x == Self::popup_place(old(state), parent, positioner).0.start
                    &&& popup.geometry.width == Self::popup_place(
                        old(state),
                        parent,
                        positioner,
                    ).0.length
                    &&& popup.geometry.y == Self::popup_place(old(state), parent, positioner).1.start
                    &&& popup.geometry.height == Self::popup_place(
                        old(state),
                        parent,
                        positioner,
                    ).1.length
                    &&& final(state).surfaces@.dom() == old(state).surfaces@.dom()
                    &&& final(state).surfaces@[sid.0]@ == (SurfaceView {
                        role: SurfaceRole::XdgPopup,
                        parent: Some(parent),
                        ..old(state).surfaces@[sid.0]@
                    })
                    &&& forall|k: u64|
                        old(state).surfaces@.contains_key(k) && k != sid.0 ==> final(state).surfaces@[k] == old(state).surfaces@[k]
                    &&& final(state).serial == serial_after(old(state).serial, 1)
                    &&& final(xdg_surface)@ == (XdgSurfaceView {
                        role_assigned: true,
                        ..old(xdg_surface)@.sent(old(state).serial)
                    })
                    &&& final(state).surfaces.registry() == old(state).surfaces.registry()
                    &&& *final(state) == (CompositorState {
                        surfaces: final(state).surfaces,
                        serial: final(state).serial,
                        ..*old(state)
                    })
                },
                Err(e) => {
                    &&& Self::popup_refusal(old(state), old(xdg_surface)@, positioner) == Some(e)
                    &&& *final(state) == *old(state)
                    &&& *final(xdg_surface) == *old(xdg_surface)
                },
            },
    {
        let acceptable = match state.surfaces.get(xdg_surface.surface_id) {
            Some(surface) => surface.role == SurfaceRole::Unassigned || surface.role
                == SurfaceRole::XdgPopup,
            None => {
                return Err(XdgShellError::InvalidSurface);
            },
        };
        if xdg_surface.role_assigned || !acceptable {
            return Err(XdgShellError::RoleAlreadySet);
        }
        let placed = match positioner.placement() {
            Some(g) => g,
            None => {
                return Err(XdgShellError::InvalidPositioner);
            },
        };
        if positioner.size.0 <= 0 || positioner.size.1 <= 0 {
            return Err(XdgShellError::InvalidPositioner);
        }
        let geometry = match self.bounds_for(state, parent) {
            Some(bounds) => match positioner.constrained_geometry(bounds) {
                Some(adjusted) => adjusted,
                None => placed,
            },
            None => placed,
        };
        // Set the surface role to popup
        match state.surfaces.get_mut(xdg_surface.surface_id) {
            Some(surface) => {
                let _ = surface.set_role(SurfaceRole::XdgPopup);
                surface.parent = Some(parent);
            },
            None => {},
        }

        let serial = state.next_serial();
        xdg_surface.send_configure(serial);
        xdg_surface.role_assigned = true;

        Ok(XdgPopup { surface_id: xdg_surface.surface_id, parent, geometry })
    }

    /// Handle xdg_wm_base::pong (response to ping)
    pub fn pong(&self, _serial: u32) {
    }
}

impl Default for XdgShellHandler {
    fn default() -> Self {
        XdgShellHandler
    }
}

} // verus!
