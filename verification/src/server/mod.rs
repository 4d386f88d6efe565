//! The server: the kernel's state, the globals that it advertises, and
//! what it does on each request of a client and each event of the host.
//!
//! The kernel reads no socket and opens no window. A request comes in as
//! a plain value, and what is to be sent or done comes out as a list of
//! effects, in the order in which they are to happen.

use std::collections::HashMap;
use vstd::prelude::*;
use crate::compositor::state::CompositorState;
use crate::compositor::surface::{BufferInfo, SurfaceId};
use crate::compositor::window::{WindowId, WindowState};
use crate::input::seat::SeatView;
use crate::protocol::output::{OutputGeometryEvent, OutputModeEvent};
use crate::protocol::seat::{KeyboardEvent, PointerEvent};
use crate::protocol::shell::{PopupGeometry, XdgSurface};
use crate::protocol::shm::{ShmBuffer, ShmBufferId, ShmPoolId, WlShmHandler};

pub mod dispatch;
pub mod globals;
pub mod host;
pub mod request;

pub use dispatch::{OutputData, SeatData};
pub use request::Request;

verus! {

broadcast use vstd::std_specs::hash::group_hash_axioms;

/// What a surface knows of the buffer that is attached to it.
pub open spec fn buffer_info(buffer: ShmBuffer) -> BufferInfo {
    BufferInfo {
        id: buffer.id,
        width: buffer.width,
        height: buffer.height,
        stride: buffer.stride,
        format: buffer.format.code(),
        offset: buffer.offset,
    }
}

/// Why a request is refused. A refused request changes nothing, and the
/// client that made it is to be disconnected.
#[derive(Debug, Clone, Copy, PartialEq, Eq, Structural)]
pub enum ProtocolError {
    /// The request names an object that does not exist
    InvalidObject,
    /// The request is not one that the object takes in its state
    InvalidMethod,
    /// An argument is out of its range
    InvalidArgument,
    /// The surface has another role, or the role object exists already
    RoleConflict,
    /// The buffer would end outside its pool
    BufferOutOfPool,
    /// The buffer has no pixels, or its rows do not fit its stride
    InvalidStride,
    /// The acknowledged configure is not outstanding
    UnknownSerial,
    /// A buffer was committed before the first configure was acknowledged
    UnconfiguredBuffer,
    /// No identity is left for a new object
    NoMemory,
}

/// What the server is to send or to do.
#[derive(Debug, PartialEq, Eq)]
#[allow(inconsistent_fields)]
pub enum Effect {
    /// A surface was made for the new object of the request
    NewSurface(SurfaceId),
    /// A pool was made for the new object of the request
    NewPool(ShmPoolId),
    /// A buffer was made for the new object of the request
    NewBuffer(ShmBufferId),
    /// A window was made for the new toplevel of the request
    NewToplevel { surface: SurfaceId, window: WindowId },
    /// Tell the client that the buffer is no longer read
    Release(ShmBufferId),
    /// Tell the client of a pixel format that pools take
    ShmFormat(u32),
    /// Tell the client what the seat can do
    SeatCapabilities(u32),
    /// Tell the client the seat's name
    SeatName(String),
    OutputGeometry(OutputGeometryEvent),
    OutputMode(OutputModeEvent),
    OutputScale(i32),
    OutputName(String),
    OutputDescription(String),
    OutputDone,
    /// Suggest a size and tell the states to a toplevel; a size of 0
    /// leaves the choice to the client
    ToplevelConfigure { surface: SurfaceId, width: i32, height: i32, states: WindowState },
    /// Tell a popup its place
    PopupConfigure { surface: SurfaceId, geometry: PopupGeometry },
    /// End a configure; the client answers with the serial
    XdgSurfaceConfigure { surface: SurfaceId, serial: u32 },
    /// Ask the client to close a toplevel
    ToplevelClose { surface: SurfaceId },
    /// Send a keyboard event to the client of a surface
    Keyboard { surface: SurfaceId, event: KeyboardEvent },
    /// Send a pointer event to the client of a surface
    Pointer { surface: SurfaceId, event: PointerEvent },
    /// Fire a frame callback with a time in milliseconds
    FrameDone { surface: SurfaceId, callback: u32, time: u32 },
    /// Have the host make a native window
    CreateWindow { window: WindowId, width: u32, height: u32, title: String },
    /// Have the host set a native window's title
    SetTitle { window: WindowId, title: String },
    /// Have the host maximize a native window or undo that
    SetMaximized { window: WindowId, maximized: bool },
    /// Have the host show a native window on the full screen or undo that
    SetFullscreen { window: WindowId, fullscreen: bool },
    /// Have the host minimize a native window
    Minimize { window: WindowId },
    /// Have the host close a native window
    CloseWindow { window: WindowId },
    /// Have the pixels of a surface's buffer brought to the GPU
    Upload { surface: SurfaceId, buffer: BufferInfo },
    /// Have a window drawn with the picture of a surface
    Present { window: WindowId, surface: SurfaceId },
}

/// State passed to Wayland dispatch handlers
#[derive(Debug)]
pub struct ServerState {
    /// Compositor state (surfaces, windows, outputs, seat)
    pub compositor: CompositorState,
    /// SHM handler
    pub shm: WlShmHandler,
    /// The shell surfaces by the number of their surface's identity
    pub xdg_surfaces: HashMap<u64, XdgSurface>,
}

impl ServerState {
    /// Whether what a surface knows of a buffer is true: the buffer was
    /// made, with pixels and rows that fit its stride, and as long as it
    /// exists it is the buffer that the surface knows.
    pub open spec fn knows(&self, buffer: BufferInfo) -> bool {
        &&& self.shm.buffer_registry().issued().contains(buffer.id.0)
        &&& buffer.width > 0
        &&& buffer.height > 0
        &&& buffer.stride >= buffer.width * 4
        &&& self.shm.buffers().contains_key(buffer.id.0) ==> buffer_info(
            self.shm.buffers()[buffer.id.0],
        ) == buffer
    }

    /// Every part is well formed; every shell surface is stored under the
    /// identity of its surface; and what the surfaces know of their
    /// buffers, the current and the pending ones, is true.
    pub open spec fn wf(&self) -> bool {
        &&& self.compositor.wf()
        &&& self.shm.wf()
        &&& forall|k: u64| #[trigger]
            self.xdg_surfaces@.contains_key(k) ==> self.xdg_surfaces@[k].surface_id.0 == k
        &&& forall|k: u64| #[trigger]
            self.compositor.surfaces@.contains_key(k) ==> {
                let surface = self.compositor.surfaces@[k];
                &&& surface.buffer matches Some(b) ==> self.knows(b)
                &&& surface.pending.buffer matches Some(b) ==> self.knows(b)
            }
    }

    /// The current buffer of a surface lies in its pool: as long as the
    /// buffer and its pool exist, the buffer ends inside the pool.
    pub proof fn lemma_current_buffer_fits(&self, surface: SurfaceId)
        requires
            self.wf(),
            self.compositor.surfaces@.contains_key(surface.0),
            self.compositor.surfaces@[surface.0].buffer is Some,
        ensures
            ({
                let b = self.compositor.surfaces@[surface.0].buffer->0;
                &&& b.stride >= b.width * 4
                &&& self.shm.buffers().contains_key(b.id.0) && self.shm.pools().contains_key(
                    self.shm.buffers()[b.id.0].pool_id.0,
                ) ==> b.offset + b.stride * b.height <= self.shm.pools()[self.shm.buffers()[b.id.0].pool_id.0].size
            }),
    {
        let b = self.compositor.surfaces@[surface.0].buffer->0;
        assert(self.knows(b));
    }

    /// The seat as a mathematical value.
    pub open spec fn seat(&self) -> SeatView {
        self.compositor.seat@
    }

    /// Create a new server state
    pub fn new() -> (s: Self)
        ensures
            s.compositor.surfaces@ == Map::<u64, crate::compositor::surface::Surface>::empty(),
            s.compositor.windows.windows() == Map::<
                u64,
                crate::compositor::window::Window,
            >::empty(),
            s.compositor.serial == 1,
            s.shm.pools() == Map::<u64, crate::protocol::shm::ShmPool>::empty(),
            s.shm.buffers() == Map::<u64, crate::protocol::shm::ShmBuffer>::empty(),
            s.xdg_surfaces@ == Map::<u64, XdgSurface>::empty(),
            s.wf(),
    {
        ServerState {
            compositor: CompositorState::new(),
            shm: WlShmHandler::new(),
            xdg_surfaces: HashMap::new(),
        }
    }
}

impl Default for ServerState {
    fn default() -> (s: Self)
        ensures
            s.wf(),
    {
        ServerState::new()
    }
}

} // verus!
