//! The globals that the server advertises, what a client is told when it
//! binds one, and the requests of the xdg-shell objects.

use std::collections::hash_map::Entry;
use vstd::prelude::*;
use crate::compositor::output::{Output, OutputId, OutputMode};
use crate::compositor::state::{serial_after, CompositorState};
use crate::compositor::surface::{SurfaceId, SurfaceRole, SurfaceView};
use crate::compositor::window::{Window, WindowId, WindowState};
use crate::protocol::output::{rounded_scale, OutputModeEvent, WlOutputHandler};
use crate::protocol::shell::{
    Anchor, Gravity, PopupGeometry, XdgGeometry, XdgPositioner, XdgShellError, XdgShellHandler,
    XdgSurfaceView,
};
use crate::server::{Effect, ProtocolError, ServerState};

verus! {

broadcast use vstd::std_specs::hash::group_hash_axioms;

/// Positioner data for popup placement, as the requests of the client
/// give it: anchor and gravity are numbers of the wire.
#[derive(Debug, Clone, Copy)]
pub struct PositionerData {
    pub width: i32,
    pub height: i32,
    pub anchor_rect: (i32, i32, i32, i32),
    pub anchor: u32,
    pub gravity: u32,
    pub constraint_adjustment: u32,
    pub offset: (i32, i32),
}

impl Default for PositionerData {
    fn default() -> (d: Self)
        ensures
            d == (PositionerData {
                width: 0,
                height: 0,
                anchor_rect: (0, 0, 0, 0),
                anchor: 0,
                gravity: 0,
                constraint_adjustment: 0,
                offset: (0, 0),
            }),
    {
        PositionerData {
            width: 0,
            height: 0,
            anchor_rect: (0, 0, 0, 0),
            anchor: 0,
            gravity: 0,
            constraint_adjustment: 0,
            offset: (0, 0),
        }
    }
}

impl PositionerData {
    /// The positioner that the data stand for. There is none where the
    /// anchor or the gravity is a number that names none.
    pub fn positioner(&self) -> (r: Option<XdgPositioner>)
        ensures
            r is Some <==> self.anchor <= 8 && self.gravity <= 8,
            r matches Some(p) ==> p.size == (self.width, self.height) && p.anchor_rect
                == self.anchor_rect && p.anchor.code() == self.anchor && p.gravity.code()
                == self.gravity && p.constraint_adjustment == self.constraint_adjustment
                && p.offset == self.offset,
    {
        match (Anchor::from_protocol(self.anchor), Gravity::from_protocol(self.gravity)) {
            (Some(anchor), Some(gravity)) => Some(
                XdgPositioner {
                    size: (self.width, self.height),
                    anchor_rect: self.anchor_rect,
                    anchor,
                    gravity,
                    constraint_adjustment: self.constraint_adjustment,
                    offset: self.offset,
                },
            ),
            _ => None,
        }
    }
}

/// XDG surface data
#[derive(Debug, Clone, Copy, PartialEq, Eq, Structural)]
pub struct XdgSurfaceData {
    pub surface_id: SurfaceId,
    pub configured: bool,
}

/// Toplevel window data
#[derive(Debug, Clone, Copy, PartialEq, Eq, Structural)]
pub struct ToplevelData {
    pub surface_id: SurfaceId,
    pub window_id: WindowId,
}

/// Popup data
#[derive(Debug, Clone, Copy, PartialEq, Eq, Structural)]
pub struct PopupData {
    pub surface_id: SurfaceId,
}

/// An interface that the server offers to every client.
#[derive(Debug, Clone, Copy, PartialEq, Eq, Structural)]
pub enum Global {
    Compositor,
    Shm,
    Seat,
    Output,
    XdgWmBase,
    LayerShell,
    ScreencopyManager,
    DataDeviceManager,
}

impl Global {
    /// The version of the interface that the server offers.
    pub open spec fn advertised(self) -> u32 {
        match self {
            Global::Compositor => 6,
            Global::Shm => 1,
            Global::Seat => 9,
            Global::Output => 4,
            Global::XdgWmBase => 6,
            Global::LayerShell => 4,
            Global::ScreencopyManager => 3,
            Global::DataDeviceManager => 3,
        }
    }

    /// Whether a server may do without the interface.
    pub open spec fn optional(self) -> bool {
        self == Global::LayerShell || self == Global::ScreencopyManager || self
            == Global::DataDeviceManager
    }

    /// The version of the interface that the server offers.
    pub fn version(&self) -> (v: u32)
        ensures
            v == self.advertised(),
            v >= 1,
    {
        match self {
            Global::Compositor => 6,
            Global::Shm => 1,
            Global::Seat => 9,
            Global::Output => 4,
            Global::XdgWmBase => 6,
            Global::LayerShell => 4,
            Global::ScreencopyManager => 3,
            Global::DataDeviceManager => 3,
        }
    }

    /// Whether a server may do without the interface.
    pub fn is_optional(&self) -> (b: bool)
        ensures
            b == self.optional(),
    {
        match self {
            Global::LayerShell | Global::ScreencopyManager | Global::DataDeviceManager => true,
            _ => false,
        }
    }

    /// The name of the interface on the wire.
    pub fn interface(&self) -> (name: &'static str)
        ensures
            name@ == (match self {
                Global::Compositor => "wl_compositor"@,
                Global::Shm => "wl_shm"@,
                Global::Seat => "wl_seat"@,
                Global::Output => "wl_output"@,
                Global::XdgWmBase => "xdg_wm_base"@,
                Global::LayerShell => "zwlr_layer_shell_v1"@,
                Global::ScreencopyManager => "zwlr_screencopy_manager_v1"@,
                Global::DataDeviceManager => "wl_data_device_manager"@,
            }),
    {
        match self {
            Global::Compositor => "wl_compositor",
            Global::Shm => "wl_shm",
            Global::Seat => "wl_seat",
            Global::Output => "wl_output",
            Global::XdgWmBase => "xdg_wm_base",
            Global::LayerShell => "zwlr_layer_shell_v1",
            Global::ScreencopyManager => "zwlr_screencopy_manager_v1",
            Global::DataDeviceManager => "wl_data_device_manager",
        }
    }
}

/// The version that server and client speak: the lower of the one that
/// the server offers and the one that the client asks for.
pub open spec fn negotiated_version(server: u32, client: u32) -> u32 {
    if client < server {
        client
    } else {
        server
    }
}

/// The version that server and client speak.
pub fn negotiate_version(server: u32, client: u32) -> (v: u32)
    ensures
        v == negotiated_version(server, client),
        v <= server,
        v <= client,
{
    if client < server {
        client
    } else {
        server
    }
}

/// The mode that a client is told of an output: the output's current
/// mode, or 1920 by 1080 at 60 Hz where it has none; always as the
/// current and preferred mode.
pub open spec fn announced_mode(output: Output) -> OutputModeEvent {
    match output.mode() {
        Some(mode) => OutputModeEvent {
            flags: 3,
            width: mode.width as i32,
            height: mode.height as i32,
            refresh: mode.refresh as i32,
        },
        None => OutputModeEvent { flags: 3, width: 1920, height: 1080, refresh: 60000 },
    }
}

/// What a client is told of an output when it binds it at `version`:
/// geometry and mode; from version 2 on the scale, and a closing `done`;
/// from version 4 on the name and the description before the `done`.
pub open spec fn announces(output: Output, version: u32, effects: Seq<Effect>) -> bool {
    let scaled = if version >= 2 {
        1int
    } else {
        0int
    };
    let named = if version >= 4 {
        2int
    } else {
        0int
    };
    &&& effects.len() == 2 + scaled + named + scaled
    &&& effects[0] matches Effect::OutputGeometry(g) && g.x == output.x && g.y == output.y
        && g.physical_width == output.physical_width as i32 && g.physical_height
        == output.physical_height as i32 && g.subpixel == output.subpixel.code() && g.make
        == output.make && g.model == output.model && g.transform == output.transform.code()
    &&& effects[1] == Effect::OutputMode(announced_mode(output))
    &&& version >= 2 ==> effects[2] == Effect::OutputScale(rounded_scale(output.scale) as i32)
    &&& version >= 4 ==> (effects[3] matches Effect::OutputName(name) && name == output.name)
    &&& version >= 4 ==> (effects[4] matches Effect::OutputDescription(text) && text@
        == output.make@ + seq![' '] + output.model@)
    &&& version >= 2 ==> effects[effects.len() - 1] == Effect::OutputDone
}

impl ServerState {
    /// The globals that are registered: the five that every client needs.
    pub fn register_globals(&self) -> (globals: Vec<Global>)
        ensures
            globals@ == seq![
                Global::Compositor,
                Global::Shm,
                Global::Seat,
                Global::Output,
                Global::XdgWmBase,
            ],
    {
        let mut globals: Vec<Global> = Vec::new();
        globals.push(Global::Compositor);
        globals.push(Global::Shm);
        globals.push(Global::Seat);
        globals.push(Global::Output);
        globals.push(Global::XdgWmBase);
        assert(globals@ =~= seq![
            Global::Compositor,
            Global::Shm,
            Global::Seat,
            Global::Output,
            Global::XdgWmBase,
        ]);
        globals
    }

    /// What a client is told of the output that it binds.
    fn announce_output(&self, output: &Output, version: u32) -> (effects: Vec<Effect>)
        ensures
            announces(*output, version, effects@),
    {
        let handler = WlOutputHandler::new();
        let mut effects: Vec<Effect> = Vec::new();
        // Send geometry
        effects.push(Effect::OutputGeometry(handler.send_geometry(output)));
        // Send mode
        let mode = match output.current_mode() {
            Some(mode) => OutputModeEvent {
                flags: 3,
                width: mode.width as i32,
                height: mode.height as i32,
                refresh: mode.refresh as i32,
            },
            None => OutputModeEvent { flags: 3, width: 1920, height: 1080, refresh: 60000 },
        };
        effects.push(Effect::OutputMode(mode));
        // Send scale if version >= 2
        if version >= 2 {
            effects.push(Effect::OutputScale(handler.send_scale(output)));
        }
        // Send name if version >= 4
        if version >= 4 {
            effects.push(Effect::OutputName(handler.send_name(output)));
            effects.push(Effect::OutputDescription(handler.send_description(output)));
        }
        // Send done if version >= 2
        if version >= 2 {
            effects.push(Effect::OutputDone);
        }
        effects
    }

    /// What holds after a client has bound a global at the version that
    /// it asked for. A version of 0 is refused. Else the two sides speak
    /// the negotiated version, and the client is told: of the
    /// shared-memory global, the two pixel formats that every pool takes;
    /// of the seat, what it can do, and from version 2 on its name; of
    /// the output, what `announces` says of the primary output, which is
    /// made where there is no output yet. Nothing but that changes.
    pub open spec fn bound(
        pre: &Self,
        post: &Self,
        global: Global,
        client_version: u32,
        r: Result<(u32, Vec<Effect>), ProtocolError>,
    ) -> bool {
        let version = negotiated_version(global.advertised(), client_version);
        if client_version == 0 {
            r == Err::<(u32, Vec<Effect>), ProtocolError>(ProtocolError::InvalidArgument) && *post
                == *pre
        } else if global == Global::Output && pre.compositor.outputs.outputs().len() == 0
            && !pre.compositor.output_ids.has_room() {
            r == Err::<(u32, Vec<Effect>), ProtocolError>(ProtocolError::NoMemory) && *post == *pre
        } else {
            &&& r matches Ok(bound) && bound.0 == version && match global {
                Global::Shm => bound.1@ == seq![Effect::ShmFormat(0), Effect::ShmFormat(1)],
                Global::Seat => {
                    &&& bound.1@.len() == if version >= 2 {
                        2int
                    } else {
                        1int
                    }
                    &&& bound.1@[0] == Effect::SeatCapabilities(pre.seat().capabilities.mask())
                    &&& version >= 2 ==> (bound.1@[1] matches Effect::SeatName(name) && name@
                        == pre.seat().name)
                },
                Global::Output => {
                    &&& post.compositor.outputs.primary_output() is Some
                    &&& announces(post.compositor.outputs.primary_output()->0, version, bound.1@)
                },
                _ => bound.1@.len() == 0,
            }
            &&& post.shm == pre.shm
            &&& post.xdg_surfaces == pre.xdg_surfaces
            &&& if global == Global::Output && pre.compositor.outputs.outputs().len() == 0 {
                let id = pre.compositor.output_ids.next_id();
                let made = post.compositor.outputs.outputs()[id];
                &&& post.compositor == (CompositorState {
                    outputs: post.compositor.outputs,
                    output_ids: post.compositor.output_ids,
                    ..pre.compositor
                })
                &&& post.compositor.output_ids.next_id() == id + 1
                &&& post.compositor.outputs.outputs().dom() =~= set![id]
                &&& post.compositor.outputs.primary_id() == Some(OutputId(id))
                &&& made.id == OutputId(id)
                &&& made.name@ == "default"@
                &&& made.make@ == "Wayoa"@
                &&& made.model@ == "Virtual Display"@
                &&& made.modes@.len() == 0
                &&& made.scale == 120
            } else {
                post.compositor == pre.compositor
            }
        }
    }

    /// Handle the binding of a global by a client that asks for
    /// `client_version` of it. The answer is the version that is spoken
    /// and what the client is told at once.
    pub fn bind(&mut self, global: Global, client_version: u32) -> (r: Result<
        (u32, Vec<Effect>),
        ProtocolError,
    >)
        requires
            old(self).wf(),
        ensures
            final(self).wf(),
            Self::bound(old(self), final(self), global, client_version, r),
    {
        if client_version == 0 {
            return Err(ProtocolError::InvalidArgument);
        }
        let version = negotiate_version(global.version(), client_version);
        let mut effects: Vec<Effect> = Vec::new();
        match global {
            Global::Shm => {
                // Send supported formats
                effects.push(Effect::ShmFormat(0));
                effects.push(Effect::ShmFormat(1));
                assert(effects@ =~= seq![Effect::ShmFormat(0), Effect::ShmFormat(1)]);
            },
            Global::Seat => {
                // Send capabilities
                effects.push(
                    Effect::SeatCapabilities(self.compositor.seat.capabilities().to_wayland()),
                );
                // Send name if version >= 2
                if version >= 2 {
                    effects.push(Effect::SeatName(self.compositor.seat.name().to_string()));
                }
            },
            Global::Output => {
                // Create a default output if we don't have one
                if self.compositor.outputs.is_empty() {
                    if !self.compositor.output_ids.can_allocate() {
                        return Err(ProtocolError::NoMemory);
                    }
                    let mut output = Output::new(
                        &mut self.compositor.output_ids,
                        "default".to_string(),
                    );
                    output.make = "Wayoa".to_string();
                    output.model = "Virtual Display".to_string();
                    self.compositor.outputs.add(output);
                }
                effects = match self.compositor.outputs.primary() {
                    Some(output) => self.announce_output(output, version),
                    None => effects,
                };
            },
            _ => {},
        }
        Ok((version, effects))
    }

    /// Between `pre` and `post`, nothing changed but the shell surface of
    /// `surface`, which is there in both and is `edited` in `post`.
    pub open spec fn only_xdg_changed(
        pre: &Self,
        post: &Self,
        surface: SurfaceId,
        edited: XdgSurfaceView,
    ) -> bool {
        &&& post.compositor == pre.compositor
        &&& post.shm == pre.shm
        &&& Self::xdg_edited(pre, post, surface, edited)
    }

    /// Of the shell surfaces, the one of `surface` is `edited` in `post`,
    /// and the others are as they were.
    pub open spec fn xdg_edited(
        pre: &Self,
        post: &Self,
        surface: SurfaceId,
        edited: XdgSurfaceView,
    ) -> bool {
        &&& pre.xdg_surfaces@.contains_key(surface.0)
        &&& post.xdg_surfaces@.dom() =~= pre.xdg_surfaces@.dom()
        &&& post.xdg_surfaces@[surface.0]@ == edited
        &&& forall|k: u64|
            pre.xdg_surfaces@.contains_key(k) && k != surface.0 ==> post.xdg_surfaces@[k]
                == pre.xdg_surfaces@[k]
    }

    /// What holds after xdg_wm_base::get_xdg_surface: the surface has a
    /// new shell surface; or the surface does not exist or has one already,
    /// and nothing has changed.
    pub open spec fn xdg_surface_made(
        pre: &Self,
        post: &Self,
        surface: SurfaceId,
        r: Result<(), ProtocolError>,
    ) -> bool {
        &&& post.compositor == pre.compositor
        &&& post.shm == pre.shm
        &&& match r {
            Ok(_) => {
                &&& pre.compositor.surfaces@.contains_key(surface.0)
                &&& !pre.xdg_surfaces@.contains_key(surface.0)
                &&& post.xdg_surfaces@.dom() == pre.xdg_surfaces@.dom().insert(
                    surface.0,
                )
                &&& post.xdg_surfaces@[surface.0]@ == XdgSurfaceView::fresh(surface)
                &&& forall|k: u64|
                    pre.xdg_surfaces@.contains_key(k) ==> post.xdg_surfaces@[k]
                        == pre.xdg_surfaces@[k]
            },
            Err(e) => {
                &&& e == if !pre.compositor.surfaces@.contains_key(surface.0) {
                    ProtocolError::InvalidObject
                } else {
                    ProtocolError::RoleConflict
                }
                &&& !pre.compositor.surfaces@.contains_key(surface.0) || pre.xdg_surfaces@.contains_key(surface.0)
                &&& *post == *pre
            },
        }
    }

    /// Handle xdg_wm_base::get_xdg_surface: a shell surface is made for
    /// the surface. The surface has to exist and to have none yet.
    pub fn get_xdg_surface(&mut self, surface: SurfaceId) -> (r: Result<(), ProtocolError>)
        requires
            old(self).wf(),
        ensures
            final(self).wf(),
            Self::xdg_surface_made(old(self), final(self), surface, r),
    {
        if self.compositor.surfaces.get(surface).is_none() {
            return Err(ProtocolError::InvalidObject);
        }
        if self.xdg_surfaces.contains_key(&surface.0) {
            return Err(ProtocolError::RoleConflict);
        }
        let handler = XdgShellHandler::new();
        match handler.get_xdg_surface(&mut self.compositor, surface) {
            Ok(xdg) => {
                self.xdg_surfaces.insert(surface.0, xdg);
                Ok(())
            },
            Err(_) => Err(ProtocolError::InvalidObject),
        }
    }

    /// What holds after xdg_surface::destroy: the shell surface has gone.
    pub open spec fn xdg_surface_destroyed(pre: &Self, post: &Self, surface: SurfaceId) -> bool {
        &&& post.compositor == pre.compositor
        &&& post.shm == pre.shm
        &&& post.xdg_surfaces@ == pre.xdg_surfaces@.remove(surface.0)
    }

    /// Handle xdg_surface::destroy: the shell surface goes, the surface
    /// stays.
    pub fn xdg_surface_destroy(&mut self, surface: SurfaceId)
        requires
            old(self).wf(),
        ensures
            final(self).wf(),
            Self::xdg_surface_destroyed(old(self), final(self), surface),
    {
        self.xdg_surfaces.remove(&surface.0);
    }

    /// What holds after xdg_surface::set_window_geometry. It fails where
    /// the shell surface does not exist, is not yet a toplevel or a popup, or
    /// the geometry has no width or height; else the shell surface has the
    /// geometry.
    pub open spec fn window_geometry_set(
        pre: &Self,
        post: &Self,
        surface: SurfaceId,
        x: i32,
        y: i32,
        width: i32,
        height: i32,
        r: Result<(), ProtocolError>,
    ) -> bool {
        &&& if !pre.xdg_surfaces@.contains_key(surface.0) {
            r == Err::<(), ProtocolError>(ProtocolError::InvalidObject) && *post == *pre
        } else if !pre.xdg_surfaces@[surface.0].role_assigned {
            r == Err::<(), ProtocolError>(ProtocolError::InvalidMethod) && *post == *pre
        } else if width <= 0 || height <= 0 {
            r == Err::<(), ProtocolError>(ProtocolError::InvalidArgument) && *post
                == *pre
        } else {
            r is Ok && Self::only_xdg_changed(
                pre,
                post,
                surface,
                XdgSurfaceView {
                    geometry: Some(XdgGeometry { x, y, width, height }),
                    ..pre.xdg_surfaces@[surface.0]@
                },
            )
        }
    }

    /// Handle xdg_surface::set_window_geometry. The shell surface has to
    /// be a toplevel or a popup already, and the geometry has to have a
    /// width and a height.
    pub fn xdg_set_window_geometry(
        &mut self,
        surface: SurfaceId,
        x: i32,
        y: i32,
        width: i32,
        height: i32,
    ) -> (r: Result<(), ProtocolError>)
        requires
            old(self).wf(),
        ensures
            final(self).wf(),
            Self::window_geometry_set(old(self), final(self), surface, x, y, width, height, r),
    {
        let constructed = match self.xdg_surfaces.get(&surface.0) {
            Some(xdg) => xdg.role_assigned,
            None => {
                return Err(ProtocolError::InvalidObject);
            },
        };
        if !constructed {
            return Err(ProtocolError::InvalidMethod);
        }
        if width <= 0 || height <= 0 {
            return Err(ProtocolError::InvalidArgument);
        }
        match self.xdg_surfaces.entry(surface.0) {
            Entry::Occupied(e) => {
                e.into_mut().set_geometry(x, y, width, height);
            },
            Entry::Vacant(_) => {},
        }
        Ok(())
    }

    /// What holds after xdg_surface::ack_configure. It fails where the
    /// shell surface does not exist or the serial is not outstanding; else
    /// the configure with the serial and those before it are settled.
    pub open spec fn configure_acked(
        pre: &Self,
        post: &Self,
        surface: SurfaceId,
        serial: u32,
        r: Result<(), ProtocolError>,
    ) -> bool {
        &&& if !pre.xdg_surfaces@.contains_key(surface.0) {
            r == Err::<(), ProtocolError>(ProtocolError::InvalidObject) && *post == *pre
        } else if !pre.xdg_surfaces@[surface.0]@.accepts_ack(serial) {
            r == Err::<(), ProtocolError>(ProtocolError::UnknownSerial) && *post == *pre
        } else {
            r is Ok && Self::only_xdg_changed(
                pre,
                post,
                surface,
                pre.xdg_surfaces@[surface.0]@.acked(serial),
            )
        }
    }

    /// Handle xdg_surface::ack_configure. The serial has to be that of a
    /// configure that was sent to this shell surface and is neither
    /// acknowledged nor superseded; with it, the configures that were sent
    /// before it are settled.
    pub fn xdg_ack_configure(&mut self, surface: SurfaceId, serial: u32) -> (r: Result<
        (),
        ProtocolError,
    >)
        requires
            old(self).wf(),
        ensures
            final(self).wf(),
            Self::configure_acked(old(self), final(self), surface, serial, r),
    {
        let accepted = match self.xdg_surfaces.get(&surface.0) {
            Some(xdg) => crate::input::position_of(&xdg.pending_configures, serial).is_some(),
            None => {
                return Err(ProtocolError::InvalidObject);
            },
        };
        if !accepted {
            return Err(ProtocolError::UnknownSerial);
        }
        match self.xdg_surfaces.entry(surface.0) {
            Entry::Occupied(e) => {
                let _ = e.into_mut().ack_configure(serial);
            },
            Entry::Vacant(_) => {},
        }
        Ok(())
    }

    /// What holds after a configure was sent to a toplevel. It fails where
    /// the window does not exist. Else the client is suggested the size
    /// and told the window's states, under the next serial, which the
    /// window's shell surface notes as outstanding; and nothing else has
    /// changed.
    pub open spec fn toplevel_configured(
        pre: &Self,
        post: &Self,
        window: WindowId,
        width: i32,
        height: i32,
        r: Result<Vec<Effect>, ProtocolError>,
    ) -> bool {
        if !pre.compositor.windows.windows().contains_key(window.0) {
            r == Err::<Vec<Effect>, ProtocolError>(ProtocolError::InvalidObject) && *post == *pre
        } else {
            let w = pre.compositor.windows.windows()[window.0];
            let surface = w.surface_id;
            let serial = pre.compositor.serial;
            &&& r matches Ok(effects) && effects@ == seq![
                Effect::ToplevelConfigure { surface, width, height, states: w.state },
                Effect::XdgSurfaceConfigure { surface, serial },
            ]
            &&& post.compositor == (CompositorState {
                serial: serial_after(serial, 1),
                ..pre.compositor
            })
            &&& post.shm == pre.shm
            &&& if pre.xdg_surfaces@.contains_key(surface.0) {
                Self::xdg_edited(pre, post, surface, pre.xdg_surfaces@[surface.0]@.sent(serial))
            } else {
                post.xdg_surfaces == pre.xdg_surfaces
            }
        }
    }

    /// Sends a configure to a toplevel: a suggested size, where 0 leaves
    /// the choice to the client, and the window's states.
    pub fn configure_toplevel(&mut self, window: WindowId, width: i32, height: i32) -> (r: Result<
        Vec<Effect>,
        ProtocolError,
    >)
        requires
            old(self).wf(),
        ensures
            final(self).wf(),
            Self::toplevel_configured(old(self), final(self), window, width, height, r),
    {
        let (surface, states) = match self.compositor.windows.get(window) {
            Some(w) => (w.surface_id, w.state),
            None => {
                return Err(ProtocolError::InvalidObject);
            },
        };
        let serial = self.compositor.next_serial();
        if self.xdg_surfaces.contains_key(&surface.0) {
            match self.xdg_surfaces.entry(surface.0) {
                Entry::Occupied(e) => {
                    e.into_mut().send_configure(serial);
                },
                Entry::Vacant(_) => {},
            }
        }
        let mut effects: Vec<Effect> = Vec::new();
        effects.push(Effect::ToplevelConfigure { surface, width, height, states });
        effects.push(Effect::XdgSurfaceConfigure { surface, serial });
        assert(effects@ =~= seq![
            Effect::ToplevelConfigure { surface, width, height, states },
            Effect::XdgSurfaceConfigure { surface, serial },
        ]);
        Ok(effects)
    }

    /// The protocol error that stands for a failure of the shell handler.
    pub open spec fn shell_error(e: XdgShellError) -> ProtocolError {
        match e {
            XdgShellError::InvalidSurface => ProtocolError::InvalidObject,
            XdgShellError::RoleAlreadySet => ProtocolError::RoleConflict,
            XdgShellError::InvalidPositioner => ProtocolError::InvalidArgument,
            XdgShellError::NotConfigured => ProtocolError::UnconfiguredBuffer,
            XdgShellError::InvalidSerial => ProtocolError::UnknownSerial,
        }
    }

    /// Why a toplevel cannot be made from the shell surface of `surface`,
    /// if it cannot: there is no such shell surface; the surface is gone;
    /// a toplevel or popup was already made, or the surface has another
    /// role; or no identity is left for the window.
    pub open spec fn toplevel_refusal(pre: &Self, surface: SurfaceId) -> Option<ProtocolError> {
        if !pre.xdg_surfaces@.contains_key(surface.0) {
            Some(ProtocolError::InvalidObject)
        } else {
            match XdgShellHandler::role_refusal(
                &pre.compositor,
                pre.xdg_surfaces@[surface.0]@,
                SurfaceRole::XdgToplevel,
            ) {
                Some(e) => Some(Self::shell_error(e)),
                None => if pre.compositor.windows.registry().has_room() {
                    None
                } else {
                    Some(ProtocolError::NoMemory)
                },
            }
        }
    }

    /// What holds after xdg_surface::get_toplevel. Where it is refused,
    /// nothing has changed. Else the surface is a toplevel and has a new
    /// window; the client is told the window, then sent the first
    /// configure, which suggests no size and tells no state, under the
    /// next serial; and the shell surface waits for its acknowledgement.
    pub open spec fn toplevel_made(
        pre: &Self,
        post: &Self,
        surface: SurfaceId,
        r: Result<Vec<Effect>, ProtocolError>,
    ) -> bool {
        match Self::toplevel_refusal(pre, surface) {
            Some(e) => r == Err::<Vec<Effect>, ProtocolError>(e) && *post == *pre,
            None => {
                let window = WindowId(pre.compositor.windows.registry().next_id());
                let serial = pre.compositor.serial;
                &&& r matches Ok(effects) && effects@ == seq![
                    Effect::NewToplevel { surface, window },
                    Effect::ToplevelConfigure {
                        surface,
                        width: 0,
                        height: 0,
                        states: WindowState::cleared(),
                    },
                    Effect::XdgSurfaceConfigure { surface, serial },
                ]
                &&& post.shm == pre.shm
                &&& Self::xdg_edited(
                    pre,
                    post,
                    surface,
                    XdgSurfaceView {
                        role_assigned: true,
                        ..pre.xdg_surfaces@[surface.0]@.sent(serial)
                    },
                )
                &&& post.compositor == (CompositorState {
                    surfaces: post.compositor.surfaces,
                    windows: post.compositor.windows,
                    serial: serial_after(serial, 1),
                    ..pre.compositor
                })
                &&& Self::role_given(pre, post, surface, SurfaceRole::XdgToplevel, None)
                &&& post.compositor.windows.windows() =~= pre.compositor.windows.windows().insert(
                    window.0,
                    Window::fresh(window, surface),
                )
                &&& post.compositor.windows.surface_index()
                    =~= pre.compositor.windows.surface_index().insert(surface.0, window.0)
                &&& post.compositor.windows.focused_id() == pre.compositor.windows.focused_id()
            },
        }
    }

    /// Of the surfaces, `surface` has the role `role` in `post`, and the
    /// parent `parent` where one is given, and the others are as they
    /// were.
    pub open spec fn role_given(
        pre: &Self,
        post: &Self,
        surface: SurfaceId,
        role: SurfaceRole,
        parent: Option<SurfaceId>,
    ) -> bool {
        let before = pre.compositor.surfaces@[surface.0]@;
        &&& post.compositor.surfaces.registry() == pre.compositor.surfaces.registry()
        &&& post.compositor.surfaces@.dom() =~= pre.compositor.surfaces@.dom()
        &&& post.compositor.surfaces@[surface.0]@ == (SurfaceView {
            role,
            parent: if parent is Some {
                parent
            } else {
                before.parent
            },
            ..before
        })
        &&& forall|k: u64|
            pre.compositor.surfaces@.contains_key(k) && k != surface.0
                ==> post.compositor.surfaces@[k] == pre.compositor.surfaces@[k]
    }

    /// Handle xdg_surface::get_toplevel
    pub fn xdg_get_toplevel(&mut self, surface: SurfaceId) -> (r: Result<Vec<Effect>, ProtocolError>)
        requires
            old(self).wf(),
        ensures
            final(self).wf(),
            Self::toplevel_made(old(self), final(self), surface, r),
    {
        let assigned = match self.xdg_surfaces.get(&surface.0) {
            Some(xdg) => xdg.role_assigned,
            None => {
                return Err(ProtocolError::InvalidObject);
            },
        };
        let acceptable = match self.compositor.surfaces.get(surface) {
            Some(s) => s.role == SurfaceRole::Unassigned || s.role == SurfaceRole::XdgToplevel,
            None => {
                return Err(ProtocolError::InvalidObject);
            },
        };
        if assigned || !acceptable {
            return Err(ProtocolError::RoleConflict);
        }
        if !self.compositor.windows.has_room() {
            return Err(ProtocolError::NoMemory);
        }
        let handler = XdgShellHandler::new();
        let serial = self.compositor.serial;
        let made = match self.xdg_surfaces.entry(surface.0) {
            Entry::Occupied(e) => handler.get_toplevel(&mut self.compositor, e.into_mut()),
            Entry::Vacant(_) => Err(XdgShellError::InvalidSurface),
        };
        let mut effects: Vec<Effect> = Vec::new();
        match made {
            Ok(window) => {
                effects.push(Effect::NewToplevel { surface, window });
                effects.push(
                    Effect::ToplevelConfigure {
                        surface,
                        width: 0,
                        height: 0,
                        states: WindowState::default(),
                    },
                );
                effects.push(Effect::XdgSurfaceConfigure { surface, serial });
                assert(effects@ =~= seq![
                    Effect::NewToplevel { surface, window },
                    Effect::ToplevelConfigure {
                        surface,
                        width: 0,
                        height: 0,
                        states: WindowState::cleared(),
                    },
                    Effect::XdgSurfaceConfigure { surface, serial },
                ]);
            },
            Err(_) => {},
        }
        Ok(effects)
    }

    /// Why a popup cannot be made from the shell surface of `surface`, if
    /// it cannot: there is no such shell surface; the surface is gone; a
    /// toplevel or popup was already made, or the surface has another
    /// role; or the positioner gives the popup no size or an origin that
    /// cannot be written down.
    pub open spec fn popup_refusal(pre: &Self, surface: SurfaceId, positioner: &XdgPositioner)
        -> Option<ProtocolError> {
        if !pre.xdg_surfaces@.contains_key(surface.0) {
            Some(ProtocolError::InvalidObject)
        } else {
            match XdgShellHandler::popup_refusal(
                &pre.compositor,
                pre.xdg_surfaces@[surface.0]@,
                positioner,
            ) {
                Some(e) => Some(Self::shell_error(e)),
                None => None,
            }
        }
    }

    /// What holds after xdg_surface::get_popup. Where it is refused,
    /// nothing has changed. Else the surface is a popup of `parent`; the
    /// client is told the place that the positioner gives the popup,
    /// within the bounds of the parent's output where they are known,
    /// under the next serial; and the shell surface waits for the
    /// acknowledgement.
    pub open spec fn popup_made(
        pre: &Self,
        post: &Self,
        surface: SurfaceId,
        parent: SurfaceId,
        positioner: &XdgPositioner,
        r: Result<Vec<Effect>, ProtocolError>,
    ) -> bool {
        match Self::popup_refusal(pre, surface, positioner) {
            Some(e) => r == Err::<Vec<Effect>, ProtocolError>(e) && *post == *pre,
            None => {
                let serial = pre.compositor.serial;
                let place = XdgShellHandler::popup_place(&pre.compositor, parent, positioner);
                &&& r matches Ok(effects) && effects@ == seq![
                    Effect::PopupConfigure {
                        surface,
                        geometry: PopupGeometry {
                            x: place.0.start as i32,
                            y: place.1.start as i32,
                            width: place.0.length as i32,
                            height: place.1.length as i32,
                        },
                    },
                    Effect::XdgSurfaceConfigure { surface, serial },
                ]
                &&& post.shm == pre.shm
                &&& Self::xdg_edited(
                    pre,
                    post,
                    surface,
                    XdgSurfaceView {
                        role_assigned: true,
                        ..pre.xdg_surfaces@[surface.0]@.sent(serial)
                    },
                )
                &&& post.compositor == (CompositorState {
                    surfaces: post.compositor.surfaces,
                    serial: serial_after(serial, 1),
                    ..pre.compositor
                })
                &&& Self::role_given(pre, post, surface, SurfaceRole::XdgPopup, Some(parent))
            },
        }
    }

    /// Handle xdg_surface::get_popup
    pub fn xdg_get_popup(
        &mut self,
        surface: SurfaceId,
        parent: SurfaceId,
        positioner: &XdgPositioner,
    ) -> (r: Result<Vec<Effect>, ProtocolError>)
        requires
            old(self).wf(),
        ensures
            final(self).wf(),
            Self::popup_made(old(self), final(self), surface, parent, positioner, r),
    {
        let assigned = match self.xdg_surfaces.get(&surface.0) {
            Some(xdg) => xdg.role_assigned,
            None => {
                return Err(ProtocolError::InvalidObject);
            },
        };
        let acceptable = match self.compositor.surfaces.get(surface) {
            Some(s) => s.role == SurfaceRole::Unassigned || s.role == SurfaceRole::XdgPopup,
            None => {
                return Err(ProtocolError::InvalidObject);
            },
        };
        if assigned || !acceptable {
            return Err(ProtocolError::RoleConflict);
        }
        if positioner.size.0 <= 0 || positioner.size.1 <= 0 || positioner.placement().is_none() {
            return Err(ProtocolError::InvalidArgument);
        }
        let handler = XdgShellHandler::new();
        let serial = self.compositor.serial;
        let made = match self.xdg_surfaces.entry(surface.0) {
            Entry::Occupied(e) => handler.get_popup(
                &mut self.compositor,
                e.into_mut(),
                parent,
                positioner,
            ),
            Entry::Vacant(_) => Err(XdgShellError::InvalidSurface),
        };
        let mut effects: Vec<Effect> = Vec::new();
        match made {
            Ok(popup) => {
                effects.push(Effect::PopupConfigure { surface, geometry: popup.geometry });
                effects.push(Effect::XdgSurfaceConfigure { surface, serial });
                assert(effects@ =~= seq![
                    Effect::PopupConfigure { surface, geometry: popup.geometry },
                    Effect::XdgSurfaceConfigure { surface, serial },
                ]);
            },
            Err(_) => {},
        }
        Ok(effects)
    }

    /// Of the windows, `window` is `edited` in `post`, and the others, the
    /// index and the focus are as they were.
    pub open spec fn window_replaced(pre: &Self, post: &Self, window: WindowId, edited: Window)
        -> bool {
        &&& post.compositor.windows.windows() =~= pre.compositor.windows.windows().insert(
            window.0,
            edited,
        )
        &&& post.compositor.windows.surface_index() == pre.compositor.windows.surface_index()
        &&& post.compositor.windows.focused_id() == pre.compositor.windows.focused_id()
        &&& post.compositor.windows.registry() == pre.compositor.windows.registry()
    }

    /// What holds after a request that edits a window: the request fails
    /// where the window does not exist; else the window is `edited` and
    /// nothing else has changed.
    pub open spec fn window_edited(
        pre: &Self,
        post: &Self,
        window: WindowId,
        edited: Window,
        ok: bool,
        error: Option<ProtocolError>,
    ) -> bool {
        if !pre.compositor.windows.windows().contains_key(window.0) {
            !ok && error == Some(ProtocolError::InvalidObject) && *post == *pre
        } else {
            &&& ok
            &&& post.shm == pre.shm
            &&& post.xdg_surfaces == pre.xdg_surfaces
            &&& post.compositor == (CompositorState {
                windows: post.compositor.windows,
                ..pre.compositor
            })
            &&& Self::window_replaced(pre, post, window, edited)
        }
    }

    /// What a request that edits a window has the host do: `command`
    /// where the window has a native window, else nothing.
    pub open spec fn host_told(pre: &Self, window: WindowId, effects: Seq<Effect>, command: Effect)
        -> bool {
        if pre.compositor.windows.windows()[window.0].native_handle is Some {
            effects =~= seq![command]
        } else {
            effects.len() == 0
        }
    }

    /// Handle xdg_toplevel::set_title: the window has the title, and so
    /// has its native window.
    pub fn toplevel_set_title(&mut self, window: WindowId, title: String) -> (r: Result<
        Vec<Effect>,
        ProtocolError,
    >)
        requires
            old(self).wf(),
        ensures
            final(self).wf(),
            Self::window_edited(
                old(self),
                final(self),
                window,
                Window { title: Some(title), ..old(self).compositor.windows.windows()[window.0] },
                r is Ok,
                r.err(),
            ),
            r matches Ok(effects) ==> Self::host_told(
                old(self),
                window,
                effects@,
                Effect::SetTitle { window, title },
            ),
    {
        let native = match self.compositor.windows.get(window) {
            Some(w) => w.native_handle.is_some(),
            None => {
                return Err(ProtocolError::InvalidObject);
            },
        };
        let mut effects: Vec<Effect> = Vec::new();
        if native {
            effects.push(Effect::SetTitle { window, title: title.clone() });
        }
        match self.compositor.windows.get_mut(window) {
            Some(w) => {
                w.set_title(title);
            },
            None => {},
        }
        Ok(effects)
    }

    /// Handle xdg_toplevel::set_app_id
    pub fn toplevel_set_app_id(&mut self, window: WindowId, app_id: String) -> (r: Result<
        (),
        ProtocolError,
    >)
        requires
            old(self).wf(),
        ensures
            final(self).wf(),
            Self::window_edited(
                old(self),
                final(self),
                window,
                Window { app_id: Some(app_id), ..old(self).compositor.windows.windows()[window.0] },
                r is Ok,
                r.err(),
            ),
    {
        if self.compositor.windows.get(window).is_none() {
            return Err(ProtocolError::InvalidObject);
        }
        match self.compositor.windows.get_mut(window) {
            Some(w) => {
                w.set_app_id(app_id);
            },
            None => {},
        }
        Ok(())
    }

    /// Handle xdg_toplevel::set_parent
    pub fn toplevel_set_parent(&mut self, window: WindowId, parent: Option<WindowId>) -> (r: Result<
        (),
        ProtocolError,
    >)
        requires
            old(self).wf(),
        ensures
            final(self).wf(),
            Self::window_edited(
                old(self),
                final(self),
                window,
                Window { parent, ..old(self).compositor.windows.windows()[window.0] },
                r is Ok,
                r.err(),
            ),
    {
        if self.compositor.windows.get(window).is_none() {
            return Err(ProtocolError::InvalidObject);
        }
        match self.compositor.windows.get_mut(window) {
            Some(w) => {
                w.parent = parent;
            },
            None => {},
        }
        Ok(())
    }

    /// What holds after xdg_toplevel::set_min_size. It fails where the
    /// window does not exist or a size is negative; else the window has the
    /// least size.
    pub open spec fn min_size_set(
        pre: &Self,
        post: &Self,
        window: WindowId,
        width: i32,
        height: i32,
        r: Result<(), ProtocolError>,
    ) -> bool {
        &&& if pre.compositor.windows.windows().contains_key(window.0) && (width < 0 || height
            < 0) {
            r == Err::<(), ProtocolError>(ProtocolError::InvalidArgument) && *post
                == *pre
        } else {
            Self::window_edited(
                pre,
                post,
                window,
                Window {
                    min_size: (width as u32, height as u32),
                    ..pre.compositor.windows.windows()[window.0]
                },
                r is Ok,
                r.err(),
            )
        }
    }

    /// Handle xdg_toplevel::set_min_size. A negative size is refused; 0
    /// stands for no limit.
    pub fn toplevel_set_min_size(&mut self, window: WindowId, width: i32, height: i32) -> (r:
        Result<(), ProtocolError>)
        requires
            old(self).wf(),
        ensures
            final(self).wf(),
            Self::min_size_set(old(self), final(self), window, width, height, r),
    {
        if self.compositor.windows.get(window).is_none() {
            return Err(ProtocolError::InvalidObject);
        }
        if width < 0 || height < 0 {
            return Err(ProtocolError::InvalidArgument);
        }
        match self.compositor.windows.get_mut(window) {
            Some(w) => {
                w.set_min_size(width as u32, height as u32);
            },
            None => {},
        }
        Ok(())
    }

    /// What holds after xdg_toplevel::set_max_size. It fails where the
    /// window does not exist or a size is negative; else the window has the
    /// largest size.
    pub open spec fn max_size_set(
        pre: &Self,
        post: &Self,
        window: WindowId,
        width: i32,
        height: i32,
        r: Result<(), ProtocolError>,
    ) -> bool {
        &&& if pre.compositor.windows.windows().contains_key(window.0) && (width < 0 || height
            < 0) {
            r == Err::<(), ProtocolError>(ProtocolError::InvalidArgument) && *post
                == *pre
        } else {
            Self::window_edited(
                pre,
                post,
                window,
                Window {
                    max_size: (width as u32, height as u32),
                    ..pre.compositor.windows.windows()[window.0]
                },
                r is Ok,
                r.err(),
            )
        }
    }

    /// Handle xdg_toplevel::set_max_size. A negative size is refused; 0
    /// stands for no limit.
    pub fn toplevel_set_max_size(&mut self, window: WindowId, width: i32, height: i32) -> (r:
        Result<(), ProtocolError>)
        requires
            old(self).wf(),
        ensures
            final(self).wf(),
            Self::max_size_set(old(self), final(self), window, width, height, r),
    {
        if self.compositor.windows.get(window).is_none() {
            return Err(ProtocolError::InvalidObject);
        }
        if width < 0 || height < 0 {
            return Err(ProtocolError::InvalidArgument);
        }
        match self.compositor.windows.get_mut(window) {
            Some(w) => {
                w.set_max_size(width as u32, height as u32);
            },
            None => {},
        }
        Ok(())
    }

    /// Handle xdg_toplevel::set_minimized: the window is minimized, and so
    /// is its native window.
    pub fn toplevel_set_minimized(&mut self, window: WindowId) -> (r: Result<
        Vec<Effect>,
        ProtocolError,
    >)
        requires
            old(self).wf(),
        ensures
            final(self).wf(),
            Self::window_edited(
                old(self),
                final(self),
                window,
                Window {
                    state: WindowState {
                        minimized: true,
                        ..old(self).compositor.windows.windows()[window.0].state
                    },
                    ..old(self).compositor.windows.windows()[window.0]
                },
                r is Ok,
                r.err(),
            ),
            r matches Ok(effects) ==> Self::host_told(
                old(self),
                window,
                effects@,
                Effect::Minimize { window },
            ),
    {
        let native = match self.compositor.windows.get(window) {
            Some(w) => w.native_handle.is_some(),
            None => {
                return Err(ProtocolError::InvalidObject);
            },
        };
        match self.compositor.windows.get_mut(window) {
            Some(w) => {
                w.set_minimized(true);
            },
            None => {},
        }
        let mut effects: Vec<Effect> = Vec::new();
        if native {
            effects.push(Effect::Minimize { window });
        }
        Ok(effects)
    }

    /// What holds after a request that changes a state of a window that
    /// the client is told of. The request fails where the window does not
    /// exist. Else the window is `edited`; the host is given `command`
    /// where the window has a native window; then the client is sent a
    /// configure that suggests no size and tells the new states, under the
    /// next serial, which the window's shell surface notes as outstanding;
    /// and nothing else has changed.
    pub open spec fn window_restated(
        pre: &Self,
        post: &Self,
        window: WindowId,
        edited: Window,
        command: Effect,
        r: Result<Vec<Effect>, ProtocolError>,
    ) -> bool {
        if !pre.compositor.windows.windows().contains_key(window.0) {
            r == Err::<Vec<Effect>, ProtocolError>(ProtocolError::InvalidObject) && *post == *pre
        } else {
            let before = pre.compositor.windows.windows()[window.0];
            let surface = before.surface_id;
            let serial = pre.compositor.serial;
            let first = if before.native_handle is Some {
                1int
            } else {
                0int
            };
            &&& r matches Ok(effects) && effects@.len() == first + 2 && (first == 1 ==> effects@[0]
                == command) && effects@[first] == (Effect::ToplevelConfigure {
                surface,
                width: 0,
                height: 0,
                states: edited.state,
            }) && effects@[first + 1] == (Effect::XdgSurfaceConfigure { surface, serial })
            &&& post.shm == pre.shm
            &&& if pre.xdg_surfaces@.contains_key(surface.0) {
                Self::xdg_edited(pre, post, surface, pre.xdg_surfaces@[surface.0]@.sent(serial))
            } else {
                post.xdg_surfaces == pre.xdg_surfaces
            }
            &&& post.compositor == (CompositorState {
                windows: post.compositor.windows,
                serial: serial_after(serial, 1),
                ..pre.compositor
            })
            &&& Self::window_replaced(pre, post, window, edited)
        }
    }

    /// Handle xdg_toplevel::set_maximized and unset_maximized
    pub fn toplevel_set_maximized(&mut self, window: WindowId, maximized: bool) -> (r: Result<
        Vec<Effect>,
        ProtocolError,
    >)
        requires
            old(self).wf(),
        ensures
            final(self).wf(),
            Self::window_restated(
                old(self),
                final(self),
                window,
                Window {
                    maximized,
                    state: WindowState {
                        maximized,
                        ..old(self).compositor.windows.windows()[window.0].state
                    },
                    ..old(self).compositor.windows.windows()[window.0]
                },
                Effect::SetMaximized { window, maximized },
                r,
            ),
    {
        let native = match self.compositor.windows.get(window) {
            Some(w) => w.native_handle.is_some(),
            None => {
                return Err(ProtocolError::InvalidObject);
            },
        };
        match self.compositor.windows.get_mut(window) {
            Some(w) => {
                w.maximized = maximized;
                w.set_maximized(maximized);
            },
            None => {},
        }
        let mut effects: Vec<Effect> = Vec::new();
        if native {
            effects.push(Effect::SetMaximized { window, maximized });
        }
        match self.configure_toplevel(window, 0, 0) {
            Ok(mut configure) => {
                effects.append(&mut configure);
            },
            Err(_) => {},
        }
        Ok(effects)
    }

    /// Handle xdg_toplevel::set_fullscreen and unset_fullscreen
    pub fn toplevel_set_fullscreen(&mut self, window: WindowId, fullscreen: bool) -> (r: Result<
        Vec<Effect>,
        ProtocolError,
    >)
        requires
            old(self).wf(),
        ensures
            final(self).wf(),
            Self::window_restated(
                old(self),
                final(self),
                window,
                Window {
                    fullscreen,
                    state: WindowState {
                        fullscreen,
                        ..old(self).compositor.windows.windows()[window.0].state
                    },
                    ..old(self).compositor.windows.windows()[window.0]
                },
                Effect::SetFullscreen { window, fullscreen },
                r,
            ),
    {
        let native = match self.compositor.windows.get(window) {
            Some(w) => w.native_handle.is_some(),
            None => {
                return Err(ProtocolError::InvalidObject);
            },
        };
        match self.compositor.windows.get_mut(window) {
            Some(w) => {
                w.fullscreen = fullscreen;
                w.set_fullscreen(fullscreen);
            },
            None => {},
        }
        let mut effects: Vec<Effect> = Vec::new();
        if native {
            effects.push(Effect::SetFullscreen { window, fullscreen });
        }
        match self.configure_toplevel(window, 0, 0) {
            Ok(mut configure) => {
                effects.append(&mut configure);
            },
            Err(_) => {},
        }
        Ok(effects)
    }

    /// What holds after xdg_toplevel::destroy. It fails where the window
    /// does not exist; else the window has gone, with its native window, and
    /// the surface stays.
    pub open spec fn toplevel_destroyed(
        pre: &Self,
        post: &Self,
        window: WindowId,
        r: Result<Vec<Effect>, ProtocolError>,
    ) -> bool {
        &&& if !pre.compositor.windows.windows().contains_key(window.0) {
            r == Err::<Vec<Effect>, ProtocolError>(ProtocolError::InvalidObject) && *post
                == *pre
        } else {
            let before = pre.compositor.windows.windows()[window.0];
            &&& r matches Ok(effects) && Self::host_told(
                pre,
                window,
                effects@,
                Effect::CloseWindow { window },
            )
            &&& post.shm == pre.shm
            &&& post.xdg_surfaces == pre.xdg_surfaces
            &&& post.compositor == (CompositorState {
                windows: post.compositor.windows,
                ..pre.compositor
            })
            &&& post.compositor.windows.windows() == pre.compositor.windows.windows().remove(window.0)
            &&& post.compositor.windows.surface_index() == pre.compositor.windows.surface_index().remove(before.surface_id.0)
            &&& post.compositor.windows.focused_id() == if pre.compositor.windows.focused_id() == Some(window) {
                None
            } else {
                pre.compositor.windows.focused_id()
            }
            &&& post.compositor.windows.registry() == pre.compositor.windows.registry()
        }
    }

    /// Handle xdg_toplevel::destroy: the window goes, with the index
    /// entry of its surface and with its native window; the surface
    /// stays.
    pub fn toplevel_destroy(&mut self, window: WindowId) -> (r: Result<Vec<Effect>, ProtocolError>)
        requires
            old(self).wf(),
        ensures
            final(self).wf(),
            Self::toplevel_destroyed(old(self), final(self), window, r),
    {
        if self.compositor.windows.get(window).is_none() {
            return Err(ProtocolError::InvalidObject);
        }
        let mut effects: Vec<Effect> = Vec::new();
        // Remove window from compositor
        match self.compositor.windows.remove(window) {
            Some(w) => {
                // Remove native window
                if w.native_handle.is_some() {
                    effects.push(Effect::CloseWindow { window });
                }
            },
            None => {},
        }
        Ok(effects)
    }
}

} // verus!
