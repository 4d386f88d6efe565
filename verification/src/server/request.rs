//! The requests of the clients as plain values, and the one function
//! that takes any of them.

use vstd::prelude::*;
use crate::compositor::surface::{DamageRect, SurfaceId};
use crate::compositor::window::{Window, WindowId, WindowState};
use crate::protocol::shell::XdgPositioner;
use crate::protocol::shm::{ShmBufferId, ShmPoolId};
use crate::server::{Effect, ProtocolError, ServerState};

verus! {

/// A request of a client, with the kernel's names for the objects that
/// it speaks of.
#[derive(Debug)]
#[allow(inconsistent_fields)]
pub enum Request {
    /// wl_compositor::create_surface
    CreateSurface,
    /// wl_surface::attach
    Attach { surface: SurfaceId, buffer: Option<ShmBufferId> },
    /// wl_surface::damage
    Damage { surface: SurfaceId, x: i32, y: i32, width: i32, height: i32 },
    /// wl_surface::damage_buffer
    DamageBuffer { surface: SurfaceId, x: i32, y: i32, width: i32, height: i32 },
    /// wl_surface::frame
    Frame { surface: SurfaceId, callback: u32 },
    /// wl_surface::set_buffer_scale
    SetBufferScale { surface: SurfaceId, scale: i32 },
    /// wl_surface::set_buffer_transform
    SetBufferTransform { surface: SurfaceId, transform: i32 },
    /// wl_surface::commit
    Commit { surface: SurfaceId },
    /// wl_surface::destroy
    DestroySurface { surface: SurfaceId },
    /// wl_shm::create_pool
    CreatePool { fd: i32, size: i32 },
    /// wl_shm_pool::create_buffer
    CreateBuffer { pool: ShmPoolId, offset: i32, width: i32, height: i32, stride: i32, format: u32 },
    /// wl_shm_pool::resize
    ResizePool { pool: ShmPoolId, size: i32 },
    /// wl_shm_pool::destroy
    DestroyPool { pool: ShmPoolId },
    /// wl_buffer::destroy
    DestroyBuffer { buffer: ShmBufferId },
    /// wl_pointer::set_cursor
    SetCursor { surface: Option<SurfaceId>, hotspot_x: i32, hotspot_y: i32 },
    /// xdg_wm_base::get_xdg_surface
    GetXdgSurface { surface: SurfaceId },
    /// xdg_surface::get_toplevel
    GetToplevel { surface: SurfaceId },
    /// xdg_surface::get_popup
    GetPopup { surface: SurfaceId, parent: SurfaceId, positioner: XdgPositioner },
    /// xdg_surface::set_window_geometry
    SetWindowGeometry { surface: SurfaceId, x: i32, y: i32, width: i32, height: i32 },
    /// xdg_surface::ack_configure
    AckConfigure { surface: SurfaceId, serial: u32 },
    /// xdg_surface::destroy
    DestroyXdgSurface { surface: SurfaceId },
    /// xdg_toplevel::set_parent
    SetParent { window: WindowId, parent: Option<WindowId> },
    /// xdg_toplevel::set_title
    SetTitle { window: WindowId, title: String },
    /// xdg_toplevel::set_app_id
    SetAppId { window: WindowId, app_id: String },
    /// xdg_toplevel::set_min_size
    SetMinSize { window: WindowId, width: i32, height: i32 },
    /// xdg_toplevel::set_max_size
    SetMaxSize { window: WindowId, width: i32, height: i32 },
    /// xdg_toplevel::set_maximized and unset_maximized
    SetMaximized { window: WindowId, maximized: bool },
    /// xdg_toplevel::set_fullscreen and unset_fullscreen
    SetFullscreen { window: WindowId, fullscreen: bool },
    /// xdg_toplevel::set_minimized
    SetMinimized { window: WindowId },
    /// xdg_toplevel::destroy
    DestroyToplevel { window: WindowId },
}

/// The answer to a request that sends nothing: it went well or was
/// refused.
pub open spec fn silent(r: Result<Vec<Effect>, ProtocolError>) -> Result<(), ProtocolError> {
    match r {
        Ok(_) => Ok(()),
        Err(e) => Err(e),
    }
}

/// Whether the answer to a request sends nothing where it went well.
pub open spec fn sends_nothing(r: Result<Vec<Effect>, ProtocolError>) -> bool {
    r matches Ok(effects) ==> effects@.len() == 0
}

impl ServerState {
    /// The window `window` as it is in `pre`.
    pub open spec fn window_before(pre: &Self, window: WindowId) -> Window {
        pre.compositor.windows.windows()[window.0]
    }

    /// What holds after a request: what holds after the request of its
    /// kind. A request that makes an object answers with the object's
    /// name; a request that is refused has changed nothing.
    pub open spec fn requested(
        pre: &Self,
        post: &Self,
        request: Request,
        r: Result<Vec<Effect>, ProtocolError>,
    ) -> bool {
        match request {
            Request::CreateSurface => match r {
                Ok(effects) => effects@.len() == 1 && (effects@[0] matches Effect::NewSurface(id)
                    && Self::surface_created(pre, post, Ok(id))),
                Err(e) => Self::surface_created(pre, post, Err(e)),
            },
            Request::Attach { surface, buffer } => sends_nothing(r) && Self::attached(
                pre,
                post,
                surface,
                buffer,
                silent(r),
            ),
            Request::Damage { surface, x, y, width, height } => sends_nothing(r)
                && Self::surface_edited(
                pre,
                post,
                surface,
                pre.compositor.surfaces@[surface.0]@.add_damage(DamageRect { x, y, width, height }),
                silent(r),
            ),
            Request::DamageBuffer { surface, x, y, width, height } => sends_nothing(r)
                && Self::surface_edited(
                pre,
                post,
                surface,
                pre.compositor.surfaces@[surface.0]@.add_damage(DamageRect { x, y, width, height }),
                silent(r),
            ),
            Request::Frame { surface, callback } => sends_nothing(r) && Self::surface_edited(
                pre,
                post,
                surface,
                pre.compositor.surfaces@[surface.0]@.frame(callback),
                silent(r),
            ),
            Request::SetBufferScale { surface, scale } => sends_nothing(r) && Self::scale_set(
                pre,
                post,
                surface,
                scale,
                silent(r),
            ),
            Request::SetBufferTransform { surface, transform } => sends_nothing(r)
                && Self::transform_set(pre, post, surface, transform, silent(r)),
            Request::Commit { surface } => Self::committed(pre, post, surface, r),
            Request::DestroySurface { surface } => Self::destroyed(pre, post, surface, r),
            Request::CreatePool { fd, size } => match r {
                Ok(effects) => effects@.len() == 1 && (effects@[0] matches Effect::NewPool(id)
                    && Self::pool_created(pre, post, fd, size, Ok(id))),
                Err(e) => Self::pool_created(pre, post, fd, size, Err(e)),
            },
            Request::CreateBuffer { pool, offset, width, height, stride, format } => match r {
                Ok(effects) => effects@.len() == 1 && (effects@[0] matches Effect::NewBuffer(id)
                    && Self::buffer_created(
                    pre,
                    post,
                    pool,
                    offset,
                    width,
                    height,
                    stride,
                    format,
                    Ok(id),
                )),
                Err(e) => Self::buffer_created(
                    pre,
                    post,
                    pool,
                    offset,
                    width,
                    height,
                    stride,
                    format,
                    Err(e),
                ),
            },
            Request::ResizePool { pool, size } => sends_nothing(r) && Self::pool_resized(
                pre,
                post,
                pool,
                size,
                silent(r),
            ),
            Request::DestroyPool { pool } => r is Ok && sends_nothing(r) && Self::pool_destroyed(
                pre,
                post,
                pool,
            ),
            Request::DestroyBuffer { buffer } => r is Ok && sends_nothing(r)
                && Self::buffer_destroyed(pre, post, buffer),
            Request::SetCursor { surface, hotspot_x, hotspot_y } => sends_nothing(r)
                && Self::cursor_set(pre, post, surface, hotspot_x, hotspot_y, silent(r)),
            Request::GetXdgSurface { surface } => sends_nothing(r) && Self::xdg_surface_made(
                pre,
                post,
                surface,
                silent(r),
            ),
            Request::GetToplevel { surface } => Self::toplevel_made(pre, post, surface, r),
            Request::GetPopup { surface, parent, positioner } => Self::popup_made(
                pre,
                post,
                surface,
                parent,
                &positioner,
                r,
            ),
            Request::SetWindowGeometry { surface, x, y, width, height } => sends_nothing(r)
                && Self::window_geometry_set(pre, post, surface, x, y, width, height, silent(r)),
            Request::AckConfigure { surface, serial } => sends_nothing(r) && Self::configure_acked(
                pre,
                post,
                surface,
                serial,
                silent(r),
            ),
            Request::DestroyXdgSurface { surface } => r is Ok && sends_nothing(r)
                && Self::xdg_surface_destroyed(pre, post, surface),
            Request::SetParent { window, parent } => sends_nothing(r) && Self::window_edited(
                pre,
                post,
                window,
                Window { parent, ..Self::window_before(pre, window) },
                r is Ok,
                r.err(),
            ),
            Request::SetTitle { window, title } => Self::window_edited(
                pre,
                post,
                window,
                Window { title: Some(title), ..Self::window_before(pre, window) },
                r is Ok,
                r.err(),
            ) && (r matches Ok(effects) ==> Self::host_told(
                pre,
                window,
                effects@,
                Effect::SetTitle { window, title },
            )),
            Request::SetAppId { window, app_id } => sends_nothing(r) && Self::window_edited(
                pre,
                post,
                window,
                Window { app_id: Some(app_id), ..Self::window_before(pre, window) },
                r is Ok,
                r.err(),
            ),
            Request::SetMinSize { window, width, height } => sends_nothing(r)
                && Self::min_size_set(pre, post, window, width, height, silent(r)),
            Request::SetMaxSize { window, width, height } => sends_nothing(r)
                && Self::max_size_set(pre, post, window, width, height, silent(r)),
            Request::SetMaximized { window, maximized } => Self::window_restated(
                pre,
                post,
                window,
                Window {
                    maximized,
                    state: WindowState { maximized, ..Self::window_before(pre, window).state },
                    ..Self::window_before(pre, window)
                },
                Effect::SetMaximized { window, maximized },
                r,
            ),
            Request::SetFullscreen { window, fullscreen } => Self::window_restated(
                pre,
                post,
                window,
                Window {
                    fullscreen,
                    state: WindowState { fullscreen, ..Self::window_before(pre, window).state },
                    ..Self::window_before(pre, window)
                },
                Effect::SetFullscreen { window, fullscreen },
                r,
            ),
            Request::SetMinimized { window } => Self::window_edited(
                pre,
                post,
                window,
                Window {
                    state: WindowState { minimized: true, ..Self::window_before(pre, window).state },
                    ..Self::window_before(pre, window)
                },
                r is Ok,
                r.err(),
            ) && (r matches Ok(effects) ==> Self::host_told(
                pre,
                window,
                effects@,
                Effect::Minimize { window },
            )),
            Request::DestroyToplevel { window } => Self::toplevel_destroyed(pre, post, window, r),
        }
    }

    /// Takes a request of a client: does what the request asks for, and
    /// answers with what is to be sent and done, in order; or refuses the
    /// request, changes nothing, and answers with the reason.
    pub fn request(&mut self, request: Request) -> (r: Result<Vec<Effect>, ProtocolError>)
        requires
            old(self).wf(),
        ensures
            final(self).wf(),
            Self::requested(old(self), final(self), request, r),
    {
        match request {
            Request::CreateSurface => match self.create_surface() {
                Ok(id) => Ok(Self::one(Effect::NewSurface(id))),
                Err(e) => Err(e),
            },
            Request::Attach { surface, buffer } => Self::quiet(self.surface_attach(surface, buffer)),
            Request::Damage { surface, x, y, width, height } => Self::quiet(
                self.surface_damage(surface, x, y, width, height),
            ),
            Request::DamageBuffer { surface, x, y, width, height } => Self::quiet(
                self.surface_damage(surface, x, y, width, height),
            ),
            Request::Frame { surface, callback } => Self::quiet(self.surface_frame(surface, callback)),
            Request::SetBufferScale { surface, scale } => Self::quiet(
                self.surface_set_scale(surface, scale),
            ),
            Request::SetBufferTransform { surface, transform } => Self::quiet(
                self.surface_set_transform(surface, transform),
            ),
            Request::Commit { surface } => self.surface_commit(surface),
            Request::DestroySurface { surface } => self.surface_destroy(surface),
            Request::CreatePool { fd, size } => match self.create_pool(fd, size) {
                Ok(id) => Ok(Self::one(Effect::NewPool(id))),
                Err(e) => Err(e),
            },
            Request::CreateBuffer { pool, offset, width, height, stride, format } => {
                match self.pool_create_buffer(pool, offset, width, height, stride, format) {
                    Ok(id) => Ok(Self::one(Effect::NewBuffer(id))),
                    Err(e) => Err(e),
                }
            },
            Request::ResizePool { pool, size } => Self::quiet(self.pool_resize(pool, size)),
            Request::DestroyPool { pool } => {
                self.pool_destroy(pool);
                Ok(Vec::new())
            },
            Request::DestroyBuffer { buffer } => {
                self.buffer_destroy(buffer);
                Ok(Vec::new())
            },
            Request::SetCursor { surface, hotspot_x, hotspot_y } => Self::quiet(
                self.pointer_set_cursor(surface, hotspot_x, hotspot_y),
            ),
            Request::GetXdgSurface { surface } => Self::quiet(self.get_xdg_surface(surface)),
            Request::GetToplevel { surface } => self.xdg_get_toplevel(surface),
            Request::GetPopup { surface, parent, positioner } => self.xdg_get_popup(
                surface,
                parent,
                &positioner,
            ),
            Request::SetWindowGeometry { surface, x, y, width, height } => Self::quiet(
                self.xdg_set_window_geometry(surface, x, y, width, height),
            ),
            Request::AckConfigure { surface, serial } => Self::quiet(
                self.xdg_ack_configure(surface, serial),
            ),
            Request::DestroyXdgSurface { surface } => {
                self.xdg_surface_destroy(surface);
                Ok(Vec::new())
            },
            Request::SetParent { window, parent } => Self::quiet(
                self.toplevel_set_parent(window, parent),
            ),
            Request::SetTitle { window, title } => self.toplevel_set_title(window, title),
            Request::SetAppId { window, app_id } => Self::quiet(
                self.toplevel_set_app_id(window, app_id),
            ),
            Request::SetMinSize { window, width, height } => Self::quiet(
                self.toplevel_set_min_size(window, width, height),
            ),
            Request::SetMaxSize { window, width, height } => Self::quiet(
                self.toplevel_set_max_size(window, width, height),
            ),
            Request::SetMaximized { window, maximized } => self.toplevel_set_maximized(
                window,
                maximized,
            ),
            Request::SetFullscreen { window, fullscreen } => self.toplevel_set_fullscreen(
                window,
                fullscreen,
            ),
            Request::SetMinimized { window } => self.toplevel_set_minimized(window),
            Request::DestroyToplevel { window } => self.toplevel_destroy(window),
        }
    }

    /// The answer that sends one thing.
    fn one(effect: Effect) -> (effects: Vec<Effect>)
        ensures
            effects@ == seq![effect],
    {
        let mut effects: Vec<Effect> = Vec::new();
        effects.push(effect);
        assert(effects@ =~= seq![effect]);
        effects
    }

    /// The answer to a request that sends nothing.
    fn quiet(outcome: Result<(), ProtocolError>) -> (r: Result<Vec<Effect>, ProtocolError>)
        ensures
            silent(r) == outcome,
            sends_nothing(r),
    {
        match outcome {
            Ok(done) => {
                assert(done == ());
                Ok(Vec::new())
            },
            Err(e) => Err(e),
        }
    }
}

} // verus!
