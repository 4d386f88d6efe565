//! Requests on the core objects: the compositor, surfaces, shared-memory
//! pools and buffers, and the seat's devices.

use vstd::prelude::*;
use crate::compositor::state::CompositorState;
use crate::compositor::surface::{BufferInfo, SurfaceId, SurfaceRole, SurfaceView};
use crate::compositor::window::{Window, WindowId};
use crate::input::pointer::PointerView;
use crate::input::seat::SeatView;
use crate::protocol::shm::{ShmBuffer, ShmBufferId, ShmError, ShmFormat, ShmPoolId, WlShmHandler};
use crate::server::{buffer_info, Effect, ProtocolError, ServerState};

verus! {

broadcast use vstd::std_specs::hash::group_hash_axioms;

/// Output user data
#[derive(Debug, Clone, Copy, PartialEq, Eq, Structural)]
pub struct OutputData {
    pub output_id: crate::compositor::output::OutputId,
}

/// Seat user data - tracks capabilities
#[derive(Debug, Clone, Copy, PartialEq, Eq, Structural)]
pub struct SeatData {
    /// The capability mask that was sent to the client
    pub capabilities: u32,
}

/// A window that shows a surface, and the buffer that it shows.
pub struct Showing {
    pub window: WindowId,
    pub buffer: BufferInfo,
}

/// The smallest native window that is made: 640 by 480.
pub open spec fn window_extent(pixels: u32, least: u32) -> u32 {
    if pixels > least {
        pixels
    } else {
        least
    }
}

/// How often `effects` tell the client that `buffer` is released.
pub open spec fn release_count(effects: Seq<Effect>, buffer: ShmBufferId) -> nat
    decreases effects.len(),
{
    if effects.len() == 0 {
        0
    } else {
        release_count(effects.drop_last(), buffer) + if effects.last() == Effect::Release(buffer) {
            1nat
        } else {
            0nat
        }
    }
}

/// A commit releases a buffer once, and only the buffer that it took
/// out of use on the surface, and only where no surface shows that
/// buffer any longer.
pub proof fn lemma_commit_releases_once(
    pre: &ServerState,
    post: &ServerState,
    surface: SurfaceId,
    r: Result<Vec<Effect>, ProtocolError>,
    buffer: ShmBufferId,
)
    requires
        ServerState::committed(pre, post, surface, r),
        r is Ok,
    ensures
        release_count(r->Ok_0@, buffer) == if ServerState::released(pre, post, surface) == Some(
            buffer,
        ) {
            1nat
        } else {
            0nat
        },
        release_count(r->Ok_0@, buffer) == 1 ==> !post.compositor.surfaces.shows(buffer) && (
        pre.compositor.surfaces@[surface.0].buffer matches Some(b) && b.id == buffer),
{
    let effects = r->Ok_0@;
    assert(effects.len() <= 4);
    reveal_with_fuel(release_count, 5);
    let e1 = effects.drop_last();
    let e2 = e1.drop_last();
    let e3 = e2.drop_last();
    if effects.len() >= 1 {
        assert(e1.len() == effects.len() - 1);
        assert(effects.last() == effects[effects.len() - 1]);
    }
    if effects.len() >= 2 {
        assert(e1.last() == effects[effects.len() - 2]);
    }
    if effects.len() >= 3 {
        assert(e2.last() == effects[effects.len() - 3]);
    }
    if effects.len() >= 4 {
        assert(e3.last() == effects[effects.len() - 4]);
    }
}

impl ServerState {
    /// Between `pre` and `post`, nothing changed but the surface with the
    /// identity `surface`, which is there in both.
    pub open spec fn only_surface_changed(pre: &Self, post: &Self, surface: SurfaceId) -> bool {
        &&& post.shm == pre.shm
        &&& post.xdg_surfaces == pre.xdg_surfaces
        &&& post.compositor == (CompositorState {
            surfaces: post.compositor.surfaces,
            ..pre.compositor
        })
        &&& post.compositor.surfaces.registry() == pre.compositor.surfaces.registry()
        &&& pre.compositor.surfaces@.contains_key(surface.0)
        &&& post.compositor.surfaces@.dom() =~= pre.compositor.surfaces@.dom()
        &&& post.compositor.surfaces@[surface.0].id == surface
        &&& forall|k: u64|
            pre.compositor.surfaces@.contains_key(k) && k != surface.0
                ==> post.compositor.surfaces@[k] == pre.compositor.surfaces@[k]
    }

    /// What holds after a request that edits the pending state of a
    /// surface: the request fails where the surface does not exist; else
    /// the surface is `edited` and nothing else has changed.
    pub open spec fn surface_edited(
        pre: &Self,
        post: &Self,
        surface: SurfaceId,
        edited: SurfaceView,
        r: Result<(), ProtocolError>,
    ) -> bool {
        if pre.compositor.surfaces@.contains_key(surface.0) {
            &&& r is Ok
            &&& Self::only_surface_changed(pre, post, surface)
            &&& post.compositor.surfaces@[surface.0]@ == edited
        } else {
            &&& r == Err::<(), ProtocolError>(ProtocolError::InvalidObject)
            &&& *post == *pre
        }
    }

    /// What holds after wl_compositor::create_surface: a new surface is
    /// there, as it is when it was just created, and nothing else has
    /// changed; or no identity is left for one, and nothing has changed.
    pub open spec fn surface_created(
        pre: &Self,
        post: &Self,
        r: Result<SurfaceId, ProtocolError>,
    ) -> bool {
        &&& match r {
            Ok(id) => {
                &&& pre.compositor.surfaces.registry().has_room()
                &&& id.0 == pre.compositor.surfaces.registry().next_id()
                &&& !pre.compositor.surfaces@.contains_key(id.0)
                &&& post.compositor.surfaces@.dom() == pre.compositor.surfaces@.dom().insert(id.0)
                &&& post.compositor.surfaces@[id.0]@ == SurfaceView::fresh(id)
                &&& forall|k: u64|
                    pre.compositor.surfaces@.contains_key(k) ==> post.compositor.surfaces@[k] == pre.compositor.surfaces@[k]
                &&& post.shm == pre.shm
                &&& post.xdg_surfaces == pre.xdg_surfaces
                &&& post.compositor == (CompositorState {
                    surfaces: post.compositor.surfaces,
                    ..pre.compositor
                })
            },
            Err(e) => {
                &&& e == ProtocolError::NoMemory
                &&& !pre.compositor.surfaces.registry().has_room()
                &&& *post == *pre
            },
        }
    }

    /// Handle wl_compositor::create_surface
    pub fn create_surface(&mut self) -> (r: Result<SurfaceId, ProtocolError>)
        requires
            old(self).wf(),
        ensures
            final(self).wf(),
            Self::surface_created(old(self), final(self), r),
    {
        if !self.compositor.surfaces.has_room() {
            return Err(ProtocolError::NoMemory);
        }
        Ok(self.compositor.surfaces.create_surface())
    }

    /// What a surface is told of a buffer that is attached to it: the
    /// buffer must exist where one is named.
    pub open spec fn attachment(shm: &WlShmHandler, buffer: Option<ShmBufferId>) -> Option<
        Option<BufferInfo>,
    > {
        match buffer {
            Some(id) => if shm.buffers().contains_key(id.0) {
                Some(Some(buffer_info(shm.buffers()[id.0])))
            } else {
                None
            },
            None => Some(None),
        }
    }

    /// What holds after wl_surface::attach. It fails where the surface or
    /// the buffer does not exist; else the buffer, or none, is noted in the
    /// surface's pending state.
    pub open spec fn attached(
        pre: &Self,
        post: &Self,
        surface: SurfaceId,
        buffer: Option<ShmBufferId>,
        r: Result<(), ProtocolError>,
    ) -> bool {
        &&& match Self::attachment(&pre.shm, buffer) {
            Some(info) => Self::surface_edited(
                pre,
                post,
                surface,
                pre.compositor.surfaces@[surface.0]@.attach(info),
                r,
            ),
            None => r == Err::<(), ProtocolError>(ProtocolError::InvalidObject) && *post
                == *pre,
        }
    }

    /// Handle wl_surface::attach: the buffer, or none, is noted in the
    /// surface's pending state.
    pub fn surface_attach(&mut self, surface: SurfaceId, buffer: Option<ShmBufferId>) -> (r: Result<
        (),
        ProtocolError,
    >)
        requires
            old(self).wf(),
        ensures
            final(self).wf(),
            Self::attached(old(self), final(self), surface, buffer, r),
    {
        let info: Option<BufferInfo> = match buffer {
            Some(id) => match self.shm.get_buffer(id) {
                Some(b) => Some(
                    BufferInfo {
                        id: b.id,
                        width: b.width,
                        height: b.height,
                        stride: b.stride,
                        format: b.format.to_wayland(),
                        offset: b.offset,
                    },
                ),
                None => {
                    return Err(ProtocolError::InvalidObject);
                },
            },
            None => None,
        };
        if self.compositor.surfaces.get(surface).is_none() {
            return Err(ProtocolError::InvalidObject);
        }
        match self.compositor.surfaces.get_mut(surface) {
            Some(s) => {
                s.attach(info);
                Ok(())
            },
            None => Err(ProtocolError::InvalidObject),
        }
    }

    /// Handle wl_surface::damage and wl_surface::damage_buffer: the
    /// rectangle joins the surface's pending damage.
    pub fn surface_damage(&mut self, surface: SurfaceId, x: i32, y: i32, width: i32, height: i32)
        -> (r: Result<(), ProtocolError>)
        requires
            old(self).wf(),
        ensures
            final(self).wf(),
            Self::surface_edited(
                old(self),
                final(self),
                surface,
                old(self).compositor.surfaces@[surface.0]@.add_damage(
                    crate::compositor::surface::DamageRect { x, y, width, height },
                ),
                r,
            ),
    {
        if self.compositor.surfaces.get(surface).is_none() {
            return Err(ProtocolError::InvalidObject);
        }
        match self.compositor.surfaces.get_mut(surface) {
            Some(s) => {
                s.damage(x, y, width, height);
                Ok(())
            },
            None => Err(ProtocolError::InvalidObject),
        }
    }

    /// Handle wl_surface::frame: the callback joins the surface's pending
    /// frame callbacks.
    pub fn surface_frame(&mut self, surface: SurfaceId, callback: u32) -> (r: Result<
        (),
        ProtocolError,
    >)
        requires
            old(self).wf(),
        ensures
            final(self).wf(),
            Self::surface_edited(
                old(self),
                final(self),
                surface,
                old(self).compositor.surfaces@[surface.0]@.frame(callback),
                r,
            ),
    {
        if self.compositor.surfaces.get(surface).is_none() {
            return Err(ProtocolError::InvalidObject);
        }
        match self.compositor.surfaces.get_mut(surface) {
            Some(s) => {
                s.frame(callback);
                Ok(())
            },
            None => Err(ProtocolError::InvalidObject),
        }
    }

    /// What holds after wl_surface::set_buffer_scale. It fails where the
    /// surface does not exist or the scale is below 1; else the scale is
    /// noted in the surface's pending state.
    pub open spec fn scale_set(
        pre: &Self,
        post: &Self,
        surface: SurfaceId,
        scale: i32,
        r: Result<(), ProtocolError>,
    ) -> bool {
        &&& if scale >= 1 {
            Self::surface_edited(
                pre,
                post,
                surface,
                pre.compositor.surfaces@[surface.0]@.set_scale(scale),
                r,
            )
        } else {
            r == Err::<(), ProtocolError>(
                if pre.compositor.surfaces@.contains_key(surface.0) {
                    ProtocolError::InvalidArgument
                } else {
                    ProtocolError::InvalidObject
                },
            ) && *post == *pre
        }
    }

    /// Handle wl_surface::set_buffer_scale. A scale below 1 is refused.
    pub fn surface_set_scale(&mut self, surface: SurfaceId, scale: i32) -> (r: Result<
        (),
        ProtocolError,
    >)
        requires
            old(self).wf(),
        ensures
            final(self).wf(),
            Self::scale_set(old(self), final(self), surface, scale, r),
    {
        if scale < 1 {
            return match self.compositor.surfaces.get(surface) {
                Some(_) => Err(ProtocolError::InvalidArgument),
                None => Err(ProtocolError::InvalidObject),
            };
        }
        if self.compositor.surfaces.get(surface).is_none() {
            return Err(ProtocolError::InvalidObject);
        }
        match self.compositor.surfaces.get_mut(surface) {
            Some(s) => {
                s.set_scale(scale);
                Ok(())
            },
            None => Err(ProtocolError::InvalidObject),
        }
    }

    /// What holds after wl_surface::set_buffer_transform. It fails where
    /// the surface does not exist or the transform is not one of the eight;
    /// else the transform is noted in the surface's pending state.
    pub open spec fn transform_set(
        pre: &Self,
        post: &Self,
        surface: SurfaceId,
        transform: i32,
        r: Result<(), ProtocolError>,
    ) -> bool {
        &&& if 0 <= transform <= 7 {
            Self::surface_edited(
                pre,
                post,
                surface,
                pre.compositor.surfaces@[surface.0]@.set_transform(transform),
                r,
            )
        } else {
            r == Err::<(), ProtocolError>(
                if pre.compositor.surfaces@.contains_key(surface.0) {
                    ProtocolError::InvalidArgument
                } else {
                    ProtocolError::InvalidObject
                },
            ) && *post == *pre
        }
    }

    /// Handle wl_surface::set_buffer_transform. A transform that is not
    /// one of the eight is refused.
    pub fn surface_set_transform(&mut self, surface: SurfaceId, transform: i32) -> (r: Result<
        (),
        ProtocolError,
    >)
        requires
            old(self).wf(),
        ensures
            final(self).wf(),
            Self::transform_set(old(self), final(self), surface, transform, r),
    {
        if transform < 0 || transform > 7 {
            return match self.compositor.surfaces.get(surface) {
                Some(_) => Err(ProtocolError::InvalidArgument),
                None => Err(ProtocolError::InvalidObject),
            };
        }
        if self.compositor.surfaces.get(surface).is_none() {
            return Err(ProtocolError::InvalidObject);
        }
        match self.compositor.surfaces.get_mut(surface) {
            Some(s) => {
                s.set_transform(transform);
                Ok(())
            },
            None => Err(ProtocolError::InvalidObject),
        }
    }

    /// Whether a commit of the surface is out of order: the surface has a
    /// shell surface whose first configure waits for its acknowledgement,
    /// and a buffer is attached.
    pub open spec fn commit_blocked(pre: &Self, surface: SurfaceId) -> bool {
        let pending = pre.compositor.surfaces@[surface.0]@.pending;
        &&& pre.xdg_surfaces@.contains_key(surface.0)
        &&& !pre.xdg_surfaces@[surface.0]@.may_commit(
            pending.buffer_touched && pending.buffer is Some,
        )
    }

    /// The buffer that a commit releases: the one that the commit took
    /// out of use on the surface, unless a surface still shows it.
    pub open spec fn released(pre: &Self, post: &Self, surface: SurfaceId) -> Option<ShmBufferId> {
        match pre.compositor.surfaces@[surface.0]@.replaced_by_commit() {
            Some(b) => if post.compositor.surfaces.shows(b.id) {
                None
            } else {
                Some(b.id)
            },
            None => None,
        }
    }

    /// The window that shows a surface, with the buffer that it shows: the
    /// surface is a toplevel, has a window, and has a current buffer.
    pub open spec fn shown(state: &Self, surface: SurfaceId) -> Option<Showing> {
        let s = state.compositor.surfaces@[surface.0];
        if s.role == SurfaceRole::XdgToplevel && state.compositor.windows.surface_index().contains_key(
            surface.0,
        ) && s.buffer is Some {
            Some(
                Showing {
                    window: WindowId(state.compositor.windows.surface_index()[surface.0]),
                    buffer: s.buffer->0,
                },
            )
        } else {
            None
        }
    }

    /// The title of a window's native window.
    pub open spec fn native_title(window: Window) -> Seq<char> {
        match window.title {
            Some(title) => title@,
            None => "Wayland Window"@,
        }
    }

    /// What a commit has sent and done: a release, where a buffer is to
    /// be released; then, where the surface is shown in a window, the
    /// making of the native window if there is none yet, the upload of the
    /// buffer and the drawing of the window.
    pub open spec fn commit_effects(
        pre: &Self,
        post: &Self,
        surface: SurfaceId,
        effects: Seq<Effect>,
    ) -> bool {
        let released = Self::released(pre, post, surface);
        let shown = Self::shown(post, surface);
        let opens = Self::opens_window(pre, shown);
        let first = if released is Some {
            1int
        } else {
            0int
        };
        let second = if opens {
            first + 1
        } else {
            first
        };
        &&& effects.len() == if shown is Some {
            second + 2
        } else {
            second
        }
        &&& released matches Some(id) ==> effects[0] == Effect::Release(id)
        &&& shown matches Some(showing) ==> {
            &&& opens ==> (effects[first] matches Effect::CreateWindow {
                window,
                width,
                height,
                title,
            } && window == showing.window && width == window_extent(showing.buffer.width, 640)
                && height == window_extent(showing.buffer.height, 480) && title@
                == Self::native_title(pre.compositor.windows.windows()[showing.window.0]))
            &&& effects[second] == (Effect::Upload { surface, buffer: showing.buffer })
            &&& effects[second + 1] == (Effect::Present { window: showing.window, surface })
        }
    }

    /// Whether a native window is to be made for a surface that is shown:
    /// its window has none yet.
    pub open spec fn opens_window(pre: &Self, shown: Option<Showing>) -> bool {
        shown matches Some(showing) && pre.compositor.windows.windows()[showing.window.0].native_handle
            is None
    }

    /// What holds after a commit. It fails where the surface does not
    /// exist, and where a buffer is committed before the first configure
    /// is acknowledged. Else the surface's pending state has become its
    /// current state; a native window is noted for the surface's window
    /// where one is made; and nothing else has changed.
    pub open spec fn committed(
        pre: &Self,
        post: &Self,
        surface: SurfaceId,
        r: Result<Vec<Effect>, ProtocolError>,
    ) -> bool {
        if !pre.compositor.surfaces@.contains_key(surface.0) {
            r == Err::<Vec<Effect>, ProtocolError>(ProtocolError::InvalidObject) && *post == *pre
        } else if Self::commit_blocked(pre, surface) {
            r == Err::<Vec<Effect>, ProtocolError>(ProtocolError::UnconfiguredBuffer) && *post
                == *pre
        } else {
            let shown = Self::shown(post, surface);
            let windows = pre.compositor.windows.windows();
            &&& r is Ok
            &&& post.shm == pre.shm
            &&& post.xdg_surfaces == pre.xdg_surfaces
            &&& post.compositor == (CompositorState {
                surfaces: post.compositor.surfaces,
                windows: post.compositor.windows,
                ..pre.compositor
            })
            &&& post.compositor.surfaces.registry() == pre.compositor.surfaces.registry()
            &&& post.compositor.surfaces@.dom() =~= pre.compositor.surfaces@.dom()
            &&& post.compositor.surfaces@[surface.0]@ == pre.compositor.surfaces@[surface.0]@.commit()
            &&& forall|k: u64|
                pre.compositor.surfaces@.contains_key(k) && k != surface.0
                    ==> post.compositor.surfaces@[k] == pre.compositor.surfaces@[k]
            &&& post.compositor.windows.surface_index() == pre.compositor.windows.surface_index()
            &&& post.compositor.windows.focused_id() == pre.compositor.windows.focused_id()
            &&& post.compositor.windows.registry() == pre.compositor.windows.registry()
            &&& post.compositor.windows.windows() =~= (match shown {
                Some(showing) => if Self::opens_window(pre, shown) {
                    windows.insert(
                        showing.window.0,
                        Window {
                            native_handle: Some(showing.window.0),
                            ..windows[showing.window.0]
                        },
                    )
                } else {
                    windows
                },
                None => windows,
            })
            &&& Self::commit_effects(pre, post, surface, r->Ok_0@)
        }
    }

    /// Handle wl_surface::commit
    pub fn surface_commit(&mut self, surface: SurfaceId) -> (r: Result<Vec<Effect>, ProtocolError>)
        requires
            old(self).wf(),
        ensures
            final(self).wf(),
            Self::committed(old(self), final(self), surface, r),
    {
        let with_buffer = match self.compositor.surfaces.get(surface) {
            Some(s) => s.pending.buffer_touched && s.pending.buffer.is_some(),
            None => {
                return Err(ProtocolError::InvalidObject);
            },
        };
        let blocked = match self.xdg_surfaces.get(&surface.0) {
            Some(xdg) => xdg.check_commit(with_buffer).is_err(),
            None => false,
        };
        if blocked {
            return Err(ProtocolError::UnconfiguredBuffer);
        }
        let mut effects: Vec<Effect> = Vec::new();

        // Commit the surface state
        let (replaced, current, role) = match self.compositor.surfaces.get_mut(surface) {
            Some(s) => {
                let replaced = s.commit();
                (replaced, s.buffer, s.role)
            },
            None => (None, None, SurfaceRole::Unassigned),
        };
        match replaced {
            Some(b) => {
                if !self.compositor.surfaces.buffer_in_use(b.id) {
                    effects.push(Effect::Release(b.id));
                }
            },
            None => {},
        }
        let ghost first = effects@.len();

        // Check if this surface is a toplevel and is shown in a window
        if role == SurfaceRole::XdgToplevel {
            match (self.compositor.windows.window_for_surface(surface), current) {
                (Some(window_id), Some(buffer)) => {
                    // Create native window if it doesn't exist
                    let opening: Option<String> = match self.compositor.windows.get(window_id) {
                        Some(window) => if window.native_handle.is_none() {
                            match &window.title {
                                Some(title) => Some(title.clone()),
                                None => Some("Wayland Window".to_string()),
                            }
                        } else {
                            None
                        },
                        None => None,
                    };
                    match opening {
                        Some(title) => {
                            match self.compositor.windows.get_mut(window_id) {
                                Some(window) => {
                                    window.native_handle = Some(window_id.0);
                                },
                                None => {},
                            }
                            let width: u32 = if buffer.width > 640 {
                                buffer.width
                            } else {
                                640
                            };
                            let height: u32 = if buffer.height > 480 {
                                buffer.height
                            } else {
                                480
                            };
                            effects.push(
                                Effect::CreateWindow { window: window_id, width, height, title },
                            );
                        },
                        None => {},
                    }
                    effects.push(Effect::Upload { surface, buffer });
                    effects.push(Effect::Present { window: window_id, surface });
                },
                _ => {},
            }
        }
        Ok(effects)
    }

    /// What the destruction of a surface has sent and done: a release of
    /// the surface's buffer, unless a surface still shows it; then the
    /// closing of the native window, where the surface had a window with
    /// one.
    pub open spec fn destroy_effects(
        pre: &Self,
        post: &Self,
        surface: SurfaceId,
        effects: Seq<Effect>,
    ) -> bool {
        let released = match pre.compositor.surfaces@[surface.0].buffer {
            Some(b) => !post.compositor.surfaces.shows(b.id),
            None => false,
        };
        let index = pre.compositor.windows.surface_index();
        let closes = index.contains_key(surface.0)
            && pre.compositor.windows.windows()[index[surface.0]].native_handle is Some;
        let first = if released {
            1int
        } else {
            0int
        };
        &&& effects.len() == if closes {
            first + 1
        } else {
            first
        }
        &&& released ==> effects[0] == Effect::Release(
            pre.compositor.surfaces@[surface.0].buffer->0.id,
        )
        &&& closes ==> effects[first] == (Effect::CloseWindow { window: WindowId(index[surface.0]) })
    }

    /// What holds after the destruction of a surface. It fails where the
    /// surface does not exist. Else the surface has gone, and with it its
    /// shell surface, its window, and every reference that the seat had
    /// to it; and nothing else has changed.
    pub open spec fn destroyed(
        pre: &Self,
        post: &Self,
        surface: SurfaceId,
        r: Result<Vec<Effect>, ProtocolError>,
    ) -> bool {
        if !pre.compositor.surfaces@.contains_key(surface.0) {
            r == Err::<Vec<Effect>, ProtocolError>(ProtocolError::InvalidObject) && *post == *pre
        } else {
            let index = pre.compositor.windows.surface_index();
            let windows = pre.compositor.windows.windows();
            let focused = pre.compositor.windows.focused_id();
            &&& r is Ok
            &&& post.shm == pre.shm
            &&& post.xdg_surfaces@ =~= pre.xdg_surfaces@.remove(surface.0)
            &&& post.compositor == (CompositorState {
                surfaces: post.compositor.surfaces,
                windows: post.compositor.windows,
                seat: post.compositor.seat,
                ..pre.compositor
            })
            &&& post.compositor.surfaces.registry() == pre.compositor.surfaces.registry()
            &&& post.compositor.surfaces@ =~= pre.compositor.surfaces@.remove(surface.0)
            &&& post.compositor.seat@ == pre.compositor.seat@.without(surface)
            &&& post.compositor.windows.registry() == pre.compositor.windows.registry()
            &&& if index.contains_key(surface.0) {
                &&& post.compositor.windows.windows() =~= windows.remove(index[surface.0])
                &&& post.compositor.windows.surface_index() =~= index.remove(surface.0)
                &&& post.compositor.windows.focused_id() == if focused == Some(
                    WindowId(index[surface.0]),
                ) {
                    None
                } else {
                    focused
                }
            } else {
                post.compositor.windows == pre.compositor.windows
            }
            &&& Self::destroy_effects(pre, post, surface, r->Ok_0@)
        }
    }

    /// Handle wl_surface::destroy, and the going of a surface with its
    /// client
    pub fn surface_destroy(&mut self, surface: SurfaceId) -> (r: Result<Vec<Effect>, ProtocolError>)
        requires
            old(self).wf(),
        ensures
            final(self).wf(),
            Self::destroyed(old(self), final(self), surface, r),
    {
        let buffer = match self.compositor.surfaces.get(surface) {
            Some(s) => s.buffer,
            None => {
                return Err(ProtocolError::InvalidObject);
            },
        };
        let mut effects: Vec<Effect> = Vec::new();
        self.compositor.surfaces.remove(surface);
        match buffer {
            Some(b) => {
                if !self.compositor.surfaces.buffer_in_use(b.id) {
                    effects.push(Effect::Release(b.id));
                }
            },
            None => {},
        }
        match self.compositor.windows.window_for_surface(surface) {
            Some(window_id) => {
                match self.compositor.windows.remove(window_id) {
                    Some(window) => {
                        if window.native_handle.is_some() {
                            effects.push(Effect::CloseWindow { window: window_id });
                        }
                    },
                    None => {},
                }
            },
            None => {},
        }
        self.xdg_surfaces.remove(&surface.0);
        self.compositor.seat.forget_surface(surface);
        Ok(effects)
    }

    /// The protocol error that stands for a failure of the shared-memory
    /// handler.
    pub open spec fn shm_error(e: ShmError) -> ProtocolError {
        match e {
            ShmError::InvalidPool => ProtocolError::InvalidObject,
            ShmError::BufferTooLarge => ProtocolError::BufferOutOfPool,
            ShmError::InvalidStride => ProtocolError::InvalidStride,
            ShmError::InvalidFormat => ProtocolError::InvalidArgument,
        }
    }

    /// What holds after wl_shm::create_pool: a new pool of the given size
    /// is there, not yet mapped; or the size is not positive or no identity
    /// is left, and nothing has changed.
    pub open spec fn pool_created(
        pre: &Self,
        post: &Self,
        fd: i32,
        size: i32,
        r: Result<ShmPoolId, ProtocolError>,
    ) -> bool {
        &&& post.compositor == pre.compositor
        &&& post.xdg_surfaces == pre.xdg_surfaces
        &&& match r {
            Ok(id) => {
                &&& size > 0
                &&& id.0 == pre.shm.pool_registry().next_id()
                &&& !pre.shm.pools().contains_key(id.0)
                &&& post.shm.pools() == pre.shm.pools().insert(
                    id.0,
                    crate::protocol::shm::ShmPool {
                        id,
                        fd,
                        size: size as usize,
                        mapped: false,
                    },
                )
                &&& post.shm.buffers() == pre.shm.buffers()
                &&& post.shm.buffer_registry() == pre.shm.buffer_registry()
            },
            Err(e) => {
                &&& e == if size <= 0 {
                    ProtocolError::InvalidArgument
                } else {
                    ProtocolError::NoMemory
                }
                &&& size <= 0 || !pre.shm.pool_registry().has_room()
                &&& *post == *pre
            },
        }
    }

    /// Handle wl_shm::create_pool. A pool has at least one byte.
    pub fn create_pool(&mut self, fd: i32, size: i32) -> (r: Result<ShmPoolId, ProtocolError>)
        requires
            old(self).wf(),
        ensures
            final(self).wf(),
            Self::pool_created(old(self), final(self), fd, size, r),
    {
        if size <= 0 {
            return Err(ProtocolError::InvalidArgument);
        }
        if !self.shm.has_room_for_pool() {
            return Err(ProtocolError::NoMemory);
        }
        Ok(self.shm.create_pool(fd, size as usize))
    }

    /// Why a buffer cannot be made, if it cannot: the pool does not
    /// exist; the offset is negative, or the buffer has no pixels or rows
    /// that do not fit its stride; the buffer would end outside the pool;
    /// or no identity is left for it.
    pub open spec fn buffer_refusal(
        pre: &Self,
        pool: ShmPoolId,
        offset: i32,
        width: i32,
        height: i32,
        stride: i32,
        format: u32,
    ) -> Option<ProtocolError> {
        if !pre.shm.pools().contains_key(pool.0) {
            Some(ProtocolError::InvalidObject)
        } else if offset < 0 || width <= 0 || height <= 0 || stride <= 0 {
            Some(ProtocolError::InvalidStride)
        } else {
            match WlShmHandler::refusal(
                pre.shm.pools(),
                pool,
                offset as u32,
                width as u32,
                height as u32,
                stride as u32,
                format,
            ) {
                Some(e) => Some(Self::shm_error(e)),
                None => if pre.shm.buffer_registry().has_room() {
                    None
                } else {
                    Some(ProtocolError::NoMemory)
                },
            }
        }
    }

    /// What holds after wl_shm_pool::create_buffer: a new buffer is there
    /// that lies in its pool and has rows of at least four bytes a pixel; or
    /// the request is refused for the reason that `buffer_refusal` names,
    /// and nothing has changed.
    pub open spec fn buffer_created(
        pre: &Self,
        post: &Self,
        pool: ShmPoolId,
        offset: i32,
        width: i32,
        height: i32,
        stride: i32,
        format: u32,
        r: Result<ShmBufferId, ProtocolError>,
    ) -> bool {
        &&& post.compositor == pre.compositor
        &&& post.xdg_surfaces == pre.xdg_surfaces
        &&& post.shm.pools() == pre.shm.pools()
        &&& post.shm.pool_registry() == pre.shm.pool_registry()
        &&& match r {
            Ok(id) => {
                &&& Self::buffer_refusal(pre, pool, offset, width, height, stride, format)
                    is None
                &&& id.0 == pre.shm.buffer_registry().next_id()
                &&& !pre.shm.buffers().contains_key(id.0)
                &&& post.shm.buffers() == pre.shm.buffers().insert(
                    id.0,
                    ShmBuffer {
                        id,
                        pool_id: pool,
                        offset: offset as u32,
                        width: width as u32,
                        height: height as u32,
                        stride: stride as u32,
                        format: ShmFormat::of_code(format),
                    },
                )
                &&& stride >= width * 4
                &&& offset + stride * height <= pre.shm.pools()[pool.0].size
            },
            Err(e) => {
                &&& Self::buffer_refusal(pre, pool, offset, width, height, stride, format)
                    == Some(e)
                &&& *post == *pre
            },
        }
    }

    /// Handle wl_shm_pool::create_buffer
    pub fn pool_create_buffer(
        &mut self,
        pool: ShmPoolId,
        offset: i32,
        width: i32,
        height: i32,
        stride: i32,
        format: u32,
    ) -> (r: Result<ShmBufferId, ProtocolError>)
        requires
            old(self).wf(),
        ensures
            final(self).wf(),
            Self::buffer_created(old(self), final(self), pool, offset, width, height, stride, format, r),
    {
        if self.shm.get_pool(pool).is_none() {
            return Err(ProtocolError::InvalidObject);
        }
        if offset < 0 || width <= 0 || height <= 0 || stride <= 0 {
            return Err(ProtocolError::InvalidStride);
        }
        if !self.shm.has_room_for_buffer() {
            // The geometry decides first: ask the pool what it says of it.
            return match self.check_buffer(pool, offset as u32, width as u32, height as u32, stride as u32, format) {
                Some(e) => Err(e),
                None => Err(ProtocolError::NoMemory),
            };
        }
        proof {
            assert((stride as u32) * (height as u32) == stride * height) by (nonlinear_arith)
                requires
                    stride as u32 == stride,
                    height as u32 == height,
            ;
            assert((width as u32) * 4 == width * 4);
        }
        match self.shm.create_buffer(
            pool,
            offset as u32,
            width as u32,
            height as u32,
            stride as u32,
            format,
        ) {
            Ok(id) => Ok(id),
            Err(e) => Err(
                match e {
                    ShmError::InvalidPool => ProtocolError::InvalidObject,
                    ShmError::BufferTooLarge => ProtocolError::BufferOutOfPool,
                    ShmError::InvalidStride => ProtocolError::InvalidStride,
                    ShmError::InvalidFormat => ProtocolError::InvalidArgument,
                },
            ),
        }
    }

    /// What the pool says of a buffer's geometry, without making the
    /// buffer.
    fn check_buffer(
        &self,
        pool: ShmPoolId,
        offset: u32,
        width: u32,
        height: u32,
        stride: u32,
        format: u32,
    ) -> (r: Option<ProtocolError>)
        requires
            self.shm.pools().contains_key(pool.0),
        ensures
            r == match WlShmHandler::refusal(
                self.shm.pools(),
                pool,
                offset,
                width,
                height,
                stride,
                format,
            ) {
                Some(e) => Some(Self::shm_error(e)),
                None => None,
            },
    {
        let size: usize = match self.shm.get_pool(pool) {
            Some(p) => p.size,
            None => 0,
        };
        if width == 0 || height == 0 || (stride as u64) < width as u64 * 4 {
            return Some(ProtocolError::InvalidStride);
        }
        proof {
            assert(stride as u64 * height as u64 <= 0xffff_ffff * 0xffff_ffff) by (nonlinear_arith)
                requires
                    stride as u64 <= 0xffff_ffff,
                    height as u64 <= 0xffff_ffff,
            ;
        }
        if offset as u64 + stride as u64 * height as u64 > size as u64 {
            return Some(ProtocolError::BufferOutOfPool);
        }
        None
    }

    /// What holds after wl_shm_pool::resize: the pool has grown to the
    /// size, or is as it was where the size is not larger; or the pool does
    /// not exist or the size is negative, and nothing has changed.
    pub open spec fn pool_resized(
        pre: &Self,
        post: &Self,
        pool: ShmPoolId,
        size: i32,
        r: Result<(), ProtocolError>,
    ) -> bool {
        &&& post.compositor == pre.compositor
        &&& post.xdg_surfaces == pre.xdg_surfaces
        &&& post.shm.buffers() == pre.shm.buffers()
        &&& post.shm.pool_registry() == pre.shm.pool_registry()
        &&& post.shm.buffer_registry() == pre.shm.buffer_registry()
        &&& match r {
            Ok(_) => {
                let before = pre.shm.pools()[pool.0];
                &&& pre.shm.pools().contains_key(pool.0)
                &&& size >= 0
                &&& post.shm.pools() == pre.shm.pools().insert(
                    pool.0,
                    before.resized(size as usize),
                )
            },
            Err(e) => {
                &&& e == if !pre.shm.pools().contains_key(pool.0) {
                    ProtocolError::InvalidObject
                } else {
                    ProtocolError::InvalidArgument
                }
                &&& !pre.shm.pools().contains_key(pool.0) || size < 0
                &&& *post == *pre
            },
        }
    }

    /// Handle wl_shm_pool::resize. A pool only grows: a smaller size
    /// leaves it as it is.
    pub fn pool_resize(&mut self, pool: ShmPoolId, size: i32) -> (r: Result<(), ProtocolError>)
        requires
            old(self).wf(),
        ensures
            final(self).wf(),
            Self::pool_resized(old(self), final(self), pool, size, r),
    {
        if self.shm.get_pool(pool).is_none() {
            return Err(ProtocolError::InvalidObject);
        }
        if size < 0 {
            return Err(ProtocolError::InvalidArgument);
        }
        let _ = self.shm.resize_pool(pool, size as usize);
        Ok(())
    }

    /// What holds after wl_shm_pool::destroy: the pool has gone, and its
    /// buffers stay.
    pub open spec fn pool_destroyed(pre: &Self, post: &Self, pool: ShmPoolId) -> bool {
        &&& post.compositor == pre.compositor
        &&& post.xdg_surfaces == pre.xdg_surfaces
        &&& post.shm.pools() == pre.shm.pools().remove(pool.0)
        &&& post.shm.buffers() == pre.shm.buffers()
        &&& post.shm.pool_registry() == pre.shm.pool_registry()
        &&& post.shm.buffer_registry() == pre.shm.buffer_registry()
    }

    /// Handle wl_shm_pool::destroy. Buffers made from the pool stay.
    pub fn pool_destroy(&mut self, pool: ShmPoolId)
        requires
            old(self).wf(),
        ensures
            final(self).wf(),
            Self::pool_destroyed(old(self), final(self), pool),
    {
        self.shm.destroy_pool(pool);
    }

    /// What holds after wl_buffer::destroy: the buffer has gone.
    pub open spec fn buffer_destroyed(pre: &Self, post: &Self, buffer: ShmBufferId) -> bool {
        &&& post.compositor == pre.compositor
        &&& post.xdg_surfaces == pre.xdg_surfaces
        &&& post.shm.buffers() == pre.shm.buffers().remove(buffer.0)
        &&& post.shm.pools() == pre.shm.pools()
        &&& post.shm.pool_registry() == pre.shm.pool_registry()
        &&& post.shm.buffer_registry() == pre.shm.buffer_registry()
    }

    /// Handle wl_buffer::destroy
    pub fn buffer_destroy(&mut self, buffer: ShmBufferId)
        requires
            old(self).wf(),
        ensures
            final(self).wf(),
            Self::buffer_destroyed(old(self), final(self), buffer),
    {
        self.shm.destroy_buffer(buffer);
    }

    /// Why a surface cannot become the cursor, if it cannot: it does not
    /// exist, or it has another role.
    pub open spec fn cursor_refusal(pre: &Self, surface: Option<SurfaceId>) -> Option<
        ProtocolError,
    > {
        match surface {
            Some(s) => if !pre.compositor.surfaces@.contains_key(s.0) {
                Some(ProtocolError::InvalidObject)
            } else if !pre.compositor.surfaces@[s.0]@.accepts_role(SurfaceRole::Cursor) {
                Some(ProtocolError::RoleConflict)
            } else {
                None
            },
            None => None,
        }
    }

    /// What holds after wl_pointer::set_cursor. It is refused for the
    /// reason that `cursor_refusal` names; else the surface, where one is
    /// named, has the role of a cursor and is the pointer's cursor with the
    /// hotspot.
    pub open spec fn cursor_set(
        pre: &Self,
        post: &Self,
        surface: Option<SurfaceId>,
        hotspot_x: i32,
        hotspot_y: i32,
        r: Result<(), ProtocolError>,
    ) -> bool {
        &&& match Self::cursor_refusal(pre, surface) {
            Some(e) => r == Err::<(), ProtocolError>(e) && *post == *pre,
            None => {
                &&& r is Ok
                &&& post.shm == pre.shm
                &&& post.xdg_surfaces == pre.xdg_surfaces
                &&& post.compositor == (CompositorState {
                    surfaces: post.compositor.surfaces,
                    seat: post.compositor.seat,
                    ..pre.compositor
                })
                &&& post.seat() == (SeatView {
                    pointer: PointerView {
                        cursor_surface: surface,
                        cursor_hotspot: (hotspot_x, hotspot_y),
                        ..pre.seat().pointer
                    },
                    ..pre.seat()
                })
                &&& match surface {
                    Some(s) => {
                        &&& post.compositor.surfaces.registry() == pre.compositor.surfaces.registry()
                        &&& post.compositor.surfaces@.dom() =~= pre.compositor.surfaces@.dom()
                        &&& post.compositor.surfaces@[s.0]@ == pre.compositor.surfaces@[s.0]@.set_role(SurfaceRole::Cursor)
                        &&& forall|k: u64|
                            pre.compositor.surfaces@.contains_key(k) && k != s.0
                                ==> post.compositor.surfaces@[k] == pre.compositor.surfaces@[k]
                    },
                    None => post.compositor.surfaces == pre.compositor.surfaces,
                }
            },
        }
    }

    /// Handle wl_pointer::set_cursor: the surface, where one is named,
    /// gets the role of a cursor and is the pointer's cursor with the
    /// given hotspot; where none is named the pointer has no cursor.
    pub fn pointer_set_cursor(
        &mut self,
        surface: Option<SurfaceId>,
        hotspot_x: i32,
        hotspot_y: i32,
    ) -> (r: Result<(), ProtocolError>)
        requires
            old(self).wf(),
        ensures
            final(self).wf(),
            Self::cursor_set(old(self), final(self), surface, hotspot_x, hotspot_y, r),
    {
        match surface {
            Some(s) => {
                let acceptable = match self.compositor.surfaces.get(s) {
                    Some(found) => found.role == SurfaceRole::Unassigned || found.role
                        == SurfaceRole::Cursor,
                    None => {
                        return Err(ProtocolError::InvalidObject);
                    },
                };
                if !acceptable {
                    return Err(ProtocolError::RoleConflict);
                }
                match self.compositor.surfaces.get_mut(s) {
                    Some(found) => {
                        let _ = found.set_role(SurfaceRole::Cursor);
                    },
                    None => {},
                }
            },
            None => {},
        }
        self.compositor.seat.pointer_mut().set_cursor(surface, hotspot_x, hotspot_y);
        Ok(())
    }
}

} // verus!
