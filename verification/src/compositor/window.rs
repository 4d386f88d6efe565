//! Toplevel windows.
//!
//! A window stands for one toplevel surface and mirrors one native window
//! of the host. The manager keeps the windows, finds the window of a
//! surface, and tracks which window has the focus.

use std::collections::HashMap;
use std::collections::hash_map::Entry;
use vstd::prelude::*;
use vstd::std_specs::iter::IteratorSpec;
use crate::compositor::surface::SurfaceId;
use crate::ids::IdRegistry;

verus! {

broadcast use vstd::std_specs::hash::group_hash_axioms;

/// Unique identifier for windows
#[derive(Debug, Clone, Copy, PartialEq, Eq, Hash, Structural)]
pub struct WindowId(pub u64);

impl WindowId {
    /// Takes the next unused identity from `ids`.
    pub fn new(ids: &mut IdRegistry) -> (id: Self)
        requires
            old(ids).wf(),
            old(ids).has_room(),
        ensures
            id.0 == old(ids).next_id(),
            !old(ids).issued().contains(id.0),
            final(ids).next_id() == old(ids).next_id() + 1,
            final(ids).wf(),
    {
        WindowId(ids.allocate())
    }
}

/// Window state flags
#[derive(Debug, Clone, Copy, PartialEq, Eq, Structural)]
pub struct WindowState {
    /// Window is maximized
    pub maximized: bool,
    /// Window is fullscreen
    pub fullscreen: bool,
    /// Window is minimized/iconified
    pub minimized: bool,
    /// Window is focused
    pub focused: bool,
    /// Window is activated (has keyboard focus)
    pub activated: bool,
    /// Window is resizing
    pub resizing: bool,
    /// Window is being moved
    pub moving: bool,
}

impl WindowState {
    /// No flag set.
    pub open spec fn cleared() -> WindowState {
        WindowState {
            maximized: false,
            fullscreen: false,
            minimized: false,
            focused: false,
            activated: false,
            resizing: false,
            moving: false,
        }
    }
}

impl Default for WindowState {
    fn default() -> (s: Self)
        ensures
            s == WindowState::cleared(),
    {
        WindowState {
            maximized: false,
            fullscreen: false,
            minimized: false,
            focused: false,
            activated: false,
            resizing: false,
            moving: false,
        }
    }
}

/// Window geometry
#[derive(Debug, Clone, Copy, PartialEq, Eq, Structural)]
pub struct WindowGeometry {
    /// X position
    pub x: i32,
    /// Y position
    pub y: i32,
    /// Width in pixels
    pub width: u32,
    /// Height in pixels
    pub height: u32,
}

impl Default for WindowGeometry {
    fn default() -> (g: Self)
        ensures
            g == (WindowGeometry { x: 0, y: 0, width: 0, height: 0 }),
    {
        WindowGeometry { x: 0, y: 0, width: 0, height: 0 }
    }
}

/// A native window representing a Wayland toplevel
#[derive(Debug)]
pub struct Window {
    /// Unique identifier
    pub id: WindowId,
    /// Associated surface
    pub surface_id: SurfaceId,
    /// Window title
    pub title: Option<String>,
    /// Application ID (app_id)
    pub app_id: Option<String>,
    /// Is maximized
    pub maximized: bool,
    /// Is fullscreen
    pub fullscreen: bool,
    /// Window geometry
    pub geometry: WindowGeometry,
    /// Minimum size (0 = no minimum)
    pub min_size: (u32, u32),
    /// Maximum size (0 = no maximum)
    pub max_size: (u32, u32),
    /// Current window state
    pub state: WindowState,
    /// Parent window (for transient windows)
    pub parent: Option<WindowId>,
    /// The token by which the host names its native window, once it has
    /// made one
    pub native_handle: Option<u64>,
}

impl Window {
    /// A window that was just created for `surface_id`.
    pub open spec fn fresh(id: WindowId, surface_id: SurfaceId) -> Window {
        Window {
            id,
            surface_id,
            title: None,
            app_id: None,
            maximized: false,
            fullscreen: false,
            geometry: WindowGeometry { x: 0, y: 0, width: 0, height: 0 },
            min_size: (0, 0),
            max_size: (0, 0),
            state: WindowState::cleared(),
            parent: None,
            native_handle: None,
        }
    }

    /// The window with its focus flags set or cleared: a focused window is
    /// also the activated one.
    pub open spec fn with_focus(self, focused: bool) -> Window {
        Window { state: WindowState { focused, activated: focused, ..self.state }, ..self }
    }

    /// Create a new window
    pub fn new(ids: &mut IdRegistry, surface_id: SurfaceId) -> (w: Self)
        requires
            old(ids).wf(),
            old(ids).has_room(),
        ensures
            w == Window::fresh(WindowId(old(ids).next_id()), surface_id),
            final(ids).next_id() == old(ids).next_id() + 1,
            final(ids).wf(),
    {
        Window {
            id: WindowId::new(ids),
            surface_id,
            title: None,
            app_id: None,
            maximized: false,
            fullscreen: false,
            geometry: WindowGeometry::default(),
            min_size: (0, 0),
            max_size: (0, 0),
            state: WindowState::default(),
            parent: None,
            native_handle: None,
        }
    }

    /// Set the window title
    pub fn set_title(&mut self, title: String)
        ensures
            *final(self) == (Window { title: Some(title), ..*old(self) }),
    {
        self.title = Some(title);
    }

    /// Set the application ID
    pub fn set_app_id(&mut self, app_id: String)
        ensures
            *final(self) == (Window { app_id: Some(app_id), ..*old(self) }),
    {
        self.app_id = Some(app_id);
    }

    /// Set window geometry
    pub fn set_geometry(&mut self, x: i32, y: i32, width: u32, height: u32)
        ensures
            *final(self) == (Window {
                geometry: WindowGeometry { x, y, width, height },
                ..*old(self)
            }),
    {
        self.geometry = WindowGeometry { x, y, width, height };
    }

    /// Set minimum size
    pub fn set_min_size(&mut self, width: u32, height: u32)
        ensures
            *final(self) == (Window { min_size: (width, height), ..*old(self) }),
    {
        self.min_size = (width, height);
    }

    /// Set maximum size
    pub fn set_max_size(&mut self, width: u32, height: u32)
        ensures
            *final(self) == (Window { max_size: (width, height), ..*old(self) }),
    {
        self.max_size = (width, height);
    }

    /// Set maximized state
    pub fn set_maximized(&mut self, maximized: bool)
        ensures
            *final(self) == (Window {
                state: WindowState { maximized, ..old(self).state },
                ..*old(self)
            }),
    {
        self.state.maximized = maximized;
    }

    /// Set fullscreen state
    pub fn set_fullscreen(&mut self, fullscreen: bool)
        ensures
            *final(self) == (Window {
                state: WindowState { fullscreen, ..old(self).state },
                ..*old(self)
            }),
    {
        self.state.fullscreen = fullscreen;
    }

    /// Set minimized state
    pub fn set_minimized(&mut self, minimized: bool)
        ensures
            *final(self) == (Window {
                state: WindowState { minimized, ..old(self).state },
                ..*old(self)
            }),
    {
        self.state.minimized = minimized;
    }

    /// Set focused state
    pub fn set_focused(&mut self, focused: bool)
        ensures
            *final(self) == (Window {
                state: WindowState { focused, ..old(self).state },
                ..*old(self)
            }),
    {
        self.state.focused = focused;
    }

    /// Set activated state
    pub fn set_activated(&mut self, activated: bool)
        ensures
            *final(self) == (Window {
                state: WindowState { activated, ..old(self).state },
                ..*old(self)
            }),
    {
        self.state.activated = activated;
    }
}

/// Manager for all windows
#[derive(Debug)]
pub struct WindowManager {
    windows: HashMap<u64, Window>,
    /// Map from surface ID to window ID
    surface_to_window: HashMap<u64, u64>,
    /// Currently focused window
    focused_window: Option<WindowId>,
    ids: IdRegistry,
}

impl WindowManager {
    /// The windows by the number of their identity.
    pub closed spec fn windows(&self) -> Map<u64, Window> {
        self.windows@
    }

    /// The window of each surface that has one, both by number.
    pub closed spec fn surface_index(&self) -> Map<u64, u64> {
        self.surface_to_window@
    }

    /// The window that was last given the focus.
    pub closed spec fn focused_id(&self) -> Option<WindowId> {
        self.focused_window
    }

    /// The registry that issues window identities.
    pub closed spec fn registry(&self) -> IdRegistry {
        self.ids
    }

    /// Every window is stored under its own identity, which the registry
    /// has issued; the index leads from a surface to a window of that
    /// surface; and no window but the focused one is marked as focused.
    pub open spec fn wf(&self) -> bool {
        &&& self.registry().wf()
        &&& forall|k: u64| #[trigger]
            self.windows().contains_key(k) ==> {
                &&& self.windows()[k].id.0 == k
                &&& self.registry().issued().contains(k)
                &&& self.windows()[k].state.focused ==> self.focused_id() == Some(WindowId(k))
            }
        &&& forall|s: u64| #[trigger]
            self.surface_index().contains_key(s) ==> {
                &&& self.windows().contains_key(self.surface_index()[s])
                &&& self.windows()[self.surface_index()[s]].surface_id.0 == s
            }
    }

    /// The windows after the focus has moved from `from` to `to`: the
    /// first loses its focus flags and the second gains them, each where
    /// such a window exists.
    pub open spec fn refocused(
        windows: Map<u64, Window>,
        from: Option<WindowId>,
        to: Option<WindowId>,
    ) -> Map<u64, Window> {
        let cleared = match from {
            Some(p) => if windows.contains_key(p.0) {
                windows.insert(p.0, windows[p.0].with_focus(false))
            } else {
                windows
            },
            None => windows,
        };
        match to {
            Some(n) => if cleared.contains_key(n.0) {
                cleared.insert(n.0, cleared[n.0].with_focus(true))
            } else {
                cleared
            },
            None => cleared,
        }
    }

    /// Create a new window manager
    pub fn new() -> (m: Self)
        ensures
            m.windows() == Map::<u64, Window>::empty(),
            m.surface_index() == Map::<u64, u64>::empty(),
            m.focused_id() is None,
            m.registry().next_id() == 1,
            m.wf(),
    {
        let m = WindowManager {
            windows: HashMap::new(),
            surface_to_window: HashMap::new(),
            focused_window: None,
            ids: IdRegistry::new(),
        };
        assert(m.windows() == Map::<u64, Window>::empty());
        assert(m.surface_index() == Map::<u64, u64>::empty());
        m
    }

    /// Whether another window can be created.
    pub fn has_room(&self) -> (b: bool)
        ensures
            b == self.registry().has_room(),
    {
        self.ids.can_allocate()
    }

    /// Create a new window for a surface
    pub fn create_window(&mut self, surface_id: SurfaceId) -> (id: WindowId)
        requires
            old(self).wf(),
            old(self).registry().has_room(),
        ensures
            id.0 == old(self).registry().next_id(),
            !old(self).windows().contains_key(id.0),
            final(self).windows() == old(self).windows().insert(
                id.0,
                Window::fresh(id, surface_id),
            ),
            final(self).surface_index() == old(self).surface_index().insert(surface_id.0, id.0),
            final(self).focused_id() == old(self).focused_id(),
            final(self).registry().next_id() == old(self).registry().next_id() + 1,
            final(self).wf(),
    {
        let window = Window::new(&mut self.ids, surface_id);
        let id = window.id;
        self.surface_to_window.insert(surface_id.0, id.0);
        self.windows.insert(id.0, window);
        assert(self.windows() == old(self).windows().insert(id.0, window));
        assert(self.surface_index() == old(self).surface_index().insert(surface_id.0, id.0));
        id
    }

    /// Get a window by ID
    pub fn get(&self, id: WindowId) -> (r: Option<&Window>)
        ensures
            match r {
                Some(w) => self.windows().contains_key(id.0) && *w == self.windows()[id.0],
                None => !self.windows().contains_key(id.0),
            },
    {
        self.windows.get(&id.0)
    }

    /// Get a mutable window by ID
    pub fn get_mut(&mut self, id: WindowId) -> (r: Option<&mut Window>)
        ensures
            final(self).surface_index() == old(self).surface_index(),
            final(self).focused_id() == old(self).focused_id(),
            final(self).registry() == old(self).registry(),
            match r {
                Some(w) => {
                    &&& old(self).windows().contains_key(id.0)
                    &&& *w == old(self).windows()[id.0]
                    &&& final(self).windows() == old(self).windows().insert(id.0, *final(w))
                },
                None => {
                    &&& !old(self).windows().contains_key(id.0)
                    &&& final(self).windows() == old(self).windows()
                },
            },
    {
        match self.windows.entry(id.0) {
            Entry::Occupied(e) => Some(e.into_mut()),
            Entry::Vacant(_) => None,
        }
    }

    /// The window that the index names for a surface, if the index names
    /// one and it exists.
    pub open spec fn by_surface(&self, surface_id: SurfaceId) -> Option<Window> {
        if self.surface_index().contains_key(surface_id.0) && self.windows().contains_key(
            self.surface_index()[surface_id.0],
        ) {
            Some(self.windows()[self.surface_index()[surface_id.0]])
        } else {
            None
        }
    }

    /// Get a window by surface ID
    pub fn get_by_surface(&self, surface_id: SurfaceId) -> (r: Option<&Window>)
        ensures
            match r {
                Some(w) => self.by_surface(surface_id) == Some(*w),
                None => self.by_surface(surface_id) is None,
            },
    {
        match self.surface_to_window.get(&surface_id.0) {
            Some(id) => self.windows.get(id),
            None => None,
        }
    }

    /// Get a mutable window by surface ID
    pub fn get_by_surface_mut(&mut self, surface_id: SurfaceId) -> (r: Option<&mut Window>)
        ensures
            final(self).surface_index() == old(self).surface_index(),
            final(self).focused_id() == old(self).focused_id(),
            final(self).registry() == old(self).registry(),
            match r {
                Some(w) => {
                    &&& old(self).by_surface(surface_id) == Some(*w)
                    &&& final(self).windows() == old(self).windows().insert(
                        old(self).surface_index()[surface_id.0],
                        *final(w),
                    )
                },
                None => {
                    &&& old(self).by_surface(surface_id) is None
                    &&& final(self).windows() == old(self).windows()
                },
            },
    {
        let id: u64 = match self.surface_to_window.get(&surface_id.0) {
            Some(id) => *id,
            None => {
                return None;
            },
        };
        match self.windows.entry(id) {
            Entry::Occupied(e) => Some(e.into_mut()),
            Entry::Vacant(_) => None,
        }
    }

    /// Get the window ID for a surface
    pub fn window_for_surface(&self, surface_id: SurfaceId) -> (r: Option<WindowId>)
        ensures
            match r {
                Some(id) => self.surface_index().contains_key(surface_id.0)
                    && self.surface_index()[surface_id.0] == id.0,
                None => !self.surface_index().contains_key(surface_id.0),
            },
    {
        match self.surface_to_window.get(&surface_id.0) {
            Some(id) => Some(WindowId(*id)),
            None => None,
        }
    }

    /// Remove a window: the window leaves, with the index entry of its
    /// surface; if it had the focus, no window has it afterwards.
    pub fn remove(&mut self, id: WindowId) -> (r: Option<Window>)
        requires
            old(self).wf(),
        ensures
            final(self).registry() == old(self).registry(),
            match r {
                Some(w) => {
                    &&& old(self).windows().contains_key(id.0)
                    &&& w == old(self).windows()[id.0]
                    &&& final(self).windows() == old(self).windows().remove(id.0)
                    &&& final(self).surface_index() == old(self).surface_index().remove(
                        w.surface_id.0,
                    )
                    &&& final(self).focused_id() == if old(self).focused_id() == Some(id) {
                        None
                    } else {
                        old(self).focused_id()
                    }
                },
                None => {
                    &&& !old(self).windows().contains_key(id.0)
                    &&& final(self).windows() == old(self).windows()
                    &&& final(self).surface_index() == old(self).surface_index()
                    &&& final(self).focused_id() == old(self).focused_id()
                },
            },
            final(self).wf(),
    {
        match self.windows.remove(&id.0) {
            Some(window) => {
                self.surface_to_window.remove(&window.surface_id.0);
                let was_focused = match self.focused_window {
                    Some(f) => f.0 == id.0,
                    None => false,
                };
                if was_focused {
                    self.focused_window = None;
                }
                assert(self.windows() == old(self).windows().remove(id.0));
                assert(self.surface_index() == old(self).surface_index().remove(
                    window.surface_id.0,
                ));
                Some(window)
            },
            None => {
                assert(self.windows() == old(self).windows());
                assert(self.surface_index() == old(self).surface_index());
                None
            },
        }
    }

    /// Set the focused window: the window that had the focus loses its
    /// focus flags, and the named window gains them.
    pub fn set_focused(&mut self, id: Option<WindowId>)
        requires
            old(self).wf(),
        ensures
            final(self).windows() == Self::refocused(
                old(self).windows(),
                old(self).focused_id(),
                id,
            ),
            final(self).focused_id() == id,
            final(self).surface_index() == old(self).surface_index(),
            final(self).registry() == old(self).registry(),
            final(self).wf(),
    {
        // Unfocus previous window
        match self.focused_window {
            Some(prev_id) => {
                match self.get_mut(prev_id) {
                    Some(window) => {
                        window.set_focused(false);
                        window.set_activated(false);
                    },
                    None => {},
                }
            },
            None => {},
        }
        let ghost cleared = self.windows();

        self.focused_window = id;

        // Focus new window
        match id {
            Some(new_id) => {
                match self.get_mut(new_id) {
                    Some(window) => {
                        window.set_focused(true);
                        window.set_activated(true);
                    },
                    None => {},
                }
            },
            None => {},
        }
        assert(self.windows() == Self::refocused(old(self).windows(), old(self).focused_id(), id));
    }

    /// The window that has the focus, if one has it and exists.
    pub open spec fn focused_window(&self) -> Option<Window> {
        match self.focused_id() {
            Some(id) => if self.windows().contains_key(id.0) {
                Some(self.windows()[id.0])
            } else {
                None
            },
            None => None,
        }
    }

    /// Get the currently focused window
    pub fn focused(&self) -> (r: Option<&Window>)
        ensures
            match r {
                Some(w) => self.focused_window() == Some(*w),
                None => self.focused_window() is None,
            },
    {
        match self.focused_window {
            Some(id) => self.windows.get(&id.0),
            None => None,
        }
    }

    /// Get all windows: the identities under which windows are stored,
    /// each once, in no particular order.
    pub fn iter(&self) -> (v: Vec<WindowId>)
        ensures
            v@.no_duplicates(),
            forall|k: u64| self.windows().contains_key(k) <==> v@.contains(WindowId(k)),
            v@.len() == self.windows().len(),
    {
        let mut v: Vec<WindowId> = Vec::new();
        let keys = self.windows.keys();
        let ghost ks: Seq<&u64> = keys.remaining();
        for k in it: keys
            invariant
                it.seq() == ks,
                v@.len() == it.index(),
                forall|j: int| 0 <= j < v@.len() ==> v@[j].0 == *ks[j],
        {
            v.push(WindowId(*k));
        }
        proof {
            assert(ks.unref().to_set() == self.windows@.dom());
            assert forall|k: u64| self.windows().contains_key(k) implies v@.contains(
                WindowId(k),
            ) by {
                assert(ks.unref().to_set().contains(k));
                let j = choose|j: int| 0 <= j < ks.unref().len() && ks.unref()[j] == k;
                assert(v@[j] == WindowId(k));
            }
            assert forall|k: u64| v@.contains(WindowId(k)) implies self.windows().contains_key(
                k,
            ) by {
                let j = choose|j: int| 0 <= j < v@.len() && v@[j] == WindowId(k);
                assert(ks.unref()[j] == k);
                assert(ks.unref().to_set().contains(k));
            }
            assert forall|i: int, j: int|
                0 <= i < v@.len() && 0 <= j < v@.len() && i != j implies v@[i] != v@[j] by {
                assert(ks[i] != ks[j]);
            }
        }
        v
    }

    /// Get count of windows
    pub fn len(&self) -> (n: usize)
        ensures
            n == self.windows().len(),
    {
        self.windows.len()
    }

    /// Check if empty
    pub fn is_empty(&self) -> (b: bool)
        ensures
            b == (self.windows().len() == 0),
    {
        self.windows.is_empty()
    }
}

impl Default for WindowManager {
    fn default() -> (m: Self)
        ensures
            m.windows() == Map::<u64, Window>::empty(),
            m.focused_id() is None,
            m.wf(),
    {
        WindowManager::new()
    }
}

} // verus!
