//! Surfaces and their double-buffered state.
//!
//! Every request that changes a surface writes to its *pending* state.
//! `commit` moves the pending state into the *current* state in one step
//! and leaves the pending state cleared.

use std::collections::HashMap;
use std::collections::hash_map::Entry;
use vstd::prelude::*;
use vstd::std_specs::iter::IteratorSpec;
use crate::ids::IdRegistry;
use crate::protocol::shm::ShmBufferId;

verus! {

broadcast use vstd::std_specs::hash::group_hash_axioms;

/// Unique identifier for surfaces
#[derive(Debug, Clone, Copy, PartialEq, Eq, Hash, Structural)]
pub struct SurfaceId(pub u64);

impl SurfaceId {
    /// Takes the next unused identity from `ids`.
    pub fn new(ids: &mut IdRegistry) -> (id: Self)
        requires
            old(ids).wf(),
            old(ids).has_room(),
        ensures
            id.0 == old(ids).next_id(),
            !old(ids).issued().contains(id.0),
            final(ids).next_id() == old(ids).next_id() + 1,
            final(ids).wf(),
    {
        SurfaceId(ids.allocate())
    }
}

/// A damage region on a surface
#[derive(Debug, Clone, Copy, PartialEq, Eq, Structural)]
pub struct DamageRect {
    pub x: i32,
    pub y: i32,
    pub width: i32,
    pub height: i32,
}

/// Buffer information attached to a surface
#[derive(Debug, Clone, Copy, PartialEq, Eq, Structural)]
pub struct BufferInfo {
    /// The shared-memory buffer that holds the pixels
    pub id: ShmBufferId,
    /// Width in pixels
    pub width: u32,
    /// Height in pixels
    pub height: u32,
    /// Stride (bytes per row)
    pub stride: u32,
    /// Pixel format
    pub format: u32,
    /// Offset into the shared memory pool
    pub offset: u32,
}

/// Surface role determines how the surface is used
#[derive(Debug, Clone, Copy, PartialEq, Eq, Structural)]
pub enum SurfaceRole {
    /// No role assigned yet
    Unassigned,
    /// XDG toplevel window
    XdgToplevel,
    /// XDG popup
    XdgPopup,
    /// Subsurface
    Subsurface,
    /// Cursor surface
    Cursor,
    /// Layer shell surface
    LayerSurface,
}

impl Default for SurfaceRole {
    fn default() -> (r: Self)
        ensures
            r == SurfaceRole::Unassigned,
    {
        SurfaceRole::Unassigned
    }
}

/// Pending state for a surface (not yet committed)
#[derive(Debug)]
pub struct SurfacePendingState {
    /// Pending buffer attachment
    pub buffer: Option<BufferInfo>,
    /// Whether `attach` was called since the last commit, with a buffer or
    /// without one
    pub buffer_touched: bool,
    /// Accumulated damage regions
    pub damage: Vec<DamageRect>,
    /// Buffer transform; 0 when none was set since the last commit
    pub transform: i32,
    /// Buffer scale factor; 0 when none was set since the last commit
    pub scale: i32,
    /// Frame callbacks to be fired
    pub frame_callbacks: Vec<u32>,
}

/// The pending state as a mathematical value.
pub struct PendingView {
    pub buffer: Option<BufferInfo>,
    pub buffer_touched: bool,
    pub damage: Seq<DamageRect>,
    pub transform: i32,
    pub scale: i32,
    pub frame_callbacks: Seq<u32>,
}

impl PendingView {
    /// The pending state right after a commit: nothing attached, nothing
    /// damaged, nothing set, no callback waiting.
    pub open spec fn cleared() -> PendingView {
        PendingView {
            buffer: None,
            buffer_touched: false,
            damage: Seq::empty(),
            transform: 0,
            scale: 0,
            frame_callbacks: Seq::empty(),
        }
    }
}

impl View for SurfacePendingState {
    type V = PendingView;

    open spec fn view(&self) -> PendingView {
        PendingView {
            buffer: self.buffer,
            buffer_touched: self.buffer_touched,
            damage: self.damage@,
            transform: self.transform,
            scale: self.scale,
            frame_callbacks: self.frame_callbacks@,
        }
    }
}

impl Default for SurfacePendingState {
    fn default() -> (p: Self)
        ensures
            p@ == PendingView::cleared(),
    {
        SurfacePendingState {
            buffer: None,
            buffer_touched: false,
            damage: Vec::new(),
            transform: 0,
            scale: 0,
            frame_callbacks: Vec::new(),
        }
    }
}

/// A Wayland surface
#[derive(Debug)]
pub struct Surface {
    /// Unique identifier
    pub id: SurfaceId,
    /// Current buffer info
    pub buffer: Option<BufferInfo>,
    /// Damage committed since it was last taken
    pub damage: Vec<DamageRect>,
    /// Buffer transform
    pub transform: i32,
    /// Buffer scale factor (default 1)
    pub scale: i32,
    /// Pending state (not yet committed)
    pub pending: SurfacePendingState,
    /// Frame callbacks that were committed and wait to be fired
    pub ready_callbacks: Vec<u32>,
    /// Role-specific data (e.g., xdg_surface role)
    pub role: SurfaceRole,
    /// Parent surface (for subsurfaces)
    pub parent: Option<SurfaceId>,
    /// Child subsurfaces
    pub children: Vec<SurfaceId>,
}

/// A surface as a mathematical value.
pub struct SurfaceView {
    pub id: SurfaceId,
    pub buffer: Option<BufferInfo>,
    pub damage: Seq<DamageRect>,
    pub transform: i32,
    pub scale: i32,
    pub pending: PendingView,
    pub ready_callbacks: Seq<u32>,
    pub role: SurfaceRole,
    pub parent: Option<SurfaceId>,
    pub children: Seq<SurfaceId>,
}

impl SurfaceView {
    /// A surface that was just created.
    pub open spec fn fresh(id: SurfaceId) -> SurfaceView {
        SurfaceView {
            id,
            buffer: None,
            damage: Seq::empty(),
            transform: 0,
            scale: 1,
            pending: PendingView::cleared(),
            ready_callbacks: Seq::empty(),
            role: SurfaceRole::Unassigned,
            parent: None,
            children: Seq::empty(),
        }
    }

    /// The current scale is at least 1 and the current transform is one of
    /// the eight that the protocol defines; the pending ones are either
    /// unset or would keep that so.
    pub open spec fn wf(self) -> bool {
        &&& self.scale >= 1
        &&& 0 <= self.transform <= 7
        &&& self.pending.scale >= 0
        &&& 0 <= self.pending.transform <= 7
    }

    /// The surface after a buffer, or none, was attached.
    pub open spec fn attach(self, buffer: Option<BufferInfo>) -> SurfaceView {
        SurfaceView {
            pending: PendingView { buffer, buffer_touched: true, ..self.pending },
            ..self
        }
    }

    /// The surface after a rectangle was damaged.
    pub open spec fn add_damage(self, rect: DamageRect) -> SurfaceView {
        SurfaceView {
            pending: PendingView { damage: self.pending.damage.push(rect), ..self.pending },
            ..self
        }
    }

    /// The surface after a frame callback was asked for.
    pub open spec fn frame(self, callback_id: u32) -> SurfaceView {
        SurfaceView {
            pending: PendingView {
                frame_callbacks: self.pending.frame_callbacks.push(callback_id),
                ..self.pending
            },
            ..self
        }
    }

    /// The surface after a buffer scale was set.
    pub open spec fn set_scale(self, scale: i32) -> SurfaceView {
        SurfaceView { pending: PendingView { scale, ..self.pending }, ..self }
    }

    /// The surface after a buffer transform was set.
    pub open spec fn set_transform(self, transform: i32) -> SurfaceView {
        SurfaceView { pending: PendingView { transform, ..self.pending }, ..self }
    }

    /// The surface after a commit: a touched attachment replaces the
    /// current buffer, pending damage is added to the current damage, a
    /// pending scale or transform that was set replaces the current one,
    /// the pending frame callbacks join the ready ones, and the pending
    /// state is cleared.
    pub open spec fn commit(self) -> SurfaceView {
        SurfaceView {
            buffer: if self.pending.buffer_touched {
                self.pending.buffer
            } else {
                self.buffer
            },
            damage: self.damage + self.pending.damage,
            transform: if self.pending.transform != 0 {
                self.pending.transform
            } else {
                self.transform
            },
            scale: if self.pending.scale != 0 {
                self.pending.scale
            } else {
                self.scale
            },
            ready_callbacks: self.ready_callbacks + self.pending.frame_callbacks,
            pending: PendingView::cleared(),
            ..self
        }
    }

    /// The buffer that a commit takes out of use on this surface: the
    /// current one, where an attachment was made and names another buffer
    /// or none.
    pub open spec fn replaced_by_commit(self) -> Option<BufferInfo> {
        match self.buffer {
            Some(current) => if self.pending.buffer_touched && (match self.pending.buffer {
                Some(next) => next.id != current.id,
                None => true,
            }) {
                Some(current)
            } else {
                None
            },
            None => None,
        }
    }

    /// Whether `role` may be assigned: the surface has none yet, or has
    /// this very role.
    pub open spec fn accepts_role(self, role: SurfaceRole) -> bool {
        self.role == SurfaceRole::Unassigned || self.role == role
    }

    /// The surface with the role `role`.
    pub open spec fn set_role(self, role: SurfaceRole) -> SurfaceView {
        SurfaceView { role, ..self }
    }
}

/// After a commit the pending state is cleared: nothing is attached,
/// damaged or set, and no callback waits. The frame callbacks that
/// waited have joined the ready ones, behind those that were ready
/// before.
pub proof fn lemma_commit_clears_pending(surface: SurfaceView)
    ensures
        surface.commit().pending == PendingView::cleared(),
        surface.commit().ready_callbacks == surface.ready_callbacks
            + surface.pending.frame_callbacks,
        surface.commit().commit().ready_callbacks == surface.commit().ready_callbacks,
        surface.commit().commit().buffer == surface.commit().buffer,
{
    assert(surface.commit().ready_callbacks + Seq::<u32>::empty()
        == surface.commit().ready_callbacks);
}

/// A role is for good: a surface that has a role keeps it through every
/// assignment that is accepted, and every other assignment is refused.
pub proof fn lemma_role_is_settled(surface: SurfaceView, role: SurfaceRole)
    requires
        surface.role != SurfaceRole::Unassigned,
    ensures
        surface.accepts_role(role) <==> role == surface.role,
        surface.accepts_role(role) ==> surface.set_role(role) == surface,
{
}

/// A buffer that is attached and committed, and then detached and
/// committed, is current after the first commit and is taken out of use
/// by the second, once: after the second commit the surface has no
/// buffer, and a further commit takes none out of use.
pub proof fn lemma_attach_commit_detach_commit(surface: SurfaceView, buffer: BufferInfo)
    ensures
        ({
            let shown = surface.attach(Some(buffer)).commit();
            let detached = shown.attach(None);
            &&& shown.buffer == Some(buffer)
            &&& detached.replaced_by_commit() == Some(buffer)
            &&& detached.commit().buffer is None
            &&& detached.commit().replaced_by_commit() is None
        }),
{
}

impl View for Surface {
    type V = SurfaceView;

    open spec fn view(&self) -> SurfaceView {
        SurfaceView {
            id: self.id,
            buffer: self.buffer,
            damage: self.damage@,
            transform: self.transform,
            scale: self.scale,
            pending: self.pending@,
            ready_callbacks: self.ready_callbacks@,
            role: self.role,
            parent: self.parent,
            children: self.children@,
        }
    }
}

impl Surface {
    /// Create a new surface
    pub fn new(ids: &mut IdRegistry) -> (s: Self)
        requires
            old(ids).wf(),
            old(ids).has_room(),
        ensures
            s@ == SurfaceView::fresh(SurfaceId(old(ids).next_id())),
            s@.wf(),
            final(ids).next_id() == old(ids).next_id() + 1,
            final(ids).wf(),
    {
        Surface {
            id: SurfaceId::new(ids),
            buffer: None,
            damage: Vec::new(),
            transform: 0,
            scale: 1,
            pending: SurfacePendingState::default(),
            ready_callbacks: Vec::new(),
            role: SurfaceRole::Unassigned,
            parent: None,
            children: Vec::new(),
        }
    }

    /// Attach a buffer to the pending state
    pub fn attach(&mut self, buffer: Option<BufferInfo>)
        ensures
            final(self)@ == old(self)@.attach(buffer),
            old(self)@.wf() ==> final(self)@.wf(),
    {
        self.pending.buffer = buffer;
        self.pending.buffer_touched = true;
    }

    /// Add damage to the pending state
    pub fn damage(&mut self, x: i32, y: i32, width: i32, height: i32)
        ensures
            final(self)@ == old(self)@.add_damage(DamageRect { x, y, width, height }),
            old(self)@.wf() ==> final(self)@.wf(),
    {
        self.pending.damage.push(DamageRect { x, y, width, height });
    }

    /// Add a frame callback
    pub fn frame(&mut self, callback_id: u32)
        ensures
            final(self)@ == old(self)@.frame(callback_id),
            old(self)@.wf() ==> final(self)@.wf(),
    {
        self.pending.frame_callbacks.push(callback_id);
    }

    /// Set the buffer scale
    pub fn set_scale(&mut self, scale: i32)
        ensures
            final(self)@ == old(self)@.set_scale(scale),
            old(self)@.wf() && scale >= 0 ==> final(self)@.wf(),
    {
        self.pending.scale = scale;
    }

    /// Set the buffer transform
    pub fn set_transform(&mut self, transform: i32)
        ensures
            final(self)@ == old(self)@.set_transform(transform),
            old(self)@.wf() && 0 <= transform <= 7 ==> final(self)@.wf(),
    {
        self.pending.transform = transform;
    }

    /// Commit pending state to current state. Returns the buffer that is
    /// no longer current on this surface, if the commit replaced one.
    pub fn commit(&mut self) -> (replaced: Option<BufferInfo>)
        ensures
            final(self)@ == old(self)@.commit(),
            replaced == old(self)@.replaced_by_commit(),
            old(self)@.wf() ==> final(self)@.wf(),
    {
        let mut replaced: Option<BufferInfo> = None;
        let next = self.pending.buffer.take();
        if self.pending.buffer_touched {
            match self.buffer {
                Some(current) => {
                    let same = match next {
                        Some(n) => n.id.0 == current.id.0,
                        None => false,
                    };
                    if !same {
                        replaced = Some(current);
                    }
                },
                None => {},
            }
            self.buffer = next;
            self.pending.buffer_touched = false;
        }
        self.damage.append(&mut self.pending.damage);
        if self.pending.scale != 0 {
            self.scale = self.pending.scale;
            self.pending.scale = 0;
        }
        if self.pending.transform != 0 {
            self.transform = self.pending.transform;
            self.pending.transform = 0;
        }
        self.ready_callbacks.append(&mut self.pending.frame_callbacks);
        assert(self@ =~= old(self)@.commit());
        replaced
    }

    /// Hands over the damage committed so far and leaves none behind.
    pub fn take_damage(&mut self) -> (damage: Vec<DamageRect>)
        ensures
            damage@ == old(self)@.damage,
            final(self)@ == (SurfaceView { damage: Seq::empty(), ..old(self)@ }),
    {
        let mut damage: Vec<DamageRect> = Vec::new();
        damage.append(&mut self.damage);
        damage
    }

    /// Hands over the committed frame callbacks, in the order in which
    /// they were requested, and leaves none behind.
    pub fn take_ready_callbacks(&mut self) -> (callbacks: Vec<u32>)
        ensures
            callbacks@ == old(self)@.ready_callbacks,
            final(self)@ == (SurfaceView { ready_callbacks: Seq::empty(), ..old(self)@ }),
    {
        let mut callbacks: Vec<u32> = Vec::new();
        callbacks.append(&mut self.ready_callbacks);
        callbacks
    }

    /// Set the surface role
    pub fn set_role(&mut self, role: SurfaceRole) -> (r: Result<(), &'static str>)
        ensures
            r is Ok <==> old(self)@.accepts_role(role),
            r is Ok ==> final(self)@ == old(self)@.set_role(role),
            r is Err ==> final(self)@ == old(self)@,
    {
        if self.role != SurfaceRole::Unassigned && self.role != role {
            return Err("Surface already has a different role");
        }
        self.role = role;
        Ok(())
    }
}

/// Manager for all surfaces
#[derive(Debug)]
pub struct SurfaceManager {
    surfaces: HashMap<u64, Surface>,
    ids: IdRegistry,
}

impl View for SurfaceManager {
    type V = Map<u64, Surface>;

    /// The surfaces by the number of their identity.
    closed spec fn view(&self) -> Map<u64, Surface> {
        self.surfaces@
    }
}

impl SurfaceManager {
    /// The registry that issues this manager's identities.
    pub closed spec fn registry(&self) -> IdRegistry {
        self.ids
    }

    /// Every surface is stored under its own identity, which the registry
    /// has issued.
    pub open spec fn wf(&self) -> bool {
        &&& self.registry().wf()
        &&& self@.dom().finite()
        &&& forall|k: u64| #[trigger]
            self@.contains_key(k) ==> self@[k].id.0 == k && self.registry().issued().contains(k)
    }

    /// Create a new surface manager
    pub fn new() -> (m: Self)
        ensures
            m.wf(),
            m@ == Map::<u64, Surface>::empty(),
            m.registry().next_id() == 1,
    {
        SurfaceManager { surfaces: HashMap::new(), ids: IdRegistry::new() }
    }

    /// Whether another surface can be created.
    pub fn has_room(&self) -> (b: bool)
        ensures
            b == self.registry().has_room(),
    {
        self.ids.can_allocate()
    }

    /// Create a new surface and return its ID
    pub fn create_surface(&mut self) -> (id: SurfaceId)
        requires
            old(self).wf(),
            old(self).registry().has_room(),
        ensures
            final(self).wf(),
            id.0 == old(self).registry().next_id(),
            !old(self)@.contains_key(id.0),
            final(self)@.dom() == old(self)@.dom().insert(id.0),
            final(self)@[id.0]@ == SurfaceView::fresh(id),
            forall|k: u64| old(self)@.contains_key(k) ==> final(self)@[k] == old(self)@[k],
            final(self).registry().next_id() == old(self).registry().next_id() + 1,
    {
        let surface = Surface::new(&mut self.ids);
        let id = surface.id;
        self.surfaces.insert(id.0, surface);
        id
    }

    /// Get a surface by ID
    pub fn get(&self, id: SurfaceId) -> (r: Option<&Surface>)
        ensures
            match r {
                Some(s) => self@.contains_key(id.0) && *s == self@[id.0],
                None => !self@.contains_key(id.0),
            },
    {
        self.surfaces.get(&id.0)
    }

    /// Get a mutable surface by ID
    pub fn get_mut(&mut self, id: SurfaceId) -> (r: Option<&mut Surface>)
        ensures
            final(self).registry() == old(self).registry(),
            match r {
                Some(s) => old(self)@.contains_key(id.0) && *s == old(self)@[id.0] && final(self)@
                    == old(self)@.insert(id.0, *final(s)),
                None => !old(self)@.contains_key(id.0) && final(self)@ == old(self)@,
            },
    {
        match self.surfaces.entry(id.0) {
            Entry::Occupied(e) => Some(e.into_mut()),
            Entry::Vacant(_) => None,
        }
    }

    /// Remove a surface
    pub fn remove(&mut self, id: SurfaceId) -> (r: Option<Surface>)
        ensures
            final(self).registry() == old(self).registry(),
            final(self)@ == old(self)@.remove(id.0),
            old(self).wf() ==> final(self).wf(),
            match r {
                Some(s) => old(self)@.contains_key(id.0) && s == old(self)@[id.0],
                None => !old(self)@.contains_key(id.0),
            },
    {
        self.surfaces.remove(&id.0)
    }

    /// Get all surfaces: the identities under which surfaces are stored,
    /// each once, in no particular order.
    pub fn iter(&self) -> (v: Vec<SurfaceId>)
        ensures
            v@.no_duplicates(),
            forall|k: u64| self@.contains_key(k) <==> v@.contains(SurfaceId(k)),
            v@.len() == self@.len(),
    {
        let mut v: Vec<SurfaceId> = Vec::new();
        let keys = self.surfaces.keys();
        let ghost ks: Seq<&u64> = keys.remaining();
        for k in it: keys
            invariant
                it.seq() == ks,
                v@.len() == it.index(),
                forall|j: int| 0 <= j < v@.len() ==> v@[j].0 == *ks[j],
        {
            v.push(SurfaceId(*k));
        }
        proof {
            assert(ks.unref().to_set() == self.surfaces@.dom());
            assert forall|k: u64| self@.contains_key(k) implies v@.contains(SurfaceId(k)) by {
                assert(ks.unref().to_set().contains(k));
                let j = choose|j: int| 0 <= j < ks.unref().len() && ks.unref()[j] == k;
                assert(v@[j] == SurfaceId(k));
            }
            assert forall|k: u64| v@.contains(SurfaceId(k)) implies self@.contains_key(k) by {
                let j = choose|j: int| 0 <= j < v@.len() && v@[j] == SurfaceId(k);
                assert(ks.unref()[j] == k);
                assert(ks.unref().to_set().contains(k));
            }
            assert forall|i: int, j: int|
                0 <= i < v@.len() && 0 <= j < v@.len() && i != j implies v@[i] != v@[j] by {
                assert(ks[i] != ks[j]);
            }
        }
        v
    }

    /// Whether some surface shows `buffer`: has it as its current buffer.
    pub open spec fn shows(&self, buffer: ShmBufferId) -> bool {
        exists|k: u64| self.shows_on(k, buffer)
    }

    /// Whether the surface with the number `k` shows `buffer`.
    pub open spec fn shows_on(&self, k: u64, buffer: ShmBufferId) -> bool {
        self@.contains_key(k) && (self@[k].buffer matches Some(b) && b.id == buffer)
    }

    /// Whether some surface has `buffer` as its current buffer.
    pub fn buffer_in_use(&self, buffer: ShmBufferId) -> (used: bool)
        ensures
            used == self.shows(buffer),
    {
        let ids = self.iter();
        let mut i: usize = 0;
        while i < ids.len()
            invariant
                i <= ids@.len(),
                forall|k: u64| self@.contains_key(k) <==> ids@.contains(SurfaceId(k)),
                forall|j: int| 0 <= j < i ==> !self.shows_on(ids@[j].0, buffer),
            decreases ids@.len() - i,
        {
            assert(ids@.contains(ids@[i as int]));
            let used = match self.surfaces.get(&ids[i].0) {
                Some(surface) => match surface.buffer {
                    Some(b) => b.id.0 == buffer.0,
                    None => false,
                },
                None => false,
            };
            if used {
                assert(self.shows_on(ids@[i as int].0, buffer));
                return true;
            }
            i = i + 1;
        }
        proof {
            assert forall|k: u64| !self.shows_on(k, buffer) by {
                if self@.contains_key(k) {
                    let j = choose|j: int| 0 <= j < ids@.len() && ids@[j] == SurfaceId(k);
                    assert(!self.shows_on(ids@[j].0, buffer));
                }
            }
        }
        false
    }

    /// Get count of surfaces
    pub fn len(&self) -> (n: usize)
        ensures
            n == self@.len(),
    {
        self.surfaces.len()
    }

    /// Check if empty
    pub fn is_empty(&self) -> (b: bool)
        ensures
            b == (self@.len() == 0),
    {
        self.surfaces.is_empty()
    }
}

impl Default for SurfaceManager {
    fn default() -> (m: Self)
        ensures
            m.wf(),
            m@ == Map::<u64, Surface>::empty(),
    {
        SurfaceManager::new()
    }
}

} // verus!
