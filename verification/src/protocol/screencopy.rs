//! Screen capture: a client asks for a frame of an output, is told what
//! buffer the frame needs, hands one in, and is told when the copy is
//! done or has failed.

use std::collections::HashMap;
use std::collections::hash_map::Entry;
use vstd::prelude::*;
use crate::compositor::output::OutputId;
use crate::ids::IdRegistry;
use crate::protocol::shm::ShmBufferId;

verus! {

broadcast use vstd::std_specs::hash::group_hash_axioms;

/// Unique identifier for screencopy frames
#[derive(Debug, Clone, Copy, PartialEq, Eq, Hash, Structural)]
pub struct ScreencopyFrameId(pub u64);

impl ScreencopyFrameId {
    /// Takes the next unused identity from `ids`.
    pub fn new(ids: &mut IdRegistry) -> (id: Self)
        requires
            old(ids).wf(),
            old(ids).has_room(),
        ensures
            id.0 == old(ids).next_id(),
            !old(ids).issued().contains(id.0),
            final(ids).next_id() == old(ids).next_id() + 1,
            final(ids).wf(),
    {
        ScreencopyFrameId(ids.allocate())
    }
}

/// Frame capture flags, one bit per flag.
#[derive(Debug, Clone, Copy, PartialEq, Eq, Structural)]
pub struct FrameFlags(u32);

impl FrameFlags {
    /// Y-axis is inverted (origin at bottom-left)
    pub const Y_INVERT: u32 = 1;

    /// The flags as the wire carries them.
    pub closed spec fn mask(self) -> u32 {
        self.0
    }

    /// No flag.
    pub fn empty() -> (f: Self)
        ensures
            f.mask() == 0,
    {
        FrameFlags(0)
    }

    /// Keeps the bits that name a flag and drops the rest.
    pub fn from_bits_truncate(bits: u32) -> (f: Self)
        ensures
            f.mask() == bits & 1,
    {
        FrameFlags(bits & 1)
    }

    /// The flags as the wire carries them.
    pub fn bits(&self) -> (b: u32)
        ensures
            b == self.mask(),
    {
        self.0
    }

    /// Whether every flag of `other` is set.
    pub fn contains(&self, other: FrameFlags) -> (b: bool)
        ensures
            b == (self.mask() & other.mask() == other.mask()),
    {
        self.0 & other.0 == other.0
    }
}

impl Default for FrameFlags {
    fn default() -> (f: Self)
        ensures
            f.mask() == 0,
    {
        FrameFlags(0)
    }
}

/// Capture region
#[derive(Debug, Clone, Copy, PartialEq, Eq, Structural)]
pub struct CaptureRegion {
    pub x: i32,
    pub y: i32,
    pub width: i32,
    pub height: i32,
}

/// Buffer format information
#[derive(Debug, Clone, Copy, PartialEq, Eq, Structural)]
pub struct BufferInfo {
    /// Pixel format
    pub format: u32,
    /// Width in pixels
    pub width: u32,
    /// Height in pixels
    pub height: u32,
    /// Stride (bytes per row)
    pub stride: u32,
}

/// Frame capture state
#[derive(Debug, Clone, Copy, PartialEq, Eq, Structural)]
pub enum FrameState {
    /// Waiting for buffer info to be sent
    Pending,
    /// Buffer info sent, waiting for client buffer
    Ready,
    /// Copying frame data
    Copying,
    /// Frame copied successfully
    Done,
    /// Frame capture failed
    Failed,
}

impl Default for FrameState {
    fn default() -> (s: Self)
        ensures
            s == FrameState::Pending,
    {
        FrameState::Pending
    }
}

impl FrameState {
    /// Whether `next` is a step of a frame's life after `self`: from
    /// pending to ready, to copying, to done; and from any of the first
    /// three to failed.
    pub open spec fn precedes(self, next: FrameState) -> bool {
        match (self, next) {
            (FrameState::Pending, FrameState::Ready) => true,
            (FrameState::Ready, FrameState::Copying) => true,
            (FrameState::Copying, FrameState::Done) => true,
            (FrameState::Pending, FrameState::Failed) => true,
            (FrameState::Ready, FrameState::Failed) => true,
            (FrameState::Copying, FrameState::Failed) => true,
            _ => false,
        }
    }
}

/// Frame done info
#[derive(Debug, Clone, Copy, PartialEq, Eq, Structural)]
pub struct FrameDoneInfo {
    pub flags: FrameFlags,
    pub tv_sec: u32,
    pub tv_nsec: u32,
}

/// A screencopy frame request
#[derive(Debug, Clone, Copy, PartialEq, Eq, Structural)]
pub struct ScreencopyFrame {
    /// Unique identifier
    pub id: ScreencopyFrameId,
    /// Target output
    pub output: OutputId,
    /// Capture region (None = full output)
    pub region: Option<CaptureRegion>,
    /// Whether to overlay the cursor
    pub overlay_cursor: bool,
    /// Buffer format info (sent to client)
    pub buffer_info: Option<BufferInfo>,
    /// Buffer to copy into
    pub buffer: Option<ShmBufferId>,
    /// Frame state
    pub state: FrameState,
}

impl ScreencopyFrame {
    /// A frame request that was just made.
    pub open spec fn fresh(
        id: ScreencopyFrameId,
        output: OutputId,
        overlay_cursor: bool,
    ) -> ScreencopyFrame {
        ScreencopyFrame {
            id,
            output,
            region: None,
            overlay_cursor,
            buffer_info: None,
            buffer: None,
            state: FrameState::Pending,
        }
    }

    /// Create a new frame request
    pub fn new(ids: &mut IdRegistry, output: OutputId, overlay_cursor: bool) -> (frame: Self)
        requires
            old(ids).wf(),
            old(ids).has_room(),
        ensures
            frame == Self::fresh(ScreencopyFrameId(old(ids).next_id()), output, overlay_cursor),
            final(ids).next_id() == old(ids).next_id() + 1,
            final(ids).wf(),
    {
        ScreencopyFrame {
            id: ScreencopyFrameId::new(ids),
            output,
            region: None,
            overlay_cursor,
            buffer_info: None,
            buffer: None,
            state: FrameState::Pending,
        }
    }

    /// Set capture region
    pub fn set_region(&mut self, x: i32, y: i32, width: i32, height: i32)
        ensures
            *final(self) == (ScreencopyFrame {
                region: Some(CaptureRegion { x, y, width, height }),
                ..*old(self)
            }),
    {
        self.region = Some(CaptureRegion { x, y, width, height });
    }

    /// Set buffer info (called by compositor). The frame is ready for the
    /// client's buffer.
    pub fn set_buffer_info(&mut self, format: u32, width: u32, height: u32, stride: u32)
        ensures
            *final(self) == (ScreencopyFrame {
                buffer_info: Some(BufferInfo { format, width, height, stride }),
                state: FrameState::Ready,
                ..*old(self)
            }),
            old(self).state == FrameState::Pending ==> old(self).state.precedes(final(self).state),
    {
        self.buffer_info = Some(BufferInfo { format, width, height, stride });
        self.state = FrameState::Ready;
    }

    /// Copy frame to provided buffer
    pub fn copy(&mut self, buffer: ShmBufferId)
        ensures
            *final(self) == (ScreencopyFrame {
                buffer: Some(buffer),
                state: FrameState::Copying,
                ..*old(self)
            }),
            old(self).state == FrameState::Ready ==> old(self).state.precedes(final(self).state),
    {
        self.buffer = Some(buffer);
        self.state = FrameState::Copying;
    }

    /// Mark frame as done
    pub fn done(&mut self, flags: FrameFlags, tv_sec: u32, tv_nsec: u32) -> (info: FrameDoneInfo)
        ensures
            *final(self) == (ScreencopyFrame { state: FrameState::Done, ..*old(self) }),
            info == (FrameDoneInfo { flags, tv_sec, tv_nsec }),
            old(self).state == FrameState::Copying ==> old(self).state.precedes(final(self).state),
    {
        self.state = FrameState::Done;
        FrameDoneInfo { flags, tv_sec, tv_nsec }
    }

    /// Mark frame as failed
    pub fn fail(&mut self)
        ensures
            *final(self) == (ScreencopyFrame { state: FrameState::Failed, ..*old(self) }),
            old(self).state != FrameState::Done && old(self).state != FrameState::Failed ==> old(self).state.precedes(final(self).state),
    {
        self.state = FrameState::Failed;
    }
}

/// Handler for wlr-screencopy protocol
#[derive(Debug)]
pub struct ScreencopyHandler {
    frames: HashMap<u64, ScreencopyFrame>,
    ids: IdRegistry,
}

impl View for ScreencopyHandler {
    type V = Map<u64, ScreencopyFrame>;

    /// The frames by the number of their identity.
    closed spec fn view(&self) -> Map<u64, ScreencopyFrame> {
        self.frames@
    }
}

impl ScreencopyHandler {
    /// The registry that issues frame identities.
    pub closed spec fn registry(&self) -> IdRegistry {
        self.ids
    }

    /// Every frame is stored under its own identity, which the registry
    /// has issued.
    pub open spec fn wf(&self) -> bool {
        &&& self.registry().wf()
        &&& forall|k: u64| #[trigger]
            self@.contains_key(k) ==> self@[k].id.0 == k && self.registry().issued().contains(k)
    }

    /// Create a new screencopy handler
    pub fn new() -> (h: Self)
        ensures
            h@ == Map::<u64, ScreencopyFrame>::empty(),
            h.registry().next_id() == 1,
            h.wf(),
    {
        ScreencopyHandler { frames: HashMap::new(), ids: IdRegistry::new() }
    }

    /// Whether another frame can be requested.
    pub fn has_room(&self) -> (b: bool)
        ensures
            b == self.registry().has_room(),
    {
        self.ids.can_allocate()
    }

    /// Capture an output
    pub fn capture_output(&mut self, output: OutputId, overlay_cursor: bool) -> (id:
        ScreencopyFrameId)
        requires
            old(self).wf(),
            old(self).registry().has_room(),
        ensures
            id.0 == old(self).registry().next_id(),
            !old(self)@.contains_key(id.0),
            final(self)@ == old(self)@.insert(
                id.0,
                ScreencopyFrame::fresh(id, output, overlay_cursor),
            ),
            final(self).registry().next_id() == old(self).registry().next_id() + 1,
            final(self).wf(),
    {
        let frame = ScreencopyFrame::new(&mut self.ids, output, overlay_cursor);
        let id = frame.id;
        self.frames.insert(id.0, frame);
        id
    }

    /// Capture a region of an output
    pub fn capture_output_region(
        &mut self,
        output: OutputId,
        x: i32,
        y: i32,
        width: i32,
        height: i32,
        overlay_cursor: bool,
    ) -> (id: ScreencopyFrameId)
        requires
            old(self).wf(),
            old(self).registry().has_room(),
        ensures
            id.0 == old(self).registry().next_id(),
            !old(self)@.contains_key(id.0),
            final(self)@ == old(self)@.insert(
                id.0,
                ScreencopyFrame {
                    region: Some(CaptureRegion { x, y, width, height }),
                    ..ScreencopyFrame::fresh(id, output, overlay_cursor)
                },
            ),
            final(self).registry().next_id() == old(self).registry().next_id() + 1,
            final(self).wf(),
    {
        let mut frame = ScreencopyFrame::new(&mut self.ids, output, overlay_cursor);
        frame.set_region(x, y, width, height);
        let id = frame.id;
        self.frames.insert(id.0, frame);
        id
    }

    /// Get a frame
    pub fn get(&self, id: ScreencopyFrameId) -> (r: Option<&ScreencopyFrame>)
        ensures
            match r {
                Some(f) => self@.contains_key(id.0) && *f == self@[id.0],
                None => !self@.contains_key(id.0),
            },
    {
        self.frames.get(&id.0)
    }

    /// Get a mutable frame
    pub fn get_mut(&mut self, id: ScreencopyFrameId) -> (r: Option<&mut ScreencopyFrame>)
        ensures
            final(self).registry() == old(self).registry(),
            match r {
                Some(f) => old(self)@.contains_key(id.0) && *f == old(self)@[id.0] && final(self)@
                    == old(self)@.insert(id.0, *final(f)),
                None => !old(self)@.contains_key(id.0) && final(self)@ == old(self)@,
            },
    {
        match self.frames.entry(id.0) {
            Entry::Occupied(e) => Some(e.into_mut()),
            Entry::Vacant(_) => None,
        }
    }

    /// Destroy a frame
    pub fn destroy(&mut self, id: ScreencopyFrameId)
        ensures
            final(self)@ == old(self)@.remove(id.0),
            final(self).registry() == old(self).registry(),
            old(self).wf() ==> final(self).wf(),
    {
        self.frames.remove(&id.0);
    }

    /// Get count of pending frames
    pub fn len(&self) -> (n: usize)
        ensures
            n == self@.len(),
    {
        self.frames.len()
    }

    /// Check if empty
    pub fn is_empty(&self) -> (b: bool)
        ensures
            b == (self@.len() == 0),
    {
        self.frames.is_empty()
    }
}

impl Default for ScreencopyHandler {
    fn default() -> (h: Self)
        ensures
            h@ == Map::<u64, ScreencopyFrame>::empty(),
            h.wf(),
    {
        ScreencopyHandler::new()
    }
}

} // verus!
