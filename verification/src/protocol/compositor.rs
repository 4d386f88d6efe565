//! The compositor global: it creates surfaces and regions.

use vstd::prelude::*;
use crate::compositor::state::CompositorState;
use crate::compositor::surface::{SurfaceId, SurfaceView};

verus! {

/// Handler for wl_compositor protocol
#[derive(Debug)]
pub struct WlCompositorHandler;

impl WlCompositorHandler {
    /// Create a new compositor handler
    pub fn new() -> Self {
        WlCompositorHandler
    }

    /// Create a new surface
    pub fn create_surface(&self, state: &mut CompositorState) -> (id: SurfaceId)
        requires
            old(state).wf(),
            old(state).surfaces.registry().has_room(),
        ensures
            id.0 == old(state).surfaces.registry().next_id(),
            !old(state).surfaces@.contains_key(id.0),
            final(state).surfaces@.dom() == old(state).surfaces@.dom().insert(id.0),
            final(state).surfaces@[id.0]@ == SurfaceView::fresh(id),
            forall|k: u64|
                old(state).surfaces@.contains_key(k) ==> final(state).surfaces@[k] == old(state).surfaces@[k],
            *final(state) == (CompositorState { surfaces: final(state).surfaces, ..*old(state) }),
            final(state).wf(),
    {
        state.surfaces.create_surface()
    }

    /// Create a new region (for input/opaque regions)
    pub fn create_region(&self) -> (r: Region)
        ensures
            r@ == Seq::<RegionRect>::empty(),
    {
        Region::new()
    }
}

impl Default for WlCompositorHandler {
    fn default() -> Self {
        WlCompositorHandler
    }
}

/// A rectangle operation in a region
#[derive(Debug, Clone, Copy, PartialEq, Eq, Structural)]
pub struct RegionRect {
    pub x: i32,
    pub y: i32,
    pub width: i32,
    pub height: i32,
    /// true = add, false = subtract
    pub add: bool,
}

impl RegionRect {
    /// Whether the point lies in the rectangle. The right and the lower
    /// edge are outside.
    pub open spec fn holds(self, px: i32, py: i32) -> bool {
        &&& self.x <= px < self.x + self.width
        &&& self.y <= py < self.y + self.height
    }
}

/// A region for defining input or opaque areas
#[derive(Debug)]
pub struct Region {
    /// List of rectangles that make up the region
    rects: Vec<RegionRect>,
}

impl View for Region {
    type V = Seq<RegionRect>;

    /// The rectangles that were added and subtracted, in that order.
    closed spec fn view(&self) -> Seq<RegionRect> {
        self.rects@
    }
}

/// Whether a point belongs to the region that a list of operations
/// builds: the last rectangle that holds the point decides, and a point
/// that none holds is outside.
pub open spec fn covers(ops: Seq<RegionRect>, px: i32, py: i32) -> bool
    decreases ops.len(),
{
    if ops.len() == 0 {
        false
    } else if ops.last().holds(px, py) {
        ops.last().add
    } else {
        covers(ops.drop_last(), px, py)
    }
}

/// Adding a rectangle adds its points and keeps the others as they were.
pub proof fn lemma_add_covers(ops: Seq<RegionRect>, rect: RegionRect, px: i32, py: i32)
    requires
        rect.add,
    ensures
        covers(ops.push(rect), px, py) == (rect.holds(px, py) || covers(ops, px, py)),
{
    assert(ops.push(rect).drop_last() == ops);
}

/// Subtracting a rectangle removes its points and keeps the others as
/// they were.
pub proof fn lemma_subtract_covers(ops: Seq<RegionRect>, rect: RegionRect, px: i32, py: i32)
    requires
        !rect.add,
    ensures
        covers(ops.push(rect), px, py) == (!rect.holds(px, py) && covers(ops, px, py)),
{
    assert(ops.push(rect).drop_last() == ops);
}

impl Region {
    /// Create a new empty region
    pub fn new() -> (r: Self)
        ensures
            r@ == Seq::<RegionRect>::empty(),
    {
        Region { rects: Vec::new() }
    }

    /// Add a rectangle to the region
    pub fn add(&mut self, x: i32, y: i32, width: i32, height: i32)
        ensures
            final(self)@ == old(self)@.push(RegionRect { x, y, width, height, add: true }),
            forall|px: i32, py: i32|
                #![trigger covers(final(self)@, px, py)]
                covers(final(self)@, px, py) == ((RegionRect {
                    x,
                    y,
                    width,
                    height,
                    add: true,
                }).holds(px, py) || covers(old(self)@, px, py)),
    {
        let rect = RegionRect { x, y, width, height, add: true };
        self.rects.push(rect);
        proof {
            assert forall|px: i32, py: i32| #![trigger covers(self@, px, py)]
                covers(self@, px, py) == (rect.holds(px, py) || covers(old(self)@, px, py)) by {
                lemma_add_covers(old(self)@, rect, px, py);
            }
        }
    }

    /// Subtract a rectangle from the region
    pub fn subtract(&mut self, x: i32, y: i32, width: i32, height: i32)
        ensures
            final(self)@ == old(self)@.push(RegionRect { x, y, width, height, add: false }),
            forall|px: i32, py: i32|
                #![trigger covers(final(self)@, px, py)]
                covers(final(self)@, px, py) == (!(RegionRect {
                    x,
                    y,
                    width,
                    height,
                    add: false,
                }).holds(px, py) && covers(old(self)@, px, py)),
    {
        let rect = RegionRect { x, y, width, height, add: false };
        self.rects.push(rect);
        proof {
            assert forall|px: i32, py: i32| #![trigger covers(self@, px, py)]
                covers(self@, px, py) == (!rect.holds(px, py) && covers(old(self)@, px, py)) by {
                lemma_subtract_covers(old(self)@, rect, px, py);
            }
        }
    }

    /// Check if a point is inside the region
    pub fn contains(&self, px: i32, py: i32) -> (inside: bool)
        ensures
            inside == covers(self@, px, py),
    {
        let mut inside = false;
        let mut i: usize = 0;
        while i < self.rects.len()
            invariant
                i <= self.rects@.len(),
                inside == covers(self.rects@.take(i as int), px, py),
            decreases self.rects@.len() - i,
        {
            let rect = &self.rects[i];
            let in_rect = px as i64 >= rect.x as i64 && (px as i64) < rect.x as i64
                + rect.width as i64 && py as i64 >= rect.y as i64 && (py as i64) < rect.y as i64
                + rect.height as i64;
            proof {
                let next = self.rects@.take(i + 1);
                assert(next.last() == *rect);
                assert(next.drop_last() == self.rects@.take(i as int));
                assert(in_rect == rect.holds(px, py));
            }
            if rect.add && in_rect {
                inside = true;
            } else if !rect.add && in_rect {
                inside = false;
            }
            i = i + 1;
        }
        assert(self.rects@.take(i as int) == self.rects@);
        inside
    }

    /// Check if the region is empty: whether nothing was added to it or
    /// subtracted from it.
    pub fn is_empty(&self) -> (b: bool)
        ensures
            b == (self@.len() == 0),
    {
        self.rects.is_empty()
    }
}

impl Default for Region {
    fn default() -> (r: Self)
        ensures
            r@ == Seq::<RegionRect>::empty(),
    {
        Region::new()
    }
}

} // verus!
