//! The layer shell: surfaces that are laid on an output in layers, below
//! or above the windows, and anchored to its edges.

use std::collections::HashMap;
use std::collections::hash_map::Entry;
use vstd::prelude::*;
use vstd::std_specs::iter::IteratorSpec;
use crate::compositor::output::OutputId;
use crate::compositor::surface::SurfaceId;
use crate::ids::IdRegistry;
use crate::protocol::shell::half;

verus! {

broadcast use vstd::std_specs::hash::group_hash_axioms;

/// Unique identifier for layer surfaces
#[derive(Debug, Clone, Copy, PartialEq, Eq, Hash, Structural)]
pub struct LayerSurfaceId(pub u64);

impl LayerSurfaceId {
    /// Takes the next unused identity from `ids`.
    pub fn new(ids: &mut IdRegistry) -> (id: Self)
        requires
            old(ids).wf(),
            old(ids).has_room(),
        ensures
            id.0 == old(ids).next_id(),
            !old(ids).issued().contains(id.0),
            final(ids).next_id() == old(ids).next_id() + 1,
            final(ids).wf(),
    {
        LayerSurfaceId(ids.allocate())
    }
}

/// Layer shell layer
#[derive(Debug, Clone, Copy, PartialEq, Eq, Structural)]
pub enum Layer {
    /// Background layer (below everything)
    Background,
    /// Bottom layer (below windows)
    Bottom,
    /// Top layer (above windows)
    Top,
    /// Overlay layer (above everything)
    Overlay,
}

impl Default for Layer {
    fn default() -> (l: Self)
        ensures
            l == Layer::Bottom,
    {
        Layer::Bottom
    }
}

impl Layer {
    /// The number of the layer on the wire, from the lowest layer up.
    pub open spec fn code(self) -> u32 {
        match self {
            Layer::Background => 0,
            Layer::Bottom => 1,
            Layer::Top => 2,
            Layer::Overlay => 3,
        }
    }

    /// Create from protocol value
    pub fn from_protocol(value: u32) -> (r: Option<Self>)
        ensures
            r is Some <==> value <= 3,
            r matches Some(layer) ==> layer.code() == value,
    {
        match value {
            0 => Some(Layer::Background),
            1 => Some(Layer::Bottom),
            2 => Some(Layer::Top),
            3 => Some(Layer::Overlay),
            _ => None,
        }
    }

    /// Convert to protocol value
    pub fn to_protocol(&self) -> (value: u32)
        ensures
            value == self.code(),
            value <= 3,
    {
        match self {
            Layer::Background => 0,
            Layer::Bottom => 1,
            Layer::Top => 2,
            Layer::Overlay => 3,
        }
    }

    /// Two layers with the same number are the same layer.
    pub proof fn lemma_code_injective(a: Layer, b: Layer)
        requires
            a.code() == b.code(),
        ensures
            a == b,
    {
    }
}

/// Edge anchoring for layer surfaces: a set of edges, one bit per edge.
#[derive(Debug, Clone, Copy, PartialEq, Eq, Structural)]
pub struct Anchor(u32);

impl Anchor {
    pub const TOP: u32 = 1;

    pub const BOTTOM: u32 = 2;

    pub const LEFT: u32 = 4;

    pub const RIGHT: u32 = 8;

    /// The set as the wire carries it.
    pub closed spec fn mask(self) -> u32 {
        self.0
    }

    /// Whether the set holds the upper edge.
    pub open spec fn top(self) -> bool {
        self.mask() & 1 == 1
    }

    /// Whether the set holds the lower edge.
    pub open spec fn bottom(self) -> bool {
        self.mask() & 2 == 2
    }

    /// Whether the set holds the left edge.
    pub open spec fn left(self) -> bool {
        self.mask() & 4 == 4
    }

    /// Whether the set holds the right edge.
    pub open spec fn right(self) -> bool {
        self.mask() & 8 == 8
    }

    /// No edge.
    pub fn empty() -> (r: Self)
        ensures
            r.mask() == 0,
            !r.top() && !r.bottom() && !r.left() && !r.right(),
    {
        assert(0u32 & 1 == 0 && 0u32 & 2 == 0 && 0u32 & 4 == 0 && 0u32 & 8 == 0) by (bit_vector);
        Anchor(0)
    }

    /// The edges that the bits of a mask name; bits that name no edge are
    /// dropped.
    pub fn from_bits_truncate(bits: u32) -> (r: Self)
        ensures
            r.mask() == bits & 15,
            r.top() == (bits & 1 == 1),
            r.bottom() == (bits & 2 == 2),
            r.left() == (bits & 4 == 4),
            r.right() == (bits & 8 == 8),
    {
        assert((bits & 15) & 1 == bits & 1 && (bits & 15) & 2 == bits & 2 && (bits & 15) & 4 == bits
            & 4 && (bits & 15) & 8 == bits & 8) by (bit_vector);
        Anchor(bits & 15)
    }

    /// The set as the wire carries it.
    pub fn bits(&self) -> (b: u32)
        ensures
            b == self.mask(),
    {
        self.0
    }

    /// Whether every edge of `other` is in this set.
    pub fn contains(&self, other: Anchor) -> (b: bool)
        ensures
            b == (self.mask() & other.mask() == other.mask()),
    {
        self.0 & other.0 == other.0
    }

    /// The edges that are in either set.
    pub fn union(self, other: Anchor) -> (r: Self)
        ensures
            r.mask() == self.mask() | other.mask(),
    {
        Anchor(self.0 | other.0)
    }
}

impl Default for Anchor {
    fn default() -> (r: Self)
        ensures
            r.mask() == 0,
    {
        Anchor(0)
    }
}

/// Keyboard interactivity mode
#[derive(Debug, Clone, Copy, PartialEq, Eq, Structural)]
pub enum KeyboardInteractivity {
    /// No keyboard focus
    NoInteractivity,
    /// Exclusive keyboard focus (locks keyboard)
    Exclusive,
    /// On-demand keyboard focus
    OnDemand,
}

impl Default for KeyboardInteractivity {
    fn default() -> (k: Self)
        ensures
            k == KeyboardInteractivity::NoInteractivity,
    {
        KeyboardInteractivity::NoInteractivity
    }
}

impl KeyboardInteractivity {
    /// The number of the mode on the wire.
    pub open spec fn code(self) -> u32 {
        match self {
            KeyboardInteractivity::NoInteractivity => 0,
            KeyboardInteractivity::Exclusive => 1,
            KeyboardInteractivity::OnDemand => 2,
        }
    }

    /// Create from protocol value
    pub fn from_protocol(value: u32) -> (r: Option<Self>)
        ensures
            r is Some <==> value <= 2,
            r matches Some(mode) ==> mode.code() == value,
    {
        match value {
            0 => Some(KeyboardInteractivity::NoInteractivity),
            1 => Some(KeyboardInteractivity::Exclusive),
            2 => Some(KeyboardInteractivity::OnDemand),
            _ => None,
        }
    }
}

/// The extent of a layer surface along one axis: where the surface is
/// anchored to both edges and asks for no size, it fills the output
/// between its margins; else it has the size that it asks for.
pub open spec fn layer_extent(
    size: u32,
    output: u32,
    near_margin: i32,
    far_margin: i32,
    near: bool,
    far: bool,
) -> int {
    if near && far && size == 0 {
        output - (near_margin + far_margin)
    } else {
        size as int
    }
}

/// The position of a layer surface along one axis: its margin from the
/// near edge where it is anchored there; else its margin from the far
/// edge where it is anchored there; else the middle.
pub open spec fn layer_position(
    extent: int,
    output: u32,
    near_margin: i32,
    far_margin: i32,
    near: bool,
    far: bool,
) -> int {
    if near {
        near_margin as int
    } else if far {
        output - extent - far_margin
    } else {
        half(output - extent)
    }
}

/// A layer shell surface
#[derive(Debug)]
pub struct LayerSurface {
    /// Unique identifier
    pub id: LayerSurfaceId,
    /// Associated wl_surface
    pub surface_id: SurfaceId,
    /// Target output (None = current output)
    pub output: Option<OutputId>,
    /// Layer
    pub layer: Layer,
    /// Namespace (application identifier)
    pub namespace: String,
    /// Size (0 = use anchor constraints)
    pub size: (u32, u32),
    /// Anchor edges
    pub anchor: Anchor,
    /// Exclusive zone (pixels to reserve)
    pub exclusive_zone: i32,
    /// Margin from edges: top, right, bottom, left
    pub margin: (i32, i32, i32, i32),
    /// Keyboard interactivity
    pub keyboard_interactivity: KeyboardInteractivity,
    /// Configured state
    pub configured: bool,
    /// Configure serial
    pub configure_serial: u32,
}

impl LayerSurface {
    /// The surface's width on an output of the given width.
    pub open spec fn width_on(&self, output_width: u32) -> int {
        layer_extent(
            self.size.0,
            output_width,
            self.margin.3,
            self.margin.1,
            self.anchor.left(),
            self.anchor.right(),
        )
    }

    /// The surface's height on an output of the given height.
    pub open spec fn height_on(&self, output_height: u32) -> int {
        layer_extent(
            self.size.1,
            output_height,
            self.margin.0,
            self.margin.2,
            self.anchor.top(),
            self.anchor.bottom(),
        )
    }

    /// The surface's left edge on an output of the given width.
    pub open spec fn x_on(&self, output_width: u32) -> int {
        layer_position(
            self.width_on(output_width),
            output_width,
            self.margin.3,
            self.margin.1,
            self.anchor.left(),
            self.anchor.right(),
        )
    }

    /// The surface's upper edge on an output of the given height.
    pub open spec fn y_on(&self, output_height: u32) -> int {
        layer_position(
            self.height_on(output_height),
            output_height,
            self.margin.0,
            self.margin.2,
            self.anchor.top(),
            self.anchor.bottom(),
        )
    }

    /// Whether the surface's place on the output can be written down: a
    /// size of two unsigned and an origin of two signed 32-bit numbers.
    pub open spec fn fits(&self, output_width: u32, output_height: u32) -> bool {
        &&& 0 <= self.width_on(output_width) <= u32::MAX
        &&& 0 <= self.height_on(output_height) <= u32::MAX
        &&& i32::MIN <= self.x_on(output_width) <= i32::MAX
        &&& i32::MIN <= self.y_on(output_height) <= i32::MAX
    }

    /// Create a new layer surface
    pub fn new(
        ids: &mut IdRegistry,
        surface_id: SurfaceId,
        output: Option<OutputId>,
        layer: Layer,
        namespace: String,
    ) -> (s: Self)
        requires
            old(ids).wf(),
            old(ids).has_room(),
        ensures
            s.id == LayerSurfaceId(old(ids).next_id()),
            s.surface_id == surface_id,
            s.output == output,
            s.layer == layer,
            s.namespace == namespace,
            s.size == (0u32, 0u32),
            s.anchor.mask() == 0,
            s.exclusive_zone == 0,
            s.margin == (0i32, 0i32, 0i32, 0i32),
            s.keyboard_interactivity == KeyboardInteractivity::NoInteractivity,
            !s.configured,
            s.configure_serial == 0,
            final(ids).next_id() == old(ids).next_id() + 1,
            final(ids).wf(),
    {
        LayerSurface {
            id: LayerSurfaceId::new(ids),
            surface_id,
            output,
            layer,
            namespace,
            size: (0, 0),
            anchor: Anchor::empty(),
            exclusive_zone: 0,
            margin: (0, 0, 0, 0),
            keyboard_interactivity: KeyboardInteractivity::NoInteractivity,
            configured: false,
            configure_serial: 0,
        }
    }

    /// Set size
    pub fn set_size(&mut self, width: u32, height: u32)
        ensures
            *final(self) == (LayerSurface { size: (width, height), ..*old(self) }),
    {
        self.size = (width, height);
    }

    /// Set anchor
    pub fn set_anchor(&mut self, anchor: Anchor)
        ensures
            *final(self) == (LayerSurface { anchor, ..*old(self) }),
    {
        self.anchor = anchor;
    }

    /// Set exclusive zone
    pub fn set_exclusive_zone(&mut self, zone: i32)
        ensures
            *final(self) == (LayerSurface { exclusive_zone: zone, ..*old(self) }),
    {
        self.exclusive_zone = zone;
    }

    /// Set margin
    pub fn set_margin(&mut self, top: i32, right: i32, bottom: i32, left: i32)
        ensures
            *final(self) == (LayerSurface { margin: (top, right, bottom, left), ..*old(self) }),
    {
        self.margin = (top, right, bottom, left);
    }

    /// Set layer
    pub fn set_layer(&mut self, layer: Layer)
        ensures
            *final(self) == (LayerSurface { layer, ..*old(self) }),
    {
        self.layer = layer;
    }

    /// Set keyboard interactivity
    pub fn set_keyboard_interactivity(&mut self, mode: KeyboardInteractivity)
        ensures
            *final(self) == (LayerSurface { keyboard_interactivity: mode, ..*old(self) }),
    {
        self.keyboard_interactivity = mode;
    }

    /// The surface's place on the output, computed in 64 bits: left edge,
    /// upper edge, width, height.
    fn wide_geometry(&self, output_width: u32, output_height: u32) -> (g: (i64, i64, i64, i64))
        ensures
            g.0 == self.x_on(output_width),
            g.1 == self.y_on(output_height),
            g.2 == self.width_on(output_width),
            g.3 == self.height_on(output_height),
    {
        let (mut width, mut height): (i64, i64) = (self.size.0 as i64, self.size.1 as i64);
        let (margin_top, margin_right, margin_bottom, margin_left) = (
            self.margin.0 as i64,
            self.margin.1 as i64,
            self.margin.2 as i64,
            self.margin.3 as i64,
        );
        let (output_width, output_height): (i64, i64) = (output_width as i64, output_height as i64);
        let left = self.anchor.contains(Anchor::from_bits_truncate(Anchor::LEFT));
        let right = self.anchor.contains(Anchor::from_bits_truncate(Anchor::RIGHT));
        let top = self.anchor.contains(Anchor::from_bits_truncate(Anchor::TOP));
        let bottom = self.anchor.contains(Anchor::from_bits_truncate(Anchor::BOTTOM));
        proof {
            assert(4u32 & 15 == 4 && 8u32 & 15 == 8 && 1u32 & 15 == 1 && 2u32 & 15 == 2)
                by (bit_vector);
        }

        // If anchored to opposite edges and size is 0, stretch to fill
        if left && right && width == 0 {
            width = output_width - (margin_left + margin_right);
        }
        if top && bottom && height == 0 {
            height = output_height - (margin_top + margin_bottom);
        }

        // Calculate position based on anchoring
        let x: i64 = if left {
            margin_left
        } else if right {
            output_width - width - margin_right
        } else {
            (output_width - width) / 2
        };

        let y: i64 = if top {
            margin_top
        } else if bottom {
            output_height - height - margin_bottom
        } else {
            (output_height - height) / 2
        };

        (x, y, width, height)
    }

    /// Calculate the geometry based on output and anchoring
    pub fn calculate_geometry(&self, output_width: u32, output_height: u32) -> (g: (
        i32,
        i32,
        u32,
        u32,
    ))
        requires
            self.fits(output_width, output_height),
        ensures
            g.0 == self.x_on(output_width),
            g.1 == self.y_on(output_height),
            g.2 == self.width_on(output_width),
            g.3 == self.height_on(output_height),
    {
        let (x, y, width, height) = self.wide_geometry(output_width, output_height);
        (x as i32, y as i32, width as u32, height as u32)
    }

    /// The geometry based on output and anchoring, where it can be
    /// written down.
    pub fn checked_geometry(&self, output_width: u32, output_height: u32) -> (r: Option<
        (i32, i32, u32, u32),
    >)
        ensures
            r is Some <==> self.fits(output_width, output_height),
            r matches Some(g) ==> g.0 == self.x_on(output_width) && g.1 == self.y_on(output_height)
                && g.2 == self.width_on(output_width) && g.3 == self.height_on(output_height),
    {
        let (x, y, width, height) = self.wide_geometry(output_width, output_height);
        if x < i32::MIN as i64 || x > i32::MAX as i64 || y < i32::MIN as i64 || y > i32::MAX as i64
            || width < 0 || width > u32::MAX as i64 || height < 0 || height > u32::MAX as i64 {
            None
        } else {
            Some(self.calculate_geometry(output_width, output_height))
        }
    }
}

/// Handler for wlr-layer-shell protocol
#[derive(Debug)]
pub struct LayerShellHandler {
    surfaces: HashMap<u64, LayerSurface>,
    /// Map from surface ID to layer surface ID
    surface_to_layer: HashMap<u64, u64>,
    ids: IdRegistry,
}

impl LayerShellHandler {
    /// The layer surfaces by the number of their identity.
    pub closed spec fn surfaces(&self) -> Map<u64, LayerSurface> {
        self.surfaces@
    }

    /// The layer surface of each surface that has one, both by number.
    pub closed spec fn surface_index(&self) -> Map<u64, u64> {
        self.surface_to_layer@
    }

    /// The registry that issues the identities of layer surfaces.
    pub closed spec fn registry(&self) -> IdRegistry {
        self.ids
    }

    /// Every layer surface is stored under its own identity, which the
    /// registry has issued, and the index leads from a surface to a layer
    /// surface of that surface.
    pub open spec fn wf(&self) -> bool {
        &&& self.registry().wf()
        &&& forall|k: u64| #[trigger]
            self.surfaces().contains_key(k) ==> self.surfaces()[k].id.0 == k
                && self.registry().issued().contains(k)
        &&& forall|s: u64| #[trigger]
            self.surface_index().contains_key(s) ==> {
                &&& self.surfaces().contains_key(self.surface_index()[s])
                &&& self.surfaces()[self.surface_index()[s]].surface_id.0 == s
            }
    }

    /// The layer surface that the index names for a surface, if the
    /// index names one and it exists.
    pub open spec fn by_surface(&self, surface_id: SurfaceId) -> Option<LayerSurface> {
        if self.surface_index().contains_key(surface_id.0) && self.surfaces().contains_key(
            self.surface_index()[surface_id.0],
        ) {
            Some(self.surfaces()[self.surface_index()[surface_id.0]])
        } else {
            None
        }
    }

    /// Create a new layer shell handler
    pub fn new() -> (h: Self)
        ensures
            h.surfaces() == Map::<u64, LayerSurface>::empty(),
            h.surface_index() == Map::<u64, u64>::empty(),
            h.registry().next_id() == 1,
            h.wf(),
    {
        let h = LayerShellHandler {
            surfaces: HashMap::new(),
            surface_to_layer: HashMap::new(),
            ids: IdRegistry::new(),
        };
        assert(h.surfaces() == Map::<u64, LayerSurface>::empty());
        assert(h.surface_index() == Map::<u64, u64>::empty());
        h
    }

    /// Whether another layer surface can be created.
    pub fn has_room(&self) -> (b: bool)
        ensures
            b == self.registry().has_room(),
    {
        self.ids.can_allocate()
    }

    /// Create a layer surface
    pub fn get_layer_surface(
        &mut self,
        surface_id: SurfaceId,
        output: Option<OutputId>,
        layer: Layer,
        namespace: String,
    ) -> (id: LayerSurfaceId)
        requires
            old(self).wf(),
            old(self).registry().has_room(),
        ensures
            id.0 == old(self).registry().next_id(),
            !old(self).surfaces().contains_key(id.0),
            final(self).surfaces().dom() == old(self).surfaces().dom().insert(id.0),
            forall|k: u64|
                old(self).surfaces().contains_key(k) ==> final(self).surfaces()[k] == old(self).surfaces()[k],
            ({
                let s = final(self).surfaces()[id.0];
                &&& s.id == id
                &&& s.surface_id == surface_id
                &&& s.output == output
                &&& s.layer == layer
                &&& s.namespace == namespace
                &&& s.size == (0u32, 0u32)
                &&& s.anchor.mask() == 0
                &&& s.exclusive_zone == 0
                &&& s.margin == (0i32, 0i32, 0i32, 0i32)
                &&& s.keyboard_interactivity == KeyboardInteractivity::NoInteractivity
                &&& !s.configured
                &&& s.configure_serial == 0
            }),
            final(self).surface_index() == old(self).surface_index().insert(surface_id.0, id.0),
            final(self).registry().next_id() == old(self).registry().next_id() + 1,
            final(self).wf(),
    {
        let layer_surface = LayerSurface::new(&mut self.ids, surface_id, output, layer, namespace);
        let id = layer_surface.id;
        self.surface_to_layer.insert(surface_id.0, id.0);
        self.surfaces.insert(id.0, layer_surface);
        assert(self.surfaces() == old(self).surfaces().insert(id.0, layer_surface));
        assert(self.surface_index() == old(self).surface_index().insert(surface_id.0, id.0));
        id
    }

    /// Get a layer surface
    pub fn get(&self, id: LayerSurfaceId) -> (r: Option<&LayerSurface>)
        ensures
            match r {
                Some(s) => self.surfaces().contains_key(id.0) && *s == self.surfaces()[id.0],
                None => !self.surfaces().contains_key(id.0),
            },
    {
        self.surfaces.get(&id.0)
    }

    /// Get a mutable layer surface
    pub fn get_mut(&mut self, id: LayerSurfaceId) -> (r: Option<&mut LayerSurface>)
        ensures
            final(self).surface_index() == old(self).surface_index(),
            final(self).registry() == old(self).registry(),
            match r {
                Some(s) => {
                    &&& old(self).surfaces().contains_key(id.0)
                    &&& *s == old(self).surfaces()[id.0]
                    &&& final(self).surfaces() == old(self).surfaces().insert(id.0, *final(s))
                },
                None => {
                    &&& !old(self).surfaces().contains_key(id.0)
                    &&& final(self).surfaces() == old(self).surfaces()
                },
            },
    {
        match self.surfaces.entry(id.0) {
            Entry::Occupied(e) => Some(e.into_mut()),
            Entry::Vacant(_) => None,
        }
    }

    /// Get layer surface by wl_surface
    pub fn get_by_surface(&self, surface_id: SurfaceId) -> (r: Option<&LayerSurface>)
        ensures
            match r {
                Some(s) => self.by_surface(surface_id) == Some(*s),
                None => self.by_surface(surface_id) is None,
            },
    {
        match self.surface_to_layer.get(&surface_id.0) {
            Some(id) => self.surfaces.get(id),
            None => None,
        }
    }

    /// Destroy a layer surface: it leaves, with the index entry of its
    /// surface.
    pub fn destroy(&mut self, id: LayerSurfaceId)
        requires
            old(self).wf(),
        ensures
            final(self).surfaces() == old(self).surfaces().remove(id.0),
            final(self).surface_index() == if old(self).surfaces().contains_key(id.0) {
                old(self).surface_index().remove(old(self).surfaces()[id.0].surface_id.0)
            } else {
                old(self).surface_index()
            },
            final(self).registry() == old(self).registry(),
            final(self).wf(),
    {
        match self.surfaces.remove(&id.0) {
            Some(surface) => {
                self.surface_to_layer.remove(&surface.surface_id.0);
                assert(self.surface_index() == old(self).surface_index().remove(
                    surface.surface_id.0,
                ));
            },
            None => {
                assert(self.surface_index() == old(self).surface_index());
            },
        }
        assert(self.surfaces() == old(self).surfaces().remove(id.0));
    }

    /// Get all layer surfaces on a specific layer: their identities, each
    /// once, in no particular order.
    pub fn surfaces_on_layer(&self, layer: Layer) -> (v: Vec<LayerSurfaceId>)
        ensures
            v@.no_duplicates(),
            forall|k: u64|
                (self.surfaces().contains_key(k) && self.surfaces()[k].layer == layer)
                    <==> v@.contains(LayerSurfaceId(k)),
    {
        let mut v: Vec<LayerSurfaceId> = Vec::new();
        let keys = self.surfaces.keys();
        let ghost ks: Seq<&u64> = keys.remaining();
        for k in it: keys
            invariant
                it.seq() == ks,
                ks.no_duplicates(),
                ks.unref().to_set() == self.surfaces@.dom(),
                v@.no_duplicates(),
                forall|j: int|
                    0 <= j < v@.len() ==> ks.unref().take(it.index()).contains((#[trigger] v@[j]).0)
                        && self.surfaces@[v@[j].0].layer == layer,
                forall|i: int|
                    0 <= i < it.index() && self.surfaces@[*ks[i]].layer == layer ==> v@.contains(
                        LayerSurfaceId(*#[trigger] ks[i]),
                    ),
        {
            let ghost index = it.index();
            let ghost before = v@;
            assert(ks.unref()[index] == *k);
            assert(ks.unref().to_set().contains(*k));
            let on_layer = match self.surfaces.get(k) {
                Some(s) => s.layer == layer,
                None => false,
            };
            if on_layer {
                proof {
                    assert forall|j: int| 0 <= j < before.len() implies before[j]
                        != LayerSurfaceId(*k) by {
                        if before[j] == LayerSurfaceId(*k) {
                            let i = choose|i: int|
                                0 <= i < ks.unref().take(index).len() && ks.unref().take(index)[i]
                                    == *k;
                            assert(ks[i] == ks[index]);
                        }
                    }
                }
                v.push(LayerSurfaceId(*k));
            }
            proof {
                assert forall|j: int| 0 <= j < v@.len() implies ks.unref().take(index + 1).contains(
                    (#[trigger] v@[j]).0,
                ) by {
                    if j < before.len() {
                        let i = choose|i: int|
                            0 <= i < ks.unref().take(index).len() && ks.unref().take(index)[i]
                                == before[j].0;
                        assert(ks.unref().take(index + 1)[i] == before[j].0);
                    } else {
                        assert(ks.unref().take(index + 1)[index] == *k);
                    }
                }
                assert forall|i: int|
                    0 <= i < index + 1 && self.surfaces@[*ks[i]].layer == layer implies v@.contains(
                    LayerSurfaceId(*#[trigger] ks[i]),
                ) by {
                    if i < index {
                        let j = choose|j: int|
                            0 <= j < before.len() && before[j] == LayerSurfaceId(*ks[i]);
                        assert(v@[j] == LayerSurfaceId(*ks[i]));
                    } else {
                        assert(v@[v@.len() - 1] == LayerSurfaceId(*k));
                    }
                }
            }
        }
        proof {
            assert forall|k: u64|
                self.surfaces().contains_key(k) && self.surfaces()[k].layer
                    == layer implies v@.contains(LayerSurfaceId(k)) by {
                assert(ks.unref().to_set().contains(k));
                let i = choose|i: int| 0 <= i < ks.unref().len() && ks.unref()[i] == k;
                assert(*ks[i] == k);
            }
            assert forall|k: u64| v@.contains(LayerSurfaceId(k)) implies self.surfaces().contains_key(
                k,
            ) && self.surfaces()[k].layer == layer by {
                let j = choose|j: int| 0 <= j < v@.len() && v@[j] == LayerSurfaceId(k);
                assert(ks.unref().take(ks.len() as int).contains(v@[j].0));
                assert(ks.unref().take(ks.len() as int) == ks.unref());
                assert(ks.unref().to_set().contains(k));
            }
        }
        v
    }

    /// Get count of layer surfaces
    pub fn len(&self) -> (n: usize)
        ensures
            n == self.surfaces().len(),
    {
        self.surfaces.len()
    }

    /// Check if empty
    pub fn is_empty(&self) -> (b: bool)
        ensures
            b == (self.surfaces().len() == 0),
    {
        self.surfaces.is_empty()
    }
}

impl Default for LayerShellHandler {
    fn default() -> (h: Self)
        ensures
            h.surfaces() == Map::<u64, LayerSurface>::empty(),
            h.surface_index() == Map::<u64, u64>::empty(),
            h.wf(),
    {
        LayerShellHandler::new()
    }
}

} // verus!
