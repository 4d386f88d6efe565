//! Outputs: the displays that surfaces are shown on.

use std::collections::HashMap;
use std::collections::hash_map::Entry;
use vstd::prelude::*;
use vstd::std_specs::iter::IteratorSpec;
use crate::ids::IdRegistry;

verus! {

broadcast use vstd::std_specs::hash::group_hash_axioms;

/// Unique identifier for outputs
#[derive(Debug, Clone, Copy, PartialEq, Eq, Hash, Structural)]
pub struct OutputId(pub u64);

impl OutputId {
    /// Takes the next unused identity from `ids`.
    pub fn new(ids: &mut IdRegistry) -> (id: Self)
        requires
            old(ids).wf(),
            old(ids).has_room(),
        ensures
            id.0 == old(ids).next_id(),
            !old(ids).issued().contains(id.0),
            final(ids).next_id() == old(ids).next_id() + 1,
            final(ids).wf(),
    {
        OutputId(ids.allocate())
    }
}

/// Output transform (rotation/flip)
#[derive(Debug, Clone, Copy, PartialEq, Eq, Structural)]
pub enum OutputTransform {
    Normal,
    Rotate90,
    Rotate180,
    Rotate270,
    Flipped,
    Flipped90,
    Flipped180,
    Flipped270,
}

impl Default for OutputTransform {
    fn default() -> (t: Self)
        ensures
            t == OutputTransform::Normal,
    {
        OutputTransform::Normal
    }
}

impl OutputTransform {
    /// The number of the transform on the wire: the quarter turns, plus 4
    /// where the image is flipped.
    pub open spec fn code(self) -> u32 {
        match self {
            OutputTransform::Normal => 0,
            OutputTransform::Rotate90 => 1,
            OutputTransform::Rotate180 => 2,
            OutputTransform::Rotate270 => 3,
            OutputTransform::Flipped => 4,
            OutputTransform::Flipped90 => 5,
            OutputTransform::Flipped180 => 6,
            OutputTransform::Flipped270 => 7,
        }
    }

    /// Convert to Wayland wl_output::transform value
    pub fn to_wayland(&self) -> (code: u32)
        ensures
            code == self.code(),
            code <= 7,
    {
        match self {
            OutputTransform::Normal => 0,
            OutputTransform::Rotate90 => 1,
            OutputTransform::Rotate180 => 2,
            OutputTransform::Rotate270 => 3,
            OutputTransform::Flipped => 4,
            OutputTransform::Flipped90 => 5,
            OutputTransform::Flipped180 => 6,
            OutputTransform::Flipped270 => 7,
        }
    }

    /// Two transforms with the same number are the same transform.
    pub proof fn lemma_code_injective(a: OutputTransform, b: OutputTransform)
        requires
            a.code() == b.code(),
        ensures
            a == b,
    {
    }
}

/// Output subpixel layout
#[derive(Debug, Clone, Copy, PartialEq, Eq, Structural)]
pub enum Subpixel {
    Unknown,
    NoSubpixels,
    HorizontalRgb,
    HorizontalBgr,
    VerticalRgb,
    VerticalBgr,
}

impl Default for Subpixel {
    fn default() -> (s: Self)
        ensures
            s == Subpixel::Unknown,
    {
        Subpixel::Unknown
    }
}

impl Subpixel {
    /// The number of the layout on the wire.
    pub open spec fn code(self) -> u32 {
        match self {
            Subpixel::Unknown => 0,
            Subpixel::NoSubpixels => 1,
            Subpixel::HorizontalRgb => 2,
            Subpixel::HorizontalBgr => 3,
            Subpixel::VerticalRgb => 4,
            Subpixel::VerticalBgr => 5,
        }
    }

    /// Convert to Wayland wl_output::subpixel value
    pub fn to_wayland(&self) -> (code: u32)
        ensures
            code == self.code(),
            code <= 5,
    {
        match self {
            Subpixel::Unknown => 0,
            Subpixel::NoSubpixels => 1,
            Subpixel::HorizontalRgb => 2,
            Subpixel::HorizontalBgr => 3,
            Subpixel::VerticalRgb => 4,
            Subpixel::VerticalBgr => 5,
        }
    }

    /// Two layouts with the same number are the same layout.
    pub proof fn lemma_code_injective(a: Subpixel, b: Subpixel)
        requires
            a.code() == b.code(),
        ensures
            a == b,
    {
    }
}

/// An output mode (resolution + refresh rate)
#[derive(Debug, Clone, Copy, PartialEq, Eq, Structural)]
pub struct OutputMode {
    /// Width in pixels
    pub width: u32,
    /// Height in pixels
    pub height: u32,
    /// Refresh rate in mHz (e.g., 60000 for 60Hz)
    pub refresh: u32,
    /// Is this the current mode?
    pub current: bool,
    /// Is this the preferred mode?
    pub preferred: bool,
}

/// A display output (monitor)
#[derive(Debug)]
pub struct Output {
    /// Unique identifier
    pub id: OutputId,
    /// Output name (e.g., "eDP-1")
    pub name: String,
    /// Manufacturer name
    pub make: String,
    /// Model name
    pub model: String,
    /// Serial number
    pub serial: String,
    /// Position in global coordinate space
    pub x: i32,
    pub y: i32,
    /// Physical size in millimeters
    pub physical_width: u32,
    pub physical_height: u32,
    /// Transform applied to output
    pub transform: OutputTransform,
    /// Subpixel layout
    pub subpixel: Subpixel,
    /// Available modes
    pub modes: Vec<OutputMode>,
    /// Current mode index
    pub current_mode: Option<usize>,
    /// Scale factor, counted in 120ths: 120 is a scale of one, 180 one
    /// and a half, 240 two
    pub scale: u32,
}

impl Output {
    /// The mode that `current_mode` names, where it names one of `modes`.
    pub open spec fn mode(&self) -> Option<OutputMode> {
        match self.current_mode {
            Some(i) => if i < self.modes@.len() {
                Some(self.modes@[i as int])
            } else {
                None
            },
            None => None,
        }
    }

    /// Create a new output
    pub fn new(ids: &mut IdRegistry, name: String) -> (o: Self)
        requires
            old(ids).wf(),
            old(ids).has_room(),
        ensures
            o.id == OutputId(old(ids).next_id()),
            o.name == name,
            o.make@ == Seq::<char>::empty(),
            o.model@ == Seq::<char>::empty(),
            o.serial@ == Seq::<char>::empty(),
            o.x == 0 && o.y == 0,
            o.physical_width == 0 && o.physical_height == 0,
            o.transform == OutputTransform::Normal,
            o.subpixel == Subpixel::Unknown,
            o.modes@ == Seq::<OutputMode>::empty(),
            o.current_mode is None,
            o.scale == 120,
            final(ids).next_id() == old(ids).next_id() + 1,
            final(ids).wf(),
    {
        Output {
            id: OutputId::new(ids),
            name,
            make: String::new(),
            model: String::new(),
            serial: String::new(),
            x: 0,
            y: 0,
            physical_width: 0,
            physical_height: 0,
            transform: OutputTransform::Normal,
            subpixel: Subpixel::Unknown,
            modes: Vec::new(),
            current_mode: None,
            scale: 120,
        }
    }

    /// Get the current mode
    pub fn current_mode(&self) -> (m: Option<&OutputMode>)
        ensures
            match m {
                Some(mode) => self.mode() == Some(*mode),
                None => self.mode() is None,
            },
    {
        match self.current_mode {
            Some(i) => if i < self.modes.len() {
                Some(&self.modes[i])
            } else {
                None
            },
            None => None,
        }
    }

    /// Get current width
    pub fn width(&self) -> (w: u32)
        ensures
            w == match self.mode() {
                Some(mode) => mode.width,
                None => 0,
            },
    {
        match self.current_mode() {
            Some(mode) => mode.width,
            None => 0,
        }
    }

    /// Get current height
    pub fn height(&self) -> (h: u32)
        ensures
            h == match self.mode() {
                Some(mode) => mode.height,
                None => 0,
            },
    {
        match self.current_mode() {
            Some(mode) => mode.height,
            None => 0,
        }
    }

    /// Add a mode. A mode that is marked as current becomes the current
    /// mode.
    pub fn add_mode(&mut self, mode: OutputMode)
        ensures
            final(self).modes@ == old(self).modes@.push(mode),
            final(self).current_mode == if mode.current {
                Some(old(self).modes@.len() as usize)
            } else {
                old(self).current_mode
            },
            mode.current ==> final(self).mode() == Some(mode),
            *final(self) == (Output {
                modes: final(self).modes,
                current_mode: final(self).current_mode,
                ..*old(self)
            }),
    {
        let is_current = mode.current;
        self.modes.push(mode);
        if is_current {
            self.current_mode = Some(self.modes.len() - 1);
        }
    }
}

/// Manager for all outputs
#[derive(Debug)]
pub struct OutputManager {
    outputs: HashMap<u64, Output>,
    /// Primary output
    primary: Option<OutputId>,
}

impl OutputManager {
    /// The outputs by the number of their identity.
    pub closed spec fn outputs(&self) -> Map<u64, Output> {
        self.outputs@
    }

    /// The output that is named as primary.
    pub closed spec fn primary_id(&self) -> Option<OutputId> {
        self.primary
    }

    /// Every output is stored under its own identity, and the primary
    /// output is one of them; there is a primary output as long as there
    /// is any output.
    pub open spec fn wf(&self) -> bool {
        &&& forall|k: u64| #[trigger] self.outputs().contains_key(k) ==> self.outputs()[k].id.0 == k
        &&& match self.primary_id() {
            Some(p) => self.outputs().contains_key(p.0),
            None => self.outputs().len() == 0,
        }
    }

    /// Create a new output manager
    pub fn new() -> (m: Self)
        ensures
            m.outputs() == Map::<u64, Output>::empty(),
            m.primary_id() is None,
            m.wf(),
    {
        let m = OutputManager { outputs: HashMap::new(), primary: None };
        assert(m.outputs() == Map::<u64, Output>::empty());
        m
    }

    /// Add an output. The first output becomes the primary one.
    pub fn add(&mut self, output: Output) -> (id: OutputId)
        ensures
            id == output.id,
            final(self).outputs() == old(self).outputs().insert(id.0, output),
            final(self).primary_id() == if old(self).outputs().len() == 0 {
                Some(id)
            } else {
                old(self).primary_id()
            },
            old(self).wf() ==> final(self).wf(),
    {
        let id = output.id;
        let is_first = self.outputs.is_empty();
        self.outputs.insert(id.0, output);
        if is_first {
            self.primary = Some(id);
        }
        assert(self.outputs() == old(self).outputs().insert(id.0, output));
        id
    }

    /// Get an output by ID
    pub fn get(&self, id: OutputId) -> (r: Option<&Output>)
        ensures
            match r {
                Some(o) => self.outputs().contains_key(id.0) && *o == self.outputs()[id.0],
                None => !self.outputs().contains_key(id.0),
            },
    {
        self.outputs.get(&id.0)
    }

    /// Get a mutable output by ID
    pub fn get_mut(&mut self, id: OutputId) -> (r: Option<&mut Output>)
        ensures
            final(self).primary_id() == old(self).primary_id(),
            match r {
                Some(o) => {
                    &&& old(self).outputs().contains_key(id.0)
                    &&& *o == old(self).outputs()[id.0]
                    &&& final(self).outputs() == old(self).outputs().insert(id.0, *final(o))
                },
                None => {
                    &&& !old(self).outputs().contains_key(id.0)
                    &&& final(self).outputs() == old(self).outputs()
                },
            },
    {
        match self.outputs.entry(id.0) {
            Entry::Occupied(e) => Some(e.into_mut()),
            Entry::Vacant(_) => None,
        }
    }

    /// The identity of some output, where there is any.
    fn any_key(&self) -> (r: Option<u64>)
        ensures
            match r {
                Some(k) => self.outputs().contains_key(k),
                None => self.outputs().len() == 0,
            },
    {
        let mut first: Option<u64> = None;
        let keys = self.outputs.keys();
        let ghost ks: Seq<&u64> = keys.remaining();
        for k in it: keys
            invariant
                it.seq() == ks,
                match first {
                    Some(f) => ks.unref().contains(f),
                    None => it.index() == 0,
                },
        {
            if first.is_none() {
                assert(ks.unref()[it.index()] == *k);
                first = Some(*k);
            }
        }
        proof {
            assert(ks.unref().to_set() == self.outputs@.dom());
            assert(ks.len() == self.outputs@.dom().len());
            match first {
                Some(f) => {
                    assert(ks.unref().to_set().contains(f));
                },
                None => {},
            }
        }
        first
    }

    /// Remove an output. Where the primary output leaves, one of those
    /// that stay becomes primary; which one is not fixed.
    pub fn remove(&mut self, id: OutputId) -> (r: Option<Output>)
        ensures
            final(self).outputs() == old(self).outputs().remove(id.0),
            match r {
                Some(o) => old(self).outputs().contains_key(id.0) && o == old(self).outputs()[id.0],
                None => !old(self).outputs().contains_key(id.0),
            },
            old(self).primary_id() != Some(id) ==> final(self).primary_id() == old(self).primary_id(),
            old(self).primary_id() == Some(id) ==> match final(self).primary_id() {
                Some(p) => final(self).outputs().contains_key(p.0),
                None => final(self).outputs().len() == 0,
            },
            old(self).wf() ==> final(self).wf(),
    {
        let output = self.outputs.remove(&id.0);
        let was_primary = match self.primary {
            Some(p) => p.0 == id.0,
            None => false,
        };
        if was_primary {
            self.primary = match self.any_key() {
                Some(k) => Some(OutputId(k)),
                None => None,
            };
        }
        assert(self.outputs() == old(self).outputs().remove(id.0));
        output
    }

    /// The primary output, where it exists.
    pub open spec fn primary_output(&self) -> Option<Output> {
        match self.primary_id() {
            Some(p) => if self.outputs().contains_key(p.0) {
                Some(self.outputs()[p.0])
            } else {
                None
            },
            None => None,
        }
    }

    /// Get the primary output
    pub fn primary(&self) -> (r: Option<&Output>)
        ensures
            match r {
                Some(o) => self.primary_output() == Some(*o),
                None => self.primary_output() is None,
            },
    {
        match self.primary {
            Some(id) => self.outputs.get(&id.0),
            None => None,
        }
    }

    /// Set the primary output. An identity that names no output changes
    /// nothing.
    pub fn set_primary(&mut self, id: OutputId)
        ensures
            final(self).outputs() == old(self).outputs(),
            final(self).primary_id() == if old(self).outputs().contains_key(id.0) {
                Some(id)
            } else {
                old(self).primary_id()
            },
            old(self).wf() ==> final(self).wf(),
    {
        if self.outputs.contains_key(&id.0) {
            self.primary = Some(id);
        }
        assert(self.outputs() == old(self).outputs());
    }

    /// Get all outputs: the identities under which outputs are stored,
    /// each once, in no particular order.
    pub fn iter(&self) -> (v: Vec<OutputId>)
        ensures
            v@.no_duplicates(),
            forall|k: u64| self.outputs().contains_key(k) <==> v@.contains(OutputId(k)),
            v@.len() == self.outputs().len(),
    {
        let mut v: Vec<OutputId> = Vec::new();
        let keys = self.outputs.keys();
        let ghost ks: Seq<&u64> = keys.remaining();
        for k in it: keys
            invariant
                it.seq() == ks,
                v@.len() == it.index(),
                forall|j: int| 0 <= j < v@.len() ==> v@[j].0 == *ks[j],
        {
            v.push(OutputId(*k));
        }
        proof {
            assert(ks.unref().to_set() == self.outputs@.dom());
            assert forall|k: u64| self.outputs().contains_key(k) implies v@.contains(
                OutputId(k),
            ) by {
                assert(ks.unref().to_set().contains(k));
                let j = choose|j: int| 0 <= j < ks.unref().len() && ks.unref()[j] == k;
                assert(v@[j] == OutputId(k));
            }
            assert forall|k: u64| v@.contains(OutputId(k)) implies self.outputs().contains_key(
                k,
            ) by {
                let j = choose|j: int| 0 <= j < v@.len() && v@[j] == OutputId(k);
                assert(ks.unref()[j] == k);
                assert(ks.unref().to_set().contains(k));
            }
            assert forall|i: int, j: int|
                0 <= i < v@.len() && 0 <= j < v@.len() && i != j implies v@[i] != v@[j] by {
                assert(ks[i] != ks[j]);
            }
        }
        v
    }

    /// Get count of outputs
    pub fn len(&self) -> (n: usize)
        ensures
            n == self.outputs().len(),
    {
        self.outputs.len()
    }

    /// Check if empty
    pub fn is_empty(&self) -> (b: bool)
        ensures
            b == (self.outputs().len() == 0),
            b ==> self.outputs() == Map::<u64, Output>::empty(),
    {
        self.outputs.is_empty()
    }
}

impl Default for OutputManager {
    fn default() -> (m: Self)
        ensures
            m.outputs() == Map::<u64, Output>::empty(),
            m.primary_id() is None,
            m.wf(),
    {
        OutputManager::new()
    }
}

} // verus!
