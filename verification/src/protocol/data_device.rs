//! Clipboard and drag-and-drop: data sources, the offers made from them,
//! and the negotiation of a drag-and-drop action.

use std::collections::HashMap;
use std::collections::hash_map::Entry;
use vstd::prelude::*;
use crate::compositor::surface::SurfaceId;
use crate::ids::IdRegistry;

verus! {

broadcast use vstd::std_specs::hash::group_hash_axioms;

/// Unique identifier for data sources
#[derive(Debug, Clone, Copy, PartialEq, Eq, Hash, Structural)]
pub struct DataSourceId(pub u64);

impl DataSourceId {
    /// Takes the next unused identity from `ids`.
    pub fn new(ids: &mut IdRegistry) -> (id: Self)
        requires
            old(ids).wf(),
            old(ids).has_room(),
        ensures
            id.0 == old(ids).next_id(),
            !old(ids).issued().contains(id.0),
            final(ids).next_id() == old(ids).next_id() + 1,
            final(ids).wf(),
    {
        DataSourceId(ids.allocate())
    }
}

/// Unique identifier for data offers
#[derive(Debug, Clone, Copy, PartialEq, Eq, Hash, Structural)]
pub struct DataOfferId(pub u64);

impl DataOfferId {
    /// Takes the next unused identity from `ids`.
    pub fn new(ids: &mut IdRegistry) -> (id: Self)
        requires
            old(ids).wf(),
            old(ids).has_room(),
        ensures
            id.0 == old(ids).next_id(),
            !old(ids).issued().contains(id.0),
            final(ids).next_id() == old(ids).next_id() + 1,
            final(ids).wf(),
    {
        DataOfferId(ids.allocate())
    }
}

/// Single DnD action
#[derive(Debug, Clone, Copy, PartialEq, Eq, Structural)]
pub enum DndAction {
    NoAction,
    Copy,
    Move,
    Ask,
}

impl Default for DndAction {
    fn default() -> (a: Self)
        ensures
            a == DndAction::NoAction,
    {
        DndAction::NoAction
    }
}

impl DndAction {
    /// The bit that stands for the action in a set of actions.
    pub open spec fn bit(self) -> u32 {
        match self {
            DndAction::NoAction => 0,
            DndAction::Copy => 1,
            DndAction::Move => 2,
            DndAction::Ask => 4,
        }
    }
}

/// A set of drag-and-drop actions, one bit per action.
#[derive(Debug, Clone, Copy, PartialEq, Eq, Structural)]
pub struct DndActions(u32);

impl DndActions {
    pub const NONE: u32 = 0;

    pub const COPY: u32 = 1;

    pub const MOVE: u32 = 2;

    pub const ASK: u32 = 4;

    /// The set as the wire carries it.
    pub closed spec fn mask(self) -> u32 {
        self.0
    }

    /// Whether the set holds an action.
    pub open spec fn has(self, action: DndAction) -> bool {
        action != DndAction::NoAction && self.mask() & action.bit() == action.bit()
    }

    /// The empty set.
    pub fn empty() -> (r: Self)
        ensures
            r.mask() == 0,
    {
        DndActions(0)
    }

    /// The set that the bits of a mask name; bits that name no action are
    /// dropped.
    pub fn from_bits_truncate(bits: u32) -> (r: Self)
        ensures
            r.mask() == bits & 7,
            bits <= 7 ==> r.mask() == bits,
    {
        assert(bits <= 7 ==> bits & 7 == bits) by (bit_vector);
        DndActions(bits & 7)
    }

    /// The set as the wire carries it.
    pub fn bits(&self) -> (b: u32)
        ensures
            b == self.mask(),
    {
        self.0
    }

    /// Whether every action of `other` is in this set.
    pub fn contains(&self, other: DndActions) -> (b: bool)
        ensures
            b == (self.mask() & other.mask() == other.mask()),
    {
        self.0 & other.0 == other.0
    }

    /// The actions that are in both sets.
    pub fn intersection(self, other: DndActions) -> (r: Self)
        ensures
            r.mask() == self.mask() & other.mask(),
    {
        DndActions(self.0 & other.0)
    }

    /// The actions that are in either set.
    pub fn union(self, other: DndActions) -> (r: Self)
        ensures
            r.mask() == self.mask() | other.mask(),
    {
        DndActions(self.0 | other.0)
    }
}

/// The action that source and receiver settle on: the one that the
/// receiver prefers, where both allow it; else the first of copy, move
/// and ask that both allow; else none.
pub open spec fn negotiated(source: DndActions, receiver: DndActions, preferred: DndAction)
    -> DndAction {
    if source.has(preferred) && receiver.has(preferred) {
        preferred
    } else if source.has(DndAction::Copy) && receiver.has(DndAction::Copy) {
        DndAction::Copy
    } else if source.has(DndAction::Move) && receiver.has(DndAction::Move) {
        DndAction::Move
    } else if source.has(DndAction::Ask) && receiver.has(DndAction::Ask) {
        DndAction::Ask
    } else {
        DndAction::NoAction
    }
}

/// The action that is settled on is one that both sides allow, and there
/// is none only where the two sides have no action in common.
pub proof fn lemma_negotiated_is_common(
    source: DndActions,
    receiver: DndActions,
    preferred: DndAction,
)
    ensures
        negotiated(source, receiver, preferred) != DndAction::NoAction ==> source.has(
            negotiated(source, receiver, preferred),
        ) && receiver.has(negotiated(source, receiver, preferred)),
        negotiated(source, receiver, preferred) == DndAction::NoAction ==> forall|a: DndAction|
            !(source.has(a) && receiver.has(a)),
{
    if negotiated(source, receiver, preferred) == DndAction::NoAction {
        assert forall|a: DndAction| !(source.has(a) && receiver.has(a)) by {
            match a {
                DndAction::NoAction => {},
                DndAction::Copy => {},
                DndAction::Move => {},
                DndAction::Ask => {},
            }
        }
    }
}

/// The texts of a list of strings.
pub open spec fn texts(strings: Seq<String>) -> Seq<Seq<char>> {
    strings.map_values(|s: String| s@)
}

/// Whether `mime` is one of `types`.
fn has_mime(types: &Vec<String>, mime: &String) -> (found: bool)
    ensures
        found == texts(types@).contains(mime@),
{
    let mut i: usize = 0;
    while i < types.len()
        invariant
            i <= types@.len(),
            forall|j: int| 0 <= j < i ==> texts(types@)[j] != mime@,
        decreases types@.len() - i,
    {
        if types[i] == *mime {
            assert(texts(types@)[i as int] == mime@);
            return true;
        }
        i = i + 1;
    }
    false
}

/// A copy of a list of strings.
fn copy_strings(strings: &Vec<String>) -> (copy: Vec<String>)
    ensures
        copy@ == strings@,
{
    let mut copy: Vec<String> = Vec::new();
    let mut i: usize = 0;
    while i < strings.len()
        invariant
            i <= strings@.len(),
            copy@ == strings@.take(i as int),
        decreases strings@.len() - i,
    {
        copy.push(strings[i].clone());
        assert(copy@ == strings@.take(i + 1));
        i = i + 1;
    }
    assert(strings@.take(i as int) == strings@);
    copy
}

/// A data source (clipboard or drag source)
#[derive(Debug)]
pub struct DataSource {
    /// Unique identifier
    pub id: DataSourceId,
    /// MIME types offered by this source
    pub mime_types: Vec<String>,
    /// Supported DnD actions
    pub dnd_actions: DndActions,
}

impl DataSource {
    /// Create a new data source
    pub fn new(ids: &mut IdRegistry) -> (source: Self)
        requires
            old(ids).wf(),
            old(ids).has_room(),
        ensures
            source.id == DataSourceId(old(ids).next_id()),
            source.mime_types@ == Seq::<String>::empty(),
            source.dnd_actions.mask() == 0,
            final(ids).next_id() == old(ids).next_id() + 1,
            final(ids).wf(),
    {
        DataSource {
            id: DataSourceId::new(ids),
            mime_types: Vec::new(),
            dnd_actions: DndActions::empty(),
        }
    }

    /// Add a MIME type. A type that is already offered is not added a
    /// second time.
    pub fn offer(&mut self, mime_type: String)
        ensures
            final(self).id == old(self).id,
            final(self).dnd_actions == old(self).dnd_actions,
            final(self).mime_types@ == if texts(old(self).mime_types@).contains(mime_type@) {
                old(self).mime_types@
            } else {
                old(self).mime_types@.push(mime_type)
            },
    {
        if !has_mime(&self.mime_types, &mime_type) {
            self.mime_types.push(mime_type);
        }
    }

    /// Set DnD actions
    pub fn set_actions(&mut self, actions: DndActions)
        ensures
            final(self).id == old(self).id,
            final(self).mime_types == old(self).mime_types,
            final(self).dnd_actions == actions,
    {
        self.dnd_actions = actions;
    }
}

/// A data offer (clipboard or drag offer to receiver)
#[derive(Debug)]
pub struct DataOffer {
    /// Unique identifier
    pub id: DataOfferId,
    /// Source this offer represents
    pub source_id: DataSourceId,
    /// MIME types available
    pub mime_types: Vec<String>,
    /// Source DnD actions
    pub source_actions: DndActions,
    /// Preferred action chosen by receiver
    pub preferred_action: DndAction,
    /// Final negotiated action
    pub action: DndAction,
}

impl DataOffer {
    /// Create a new data offer from a source
    pub fn new(ids: &mut IdRegistry, source: &DataSource) -> (offer: Self)
        requires
            old(ids).wf(),
            old(ids).has_room(),
        ensures
            offer.id == DataOfferId(old(ids).next_id()),
            offer.source_id == source.id,
            offer.mime_types@ == source.mime_types@,
            offer.source_actions == source.dnd_actions,
            offer.preferred_action == DndAction::NoAction,
            offer.action == DndAction::NoAction,
            final(ids).next_id() == old(ids).next_id() + 1,
            final(ids).wf(),
    {
        DataOffer {
            id: DataOfferId::new(ids),
            source_id: source.id,
            mime_types: copy_strings(&source.mime_types),
            source_actions: source.dnd_actions,
            preferred_action: DndAction::NoAction,
            action: DndAction::NoAction,
        }
    }

    /// Accept a MIME type
    pub fn accept(&mut self, _serial: u32, _mime_type: Option<String>)
        ensures
            *final(self) == *old(self),
    {
    }

    /// Set preferred action: the receiver names the actions that it
    /// allows and the one that it prefers, and the action is settled.
    pub fn set_actions(&mut self, actions: DndActions, preferred: DndAction)
        ensures
            final(self).preferred_action == preferred,
            final(self).action == negotiated(old(self).source_actions, actions, preferred),
            final(self).id == old(self).id,
            final(self).source_id == old(self).source_id,
            final(self).mime_types == old(self).mime_types,
            final(self).source_actions == old(self).source_actions,
    {
        self.preferred_action = preferred;
        // Negotiate action
        let available = self.source_actions.intersection(actions);
        let copy = available.contains(DndActions::from_bits_truncate(DndActions::COPY));
        let moving = available.contains(DndActions::from_bits_truncate(DndActions::MOVE));
        let ask = available.contains(DndActions::from_bits_truncate(DndActions::ASK));
        proof {
            let s = self.source_actions.mask();
            let r = actions.mask();
            assert(((s & r) & 1 == 1) == (s & 1 == 1 && r & 1 == 1)) by (bit_vector);
            assert(((s & r) & 2 == 2) == (s & 2 == 2 && r & 2 == 2)) by (bit_vector);
            assert(((s & r) & 4 == 4) == (s & 4 == 4 && r & 4 == 4)) by (bit_vector);
        }
        self.action = if copy && preferred == DndAction::Copy {
            DndAction::Copy
        } else if moving && preferred == DndAction::Move {
            DndAction::Move
        } else if ask && preferred == DndAction::Ask {
            DndAction::Ask
        } else if copy {
            DndAction::Copy
        } else if moving {
            DndAction::Move
        } else if ask {
            DndAction::Ask
        } else {
            DndAction::NoAction
        };
    }

    /// Finish the drag (data received)
    pub fn finish(&self) {
    }
}

/// Handler for wl_data_device and related protocols
#[derive(Debug)]
pub struct DataDeviceHandler {
    sources: HashMap<u64, DataSource>,
    offers: HashMap<u64, DataOffer>,
    /// Current clipboard selection source
    selection: Option<DataSourceId>,
    /// Current DnD source
    dnd_source: Option<DataSourceId>,
    /// Surface being dragged over
    dnd_focus: Option<SurfaceId>,
    source_ids: IdRegistry,
    offer_ids: IdRegistry,
}

impl DataDeviceHandler {
    /// The data sources by the number of their identity.
    pub closed spec fn sources(&self) -> Map<u64, DataSource> {
        self.sources@
    }

    /// The data offers by the number of their identity.
    pub closed spec fn offers(&self) -> Map<u64, DataOffer> {
        self.offers@
    }

    /// The source that was last named as the selection.
    pub closed spec fn selection_id(&self) -> Option<DataSourceId> {
        self.selection
    }

    /// The source of the drag that was last started.
    pub closed spec fn drag_source(&self) -> Option<DataSourceId> {
        self.dnd_source
    }

    /// The surface that is dragged over.
    pub closed spec fn drag_focus(&self) -> Option<SurfaceId> {
        self.dnd_focus
    }

    /// The registry that issues the identities of sources.
    pub closed spec fn source_registry(&self) -> IdRegistry {
        self.source_ids
    }

    /// The registry that issues the identities of offers.
    pub closed spec fn offer_registry(&self) -> IdRegistry {
        self.offer_ids
    }

    /// Sources and offers are stored under their own identities, which
    /// the registries have issued.
    pub open spec fn wf(&self) -> bool {
        &&& self.source_registry().wf()
        &&& self.offer_registry().wf()
        &&& forall|k: u64| #[trigger]
            self.sources().contains_key(k) ==> self.sources()[k].id.0 == k
                && self.source_registry().issued().contains(k)
        &&& forall|k: u64| #[trigger]
            self.offers().contains_key(k) ==> self.offers()[k].id.0 == k
                && self.offer_registry().issued().contains(k)
    }

    /// Everything but the sources and their registry is the same in both.
    pub open spec fn same_but_sources(&self, other: &Self) -> bool {
        &&& self.offers() == other.offers()
        &&& self.offer_registry() == other.offer_registry()
        &&& self.selection_id() == other.selection_id()
        &&& self.drag_source() == other.drag_source()
        &&& self.drag_focus() == other.drag_focus()
    }

    /// Everything but the offers and their registry is the same in both.
    pub open spec fn same_but_offers(&self, other: &Self) -> bool {
        &&& self.sources() == other.sources()
        &&& self.source_registry() == other.source_registry()
        &&& self.selection_id() == other.selection_id()
        &&& self.drag_source() == other.drag_source()
        &&& self.drag_focus() == other.drag_focus()
    }

    /// Create a new data device handler
    pub fn new() -> (h: Self)
        ensures
            h.sources() == Map::<u64, DataSource>::empty(),
            h.offers() == Map::<u64, DataOffer>::empty(),
            h.selection_id() is None,
            h.drag_source() is None,
            h.drag_focus() is None,
            h.source_registry().next_id() == 1,
            h.offer_registry().next_id() == 1,
            h.wf(),
    {
        let h = DataDeviceHandler {
            sources: HashMap::new(),
            offers: HashMap::new(),
            selection: None,
            dnd_source: None,
            dnd_focus: None,
            source_ids: IdRegistry::new(),
            offer_ids: IdRegistry::new(),
        };
        assert(h.sources() == Map::<u64, DataSource>::empty());
        assert(h.offers() == Map::<u64, DataOffer>::empty());
        h
    }

    /// Whether another data source can be created.
    pub fn has_room_for_source(&self) -> (b: bool)
        ensures
            b == self.source_registry().has_room(),
    {
        self.source_ids.can_allocate()
    }

    /// Whether another data offer can be created.
    pub fn has_room_for_offer(&self) -> (b: bool)
        ensures
            b == self.offer_registry().has_room(),
    {
        self.offer_ids.can_allocate()
    }

    /// Create a new data source
    pub fn create_data_source(&mut self) -> (id: DataSourceId)
        requires
            old(self).wf(),
            old(self).source_registry().has_room(),
        ensures
            id.0 == old(self).source_registry().next_id(),
            !old(self).sources().contains_key(id.0),
            final(self).sources().dom() == old(self).sources().dom().insert(id.0),
            final(self).sources()[id.0].id == id,
            final(self).sources()[id.0].mime_types@ == Seq::<String>::empty(),
            final(self).sources()[id.0].dnd_actions.mask() == 0,
            forall|k: u64|
                old(self).sources().contains_key(k) ==> final(self).sources()[k] == old(self).sources()[k],
            final(self).source_registry().next_id() == old(self).source_registry().next_id() + 1,
            final(self).same_but_sources(old(self)),
            final(self).wf(),
    {
        let source = DataSource::new(&mut self.source_ids);
        let id = source.id;
        self.sources.insert(id.0, source);
        assert(self.sources() == old(self).sources().insert(id.0, source));
        assert(self.offers() == old(self).offers());
        id
    }

    /// Get a data source
    pub fn get_source(&self, id: DataSourceId) -> (r: Option<&DataSource>)
        ensures
            match r {
                Some(s) => self.sources().contains_key(id.0) && *s == self.sources()[id.0],
                None => !self.sources().contains_key(id.0),
            },
    {
        self.sources.get(&id.0)
    }

    /// Get a mutable data source
    pub fn get_source_mut(&mut self, id: DataSourceId) -> (r: Option<&mut DataSource>)
        ensures
            final(self).same_but_sources(old(self)),
            final(self).source_registry() == old(self).source_registry(),
            match r {
                Some(s) => {
                    &&& old(self).sources().contains_key(id.0)
                    &&& *s == old(self).sources()[id.0]
                    &&& final(self).sources() == old(self).sources().insert(id.0, *final(s))
                },
                None => {
                    &&& !old(self).sources().contains_key(id.0)
                    &&& final(self).sources() == old(self).sources()
                },
            },
    {
        match self.sources.entry(id.0) {
            Entry::Occupied(e) => Some(e.into_mut()),
            Entry::Vacant(_) => None,
        }
    }

    /// Destroy a data source. Where it was the selection or the source of
    /// the drag, there is none afterwards.
    pub fn destroy_source(&mut self, id: DataSourceId)
        ensures
            final(self).sources() == old(self).sources().remove(id.0),
            final(self).selection_id() == if old(self).selection_id() == Some(id) {
                None
            } else {
                old(self).selection_id()
            },
            final(self).drag_source() == if old(self).drag_source() == Some(id) {
                None
            } else {
                old(self).drag_source()
            },
            final(self).offers() == old(self).offers(),
            final(self).drag_focus() == old(self).drag_focus(),
            final(self).source_registry() == old(self).source_registry(),
            final(self).offer_registry() == old(self).offer_registry(),
            old(self).wf() ==> final(self).wf(),
    {
        self.sources.remove(&id.0);
        let was_selection = match self.selection {
            Some(s) => s.0 == id.0,
            None => false,
        };
        if was_selection {
            self.selection = None;
        }
        let was_drag = match self.dnd_source {
            Some(s) => s.0 == id.0,
            None => false,
        };
        if was_drag {
            self.dnd_source = None;
        }
        assert(self.sources() == old(self).sources().remove(id.0));
        assert(self.offers() == old(self).offers());
    }

    /// Set the clipboard selection
    pub fn set_selection(&mut self, source_id: Option<DataSourceId>, _serial: u32)
        ensures
            final(self).selection_id() == source_id,
            final(self).sources() == old(self).sources(),
            final(self).offers() == old(self).offers(),
            final(self).drag_source() == old(self).drag_source(),
            final(self).drag_focus() == old(self).drag_focus(),
            final(self).source_registry() == old(self).source_registry(),
            final(self).offer_registry() == old(self).offer_registry(),
            old(self).wf() ==> final(self).wf(),
    {
        self.selection = source_id;
        assert(self.sources() == old(self).sources());
        assert(self.offers() == old(self).offers());
    }

    /// The source that is the selection, where it exists.
    pub open spec fn selected(&self) -> Option<DataSource> {
        match self.selection_id() {
            Some(id) => if self.sources().contains_key(id.0) {
                Some(self.sources()[id.0])
            } else {
                None
            },
            None => None,
        }
    }

    /// Get the current selection
    pub fn selection(&self) -> (r: Option<&DataSource>)
        ensures
            match r {
                Some(s) => self.selected() == Some(*s),
                None => self.selected() is None,
            },
    {
        match self.selection {
            Some(id) => self.sources.get(&id.0),
            None => None,
        }
    }

    /// Start a drag operation
    pub fn start_drag(
        &mut self,
        source_id: Option<DataSourceId>,
        _origin: SurfaceId,
        _icon: Option<SurfaceId>,
        _serial: u32,
    )
        ensures
            final(self).drag_source() == source_id,
            final(self).sources() == old(self).sources(),
            final(self).offers() == old(self).offers(),
            final(self).selection_id() == old(self).selection_id(),
            final(self).drag_focus() == old(self).drag_focus(),
            final(self).source_registry() == old(self).source_registry(),
            final(self).offer_registry() == old(self).offer_registry(),
            old(self).wf() ==> final(self).wf(),
    {
        self.dnd_source = source_id;
        assert(self.sources() == old(self).sources());
        assert(self.offers() == old(self).offers());
    }

    /// Create an offer for a surface: an offer of what the source offers.
    /// There is none where the source does not exist.
    pub fn create_offer(&mut self, source_id: DataSourceId) -> (r: Option<DataOfferId>)
        requires
            old(self).wf(),
            old(self).offer_registry().has_room(),
        ensures
            final(self).same_but_offers(old(self)),
            match r {
                Some(id) => {
                    let source = old(self).sources()[source_id.0];
                    &&& old(self).sources().contains_key(source_id.0)
                    &&& id.0 == old(self).offer_registry().next_id()
                    &&& !old(self).offers().contains_key(id.0)
                    &&& final(self).offers().dom() == old(self).offers().dom().insert(id.0)
                    &&& final(self).offers()[id.0].id == id
                    &&& final(self).offers()[id.0].source_id == source_id
                    &&& final(self).offers()[id.0].mime_types@ == source.mime_types@
                    &&& final(self).offers()[id.0].source_actions == source.dnd_actions
                    &&& final(self).offers()[id.0].preferred_action == DndAction::NoAction
                    &&& final(self).offers()[id.0].action == DndAction::NoAction
                    &&& forall|k: u64|
                        old(self).offers().contains_key(k) ==> final(self).offers()[k] == old(self).offers()[k]
                    &&& final(self).offer_registry().next_id() == old(self).offer_registry().next_id() + 1
                },
                None => {
                    &&& !old(self).sources().contains_key(source_id.0)
                    &&& final(self).offers() == old(self).offers()
                    &&& final(self).offer_registry() == old(self).offer_registry()
                },
            },
            final(self).wf(),
    {
        let offer = match self.sources.get(&source_id.0) {
            Some(source) => DataOffer::new(&mut self.offer_ids, source),
            None => {
                return None;
            },
        };
        let id = offer.id;
        self.offers.insert(id.0, offer);
        assert(self.offers() == old(self).offers().insert(id.0, offer));
        assert(self.sources() == old(self).sources());
        Some(id)
    }

    /// Get an offer
    pub fn get_offer(&self, id: DataOfferId) -> (r: Option<&DataOffer>)
        ensures
            match r {
                Some(o) => self.offers().contains_key(id.0) && *o == self.offers()[id.0],
                None => !self.offers().contains_key(id.0),
            },
    {
        self.offers.get(&id.0)
    }

    /// Get a mutable offer
    pub fn get_offer_mut(&mut self, id: DataOfferId) -> (r: Option<&mut DataOffer>)
        ensures
            final(self).same_but_offers(old(self)),
            final(self).offer_registry() == old(self).offer_registry(),
            match r {
                Some(o) => {
                    &&& old(self).offers().contains_key(id.0)
                    &&& *o == old(self).offers()[id.0]
                    &&& final(self).offers() == old(self).offers().insert(id.0, *final(o))
                },
                None => {
                    &&& !old(self).offers().contains_key(id.0)
                    &&& final(self).offers() == old(self).offers()
                },
            },
    {
        match self.offers.entry(id.0) {
            Entry::Occupied(e) => Some(e.into_mut()),
            Entry::Vacant(_) => None,
        }
    }

    /// Destroy an offer
    pub fn destroy_offer(&mut self, id: DataOfferId)
        ensures
            final(self).offers() == old(self).offers().remove(id.0),
            final(self).same_but_offers(old(self)),
            final(self).offer_registry() == old(self).offer_registry(),
            old(self).wf() ==> final(self).wf(),
    {
        self.offers.remove(&id.0);
        assert(self.offers() == old(self).offers().remove(id.0));
        assert(self.sources() == old(self).sources());
    }
}

impl Default for DataDeviceHandler {
    fn default() -> (h: Self)
        ensures
            h.sources() == Map::<u64, DataSource>::empty(),
            h.offers() == Map::<u64, DataOffer>::empty(),
            h.selection_id() is None,
            h.wf(),
    {
        DataDeviceHandler::new()
    }
}

} // verus!
