//! The compositor's state as a whole: surfaces, windows, outputs, the
//! seat, the connected clients and the serial counter.

use std::collections::HashMap;
use vstd::prelude::*;
use crate::compositor::output::OutputManager;
use crate::compositor::surface::SurfaceManager;
use crate::compositor::window::WindowManager;
use crate::ids::IdRegistry;
use crate::input::seat::Seat;

verus! {

broadcast use vstd::std_specs::hash::group_hash_axioms;

/// Unique identifier for clients
#[derive(Debug, Clone, Copy, PartialEq, Eq, Hash, Structural)]
pub struct ClientId(pub u64);

impl ClientId {
    /// Takes the next unused identity from `ids`.
    pub fn new(ids: &mut IdRegistry) -> (id: Self)
        requires
            old(ids).wf(),
            old(ids).has_room(),
        ensures
            id.0 == old(ids).next_id(),
            !old(ids).issued().contains(id.0),
            final(ids).next_id() == old(ids).next_id() + 1,
            final(ids).wf(),
    {
        ClientId(ids.allocate())
    }
}

/// Per-client data
#[derive(Debug, Clone, Copy, PartialEq, Eq, Structural)]
pub struct ClientData {
    pub id: ClientId,
}

/// The serial that follows `serial` after `steps` more were issued. The
/// counter has 32 bits and wraps.
pub open spec fn serial_after(serial: u32, steps: nat) -> u32 {
    ((serial + steps) % 0x1_0000_0000) as u32
}

/// Whether `later` is newer than `earlier`, as serials are compared:
/// going on from `earlier`, `later` comes within the next 2³¹ − 1 steps.
pub open spec fn serial_newer(later: u32, earlier: u32) -> bool {
    0 < (later - earlier) % 0x1_0000_0000 < 0x8000_0000
}

/// A serial is newer than every serial that was issued less than 2³¹
/// steps before it.
pub proof fn lemma_serial_monotonic(earlier: u32, steps: nat)
    requires
        0 < steps < 0x8000_0000,
    ensures
        serial_newer(serial_after(earlier, steps), earlier),
{
    let sum = earlier + steps;
    let later = serial_after(earlier, steps);
    if sum < 0x1_0000_0000 {
        assert(later == sum);
        assert((later - earlier) % 0x1_0000_0000 == steps);
    } else {
        assert(later == sum - 0x1_0000_0000);
        assert(later - earlier == steps - 0x1_0000_0000);
        assert((steps - 0x1_0000_0000) % 0x1_0000_0000 == steps as int) by (nonlinear_arith)
            requires
                0 < steps < 0x8000_0000,
        ;
    }
}

/// Steps add up: going on `a` steps and then `b` steps is going on
/// `a + b` steps.
pub proof fn lemma_serial_after_add(serial: u32, a: nat, b: nat)
    ensures
        serial_after(serial_after(serial, a), b) == serial_after(serial, a + b),
{
    let m = 0x1_0000_0000int;
    assert(((serial + a) % m + b) % m == (serial + a + b) % m) by (nonlinear_arith)
        requires
            m == 0x1_0000_0000int,
            serial >= 0,
    ;
}

/// Of the serials that are issued one after the other from `start` on,
/// each is newer than every serial that was issued less than 2³¹ steps
/// before it.
pub proof fn lemma_later_serial_is_newer(start: u32, earlier: nat, later: nat)
    requires
        earlier < later,
        later - earlier < 0x8000_0000,
    ensures
        serial_newer(serial_after(start, later), serial_after(start, earlier)),
{
    lemma_serial_after_add(start, earlier, (later - earlier) as nat);
    lemma_serial_monotonic(serial_after(start, earlier), (later - earlier) as nat);
}

/// The global compositor state
///
/// This struct holds all the state needed to run the compositor,
/// including surfaces, windows, inputs, and outputs.
#[derive(Debug)]
pub struct CompositorState {
    /// Surface manager - tracks all wl_surfaces
    pub surfaces: SurfaceManager,
    /// Window manager - maps toplevels to native windows
    pub windows: WindowManager,
    /// Output manager - tracks displays/monitors
    pub outputs: OutputManager,
    /// Registry that issues the identities of outputs
    pub output_ids: IdRegistry,
    /// Input seat - manages keyboard, pointer, touch
    pub seat: Seat,
    /// Connected clients
    pub clients: HashMap<u64, ClientData>,
    /// Registry that issues the identities of clients
    pub client_ids: IdRegistry,
    /// Serial counter for Wayland events: the serial that `next_serial`
    /// hands out next
    pub serial: u32,
}

impl CompositorState {
    /// Every part is well formed, and every client is stored under its
    /// own identity, which the registry has issued.
    pub open spec fn wf(&self) -> bool {
        &&& self.surfaces.wf()
        &&& self.windows.wf()
        &&& self.outputs.wf()
        &&& self.output_ids.wf()
        &&& self.seat@.wf()
        &&& self.client_ids.wf()
        &&& forall|k: u64| #[trigger]
            self.clients@.contains_key(k) ==> self.clients@[k].id.0 == k
                && self.client_ids.issued().contains(k)
    }

    /// Create a new compositor state
    pub fn new() -> (s: Self)
        ensures
            s.surfaces@ == Map::<u64, crate::compositor::surface::Surface>::empty(),
            s.windows.windows() == Map::<u64, crate::compositor::window::Window>::empty(),
            s.windows.focused_id() is None,
            s.outputs.outputs() == Map::<u64, crate::compositor::output::Output>::empty(),
            s.clients@ == Map::<u64, ClientData>::empty(),
            s.serial == 1,
            s.wf(),
    {
        let s = CompositorState {
            surfaces: SurfaceManager::new(),
            windows: WindowManager::new(),
            outputs: OutputManager::new(),
            output_ids: IdRegistry::new(),
            seat: Seat::new(),
            clients: HashMap::new(),
            client_ids: IdRegistry::new(),
            serial: 1,
        };
        s
    }

    /// Get the next serial number for Wayland events. Serials count up
    /// from 1 and wrap after 2³² − 1.
    pub fn next_serial(&mut self) -> (serial: u32)
        ensures
            serial == old(self).serial,
            *final(self) == (CompositorState {
                serial: serial_after(old(self).serial, 1),
                ..*old(self)
            }),
            serial_newer(final(self).serial, serial),
            old(self).wf() ==> final(self).wf(),
    {
        let serial: u32 = self.serial;
        self.serial = self.serial.wrapping_add(1);
        proof {
            lemma_serial_monotonic(serial, 1);
        }
        serial
    }

    /// Whether another client can be registered.
    pub fn has_room_for_client(&self) -> (b: bool)
        ensures
            b == self.client_ids.has_room(),
    {
        self.client_ids.can_allocate()
    }

    /// Register a new client
    pub fn add_client(&mut self) -> (id: ClientId)
        requires
            old(self).wf(),
            old(self).client_ids.has_room(),
        ensures
            id.0 == old(self).client_ids.next_id(),
            !old(self).clients@.contains_key(id.0),
            final(self).clients@ == old(self).clients@.insert(id.0, ClientData { id }),
            final(self).client_ids.next_id() == old(self).client_ids.next_id() + 1,
            final(self).serial == old(self).serial,
            final(self).surfaces == old(self).surfaces,
            final(self).windows == old(self).windows,
            final(self).outputs == old(self).outputs,
            final(self).output_ids == old(self).output_ids,
            final(self).seat == old(self).seat,
            final(self).wf(),
    {
        let id = ClientId::new(&mut self.client_ids);
        self.clients.insert(id.0, ClientData { id });
        id
    }

    /// Remove a client
    pub fn remove_client(&mut self, id: ClientId)
        ensures
            final(self).clients@ == old(self).clients@.remove(id.0),
            final(self).client_ids == old(self).client_ids,
            final(self).serial == old(self).serial,
            final(self).surfaces == old(self).surfaces,
            final(self).windows == old(self).windows,
            final(self).outputs == old(self).outputs,
            final(self).output_ids == old(self).output_ids,
            final(self).seat == old(self).seat,
            old(self).wf() ==> final(self).wf(),
    {
        self.clients.remove(&id.0);
    }

    /// Get the number of connected clients
    pub fn client_count(&self) -> (n: usize)
        ensures
            n == self.clients@.len(),
    {
        self.clients.len()
    }
}

impl Default for CompositorState {
    fn default() -> (s: Self)
        ensures
            s.clients@ == Map::<u64, ClientData>::empty(),
            s.serial == 1,
            s.wf(),
    {
        CompositorState::new()
    }
}

} // verus!
