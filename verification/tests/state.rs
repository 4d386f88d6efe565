use wayoa::compositor::state::{ClientId, CompositorState};
use wayoa::ids::IdRegistry;

#[test]
fn test_client_id_unique() {
    let mut ids = IdRegistry::new();
    let id1 = ClientId::new(&mut ids);
    let id2 = ClientId::new(&mut ids);
    assert_ne!(id1, id2);
}

#[test]
fn test_compositor_state_new() {
    let state = CompositorState::new();
    assert_eq!(state.client_count(), 0);
}

#[test]
fn test_add_remove_client() {
    let mut state = CompositorState::new();
    let id = state.add_client();
    assert_eq!(state.client_count(), 1);
    state.remove_client(id);
    assert_eq!(state.client_count(), 0);
}

#[test]
fn test_serial_increments() {
    let mut state = CompositorState::new();
    let s1 = state.next_serial();
    let s2 = state.next_serial();
    assert!(s2 > s1);
}

#[test]
fn serials_count_up_from_one_and_wrap() {
    let mut state = CompositorState::new();
    assert_eq!(state.next_serial(), 1);
    assert_eq!(state.next_serial(), 2);
    state.serial = u32::MAX;
    assert_eq!(state.next_serial(), u32::MAX);
    assert_eq!(state.next_serial(), 0);
    assert_eq!(state.next_serial(), 1);
}

#[test]
fn identities_are_issued_in_order_and_never_twice() {
    let mut ids = IdRegistry::new();
    assert!(ids.can_allocate());
    let mut seen: Vec<u64> = Vec::new();
    for expected in 1..=100u64 {
        let id = ids.allocate();
        assert_eq!(id, expected);
        assert!(!seen.contains(&id));
        seen.push(id);
    }
}

#[test]
fn clients_get_identities_of_their_own() {
    let mut state = CompositorState::new();
    assert!(state.has_room_for_client());
    let a = state.add_client();
    let b = state.add_client();
    assert_ne!(a, b);
    assert_eq!(state.client_count(), 2);
    state.remove_client(ClientId(999));
    assert_eq!(state.client_count(), 2);
    state.remove_client(a);
    let c = state.add_client();
    assert_ne!(c, a);
    assert_ne!(c, b);
}
