use wayoa::compositor::surface::SurfaceId;
use wayoa::ids::IdRegistry;
use wayoa::protocol::data_device::{
    DataDeviceHandler, DataOffer, DataOfferId, DataSource, DataSourceId, DndAction, DndActions,
};

#[test]
fn test_data_source() {
    let mut ids = IdRegistry::new();
    let mut source = DataSource::new(&mut ids);
    source.offer("text/plain".to_string());
    source.offer("text/html".to_string());
    assert_eq!(source.mime_types.len(), 2);
}

#[test]
fn test_data_device_handler() {
    let mut handler = DataDeviceHandler::new();

    let source_id = handler.create_data_source();
    handler
        .get_source_mut(source_id)
        .unwrap()
        .offer("text/plain".to_string());

    handler.set_selection(Some(source_id), 1);
    assert!(handler.selection().is_some());

    let offer_id = handler.create_offer(source_id).unwrap();
    assert!(handler.get_offer(offer_id).is_some());
}

#[test]
fn test_dnd_action_negotiation() {
    let mut source_ids = IdRegistry::new();
    let mut offer_ids = IdRegistry::new();
    let mut source = DataSource::new(&mut source_ids);
    source.set_actions(DndActions::from_bits_truncate(DndActions::COPY | DndActions::MOVE));

    let mut offer = DataOffer::new(&mut offer_ids, &source);
    offer.set_actions(DndActions::from_bits_truncate(DndActions::COPY), DndAction::Copy);
    assert_eq!(offer.action, DndAction::Copy);
}

#[test]
fn a_mime_type_is_offered_once() {
    let mut ids = IdRegistry::new();
    let mut source = DataSource::new(&mut ids);
    source.offer("text/plain".to_string());
    source.offer("text/plain".to_string());
    source.offer("image/png".to_string());
    source.offer("text/plain".to_string());
    assert_eq!(source.mime_types, vec!["text/plain".to_string(), "image/png".to_string()]);
}

fn settle(source: u32, receiver: u32, preferred: DndAction) -> DndAction {
    let mut source_ids = IdRegistry::new();
    let mut offer_ids = IdRegistry::new();
    let mut data = DataSource::new(&mut source_ids);
    data.set_actions(DndActions::from_bits_truncate(source));
    let mut offer = DataOffer::new(&mut offer_ids, &data);
    offer.set_actions(DndActions::from_bits_truncate(receiver), preferred);
    assert_eq!(offer.preferred_action, preferred);
    offer.action
}

#[test]
fn negotiation_honours_the_preference_where_both_allow_it() {
    assert_eq!(settle(7, 7, DndAction::Move), DndAction::Move);
    assert_eq!(settle(7, 7, DndAction::Ask), DndAction::Ask);
    assert_eq!(settle(7, 7, DndAction::Copy), DndAction::Copy);
    assert_eq!(settle(3, 6, DndAction::Move), DndAction::Move);
}

#[test]
fn negotiation_falls_back_to_copy_then_move_then_ask() {
    assert_eq!(settle(7, 7, DndAction::NoAction), DndAction::Copy);
    assert_eq!(settle(6, 7, DndAction::Copy), DndAction::Move);
    assert_eq!(settle(4, 7, DndAction::Copy), DndAction::Ask);
    assert_eq!(settle(4, 4, DndAction::NoAction), DndAction::Ask);
    assert_eq!(settle(1, 6, DndAction::Copy), DndAction::NoAction);
    assert_eq!(settle(0, 7, DndAction::Move), DndAction::NoAction);
    assert_eq!(settle(7, 0, DndAction::Move), DndAction::NoAction);
}

#[test]
fn negotiated_action_is_allowed_by_both_sides() {
    let preferences = [DndAction::NoAction, DndAction::Copy, DndAction::Move, DndAction::Ask];
    for source in 0u32..8 {
        for receiver in 0u32..8 {
            for preferred in preferences {
                let bit = match settle(source, receiver, preferred) {
                    DndAction::NoAction => {
                        assert_eq!(source & receiver, 0);
                        continue;
                    }
                    DndAction::Copy => 1,
                    DndAction::Move => 2,
                    DndAction::Ask => 4,
                };
                assert_eq!(source & receiver & bit, bit);
            }
        }
    }
}

#[test]
fn action_sets_are_sets_of_bits() {
    assert_eq!(DndActions::empty().bits(), DndActions::NONE);
    assert_eq!(DndActions::from_bits_truncate(0xff).bits(), 7);
    let copy = DndActions::from_bits_truncate(DndActions::COPY);
    let ask = DndActions::from_bits_truncate(DndActions::ASK);
    let both = copy.union(ask);
    assert_eq!(both.bits(), 5);
    assert!(both.contains(copy) && both.contains(ask));
    assert!(!copy.contains(both));
    assert!(copy.contains(DndActions::empty()));
    assert_eq!(both.intersection(ask), ask);
    assert_eq!(copy.intersection(ask), DndActions::empty());
}

#[test]
fn offers_copy_their_source() {
    let mut handler = DataDeviceHandler::new();
    assert!(handler.create_offer(DataSourceId(1)).is_none());
    let source_id = handler.create_data_source();
    {
        let source = handler.get_source_mut(source_id).unwrap();
        source.offer("a/b".to_string());
        source.set_actions(DndActions::from_bits_truncate(DndActions::MOVE));
    }
    let offer_id = handler.create_offer(source_id).unwrap();
    let offer = handler.get_offer(offer_id).unwrap();
    assert_eq!(offer.source_id, source_id);
    assert_eq!(offer.mime_types, vec!["a/b".to_string()]);
    assert_eq!(offer.source_actions.bits(), 2);
    assert_eq!(offer.action, DndAction::NoAction);
    handler
        .get_offer_mut(offer_id)
        .unwrap()
        .set_actions(DndActions::from_bits_truncate(7), DndAction::Copy);
    assert_eq!(handler.get_offer(offer_id).unwrap().action, DndAction::Move);
    handler.get_offer_mut(offer_id).unwrap().accept(1, Some("a/b".to_string()));
    handler.get_offer(offer_id).unwrap().finish();
    handler.destroy_offer(offer_id);
    assert!(handler.get_offer(offer_id).is_none());
    assert!(handler.get_offer_mut(DataOfferId(9)).is_none());
}

#[test]
fn destroying_a_source_clears_the_selection() {
    let mut handler = DataDeviceHandler::new();
    assert!(handler.has_room_for_source() && handler.has_room_for_offer());
    let first = handler.create_data_source();
    let second = handler.create_data_source();
    assert_ne!(first, second);
    handler.set_selection(Some(first), 1);
    handler.start_drag(Some(first), SurfaceId(1), None, 2);
    handler.destroy_source(second);
    assert_eq!(handler.selection().unwrap().id, first);
    handler.destroy_source(first);
    assert!(handler.selection().is_none());
    assert!(handler.get_source(first).is_none());
    handler.set_selection(Some(DataSourceId(44)), 3);
    assert!(handler.selection().is_none());
}
