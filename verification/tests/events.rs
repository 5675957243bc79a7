use monsim::ability::{AbilityDexEntry, AbilitySpecies};
use monsim::events::{EventFilteringOptions, EventHandler, EventHandlerSet, EventID, EventResponse};

fn flash_fire() -> AbilitySpecies {
    AbilitySpecies::from_dex_entry(AbilityDexEntry {
        dex_number: 1,
        name: "Flash Fire",
        event_handlers: EventHandlerSet::empty().with(
            EventID::OnTryMoveHit,
            EventHandler { response: EventResponse(1), event_filtering_options: EventFilteringOptions::default() },
        ),
        order: 0,
    })
}

#[test]
fn test_print_event_handler_set() {
    println!("{:#?}", flash_fire().event_handlers());
}

#[test]
fn event_handler_set_holds_one_handler_per_event() {
    let set = flash_fire().event_handlers();
    assert!(set.handler(EventID::OnTryMoveHit).is_some());
    assert!(set.handler(EventID::OnTryMove).is_none());
    assert!(EventHandlerSet::empty().handler(EventID::OnTurnEnd).is_none());
    assert_eq!(set.handler(EventID::OnTryMoveHit).unwrap().response, EventResponse(1));
}

#[test]
fn default_filtering_options() {
    let options = EventFilteringOptions::default();
    assert_eq!(options.only_if_broadcaster_is.bits, 0b0010_0110);
    assert_eq!(options.only_if_target_is.bits, 0b0000_1000);
    assert!(options.only_if_receiver_is_active);
}

#[test]
fn event_ids_are_numbered_in_order() {
    assert_eq!(EventID::OnTryMove.index(), 0);
    assert_eq!(EventID::OnTurnEnd.index(), 31);
}

#[test]
fn test_print_event_handler() {
    let event_handler = flash_fire().event_handlers().handler(EventID::OnTryMoveHit).unwrap();
    println!("{:?}", event_handler);
}
