use ticket_payment::registry::{
    event_exists, get_admin, get_event, get_organizer_events, get_platform_fee, has_platform_fee,
    set_admin, set_platform_fee, store_event, RegistryStore,
};
use ticket_payment::table::Table;
use ticket_payment::types::EventInfo;

fn event(id: &str, organizer: &str) -> EventInfo {
    EventInfo {
        event_id: id.to_string(),
        organizer_address: organizer.to_string(),
        payment_address: "PAY".to_string(),
        platform_fee_percent: 500,
        is_active: true,
        created_at: 0,
        metadata_cid: "cid".to_string(),
        max_supply: 100,
        current_supply: 0,
        milestone_plan: None,
        tiers: Table::new(),
    }
}

#[test]
fn admin_and_platform_fee() {
    let mut store = RegistryStore::new();
    assert_eq!(get_admin(&store), None);
    assert!(!has_platform_fee(&store));
    assert_eq!(get_platform_fee(&store), 0);
    set_admin(&mut store, &"ADMIN".to_string());
    set_platform_fee(&mut store, 250);
    assert_eq!(get_admin(&store), Some("ADMIN".to_string()));
    assert!(has_platform_fee(&store));
    assert_eq!(get_platform_fee(&store), 250);
}

#[test]
fn organizer_events_are_deduplicated_in_order() {
    let mut store = RegistryStore::new();
    store_event(&mut store, event("e1", "ORG"));
    store_event(&mut store, event("e2", "ORG"));
    let mut updated = event("e1", "ORG");
    updated.is_active = false;
    store_event(&mut store, updated);
    store_event(&mut store, event("e3", "OTHER"));
    assert_eq!(get_organizer_events(&store, &"ORG".to_string()), vec!["e1".to_string(), "e2".to_string()]);
    assert_eq!(get_organizer_events(&store, &"OTHER".to_string()), vec!["e3".to_string()]);
    assert!(get_organizer_events(&store, &"NOBODY".to_string()).is_empty());
    assert!(event_exists(&store, &"e1".to_string()));
    assert!(!event_exists(&store, &"e9".to_string()));
    assert!(!get_event(&store, &"e1".to_string()).unwrap().is_active);
}

#[test]
fn payment_info_of_stored_event() {
    let mut store = RegistryStore::new();
    store_event(&mut store, event("e1", "ORG"));
    let info = ticket_payment::registry::get_event_payment_info(&store, &"e1".to_string()).unwrap();
    assert_eq!(info.payment_address, "PAY".to_string());
    assert_eq!(info.platform_fee_percent, 500);
    assert!(ticket_payment::registry::get_event_payment_info(&store, &"e2".to_string()).is_none());
}
