use message_bus::role::ActorTypes;
use message_bus::subscriptions::Subscriptions;

#[test]
fn a_new_table_has_no_subscription() {
    let table: Subscriptions<&str> = Subscriptions::new();
    assert!(!table.contains_key(&ActorTypes::ActorA));
    assert!(!table.contains_key(&ActorTypes::ActorB));
    assert_eq!(table.get(&ActorTypes::ActorA), None);
    assert_eq!(table.get(&ActorTypes::ActorB), None);
    assert!(!table.is_complete());
}

#[test]
fn a_subscription_is_found_under_its_role() {
    let mut table: Subscriptions<&str> = Subscriptions::new();
    assert_eq!(table.insert(ActorTypes::ActorB, "queue of b"), None);
    assert_eq!(table.get(&ActorTypes::ActorB), Some(&"queue of b"));
    assert_eq!(table.get(&ActorTypes::ActorA), None);
    assert!(table.contains_key(&ActorTypes::ActorB));
    assert!(!table.contains_key(&ActorTypes::ActorA));
    assert!(!table.is_complete());
}

#[test]
fn a_second_subscription_replaces_the_first() {
    let mut table: Subscriptions<String> = Subscriptions::new();
    assert_eq!(table.insert(ActorTypes::ActorA, "old".to_string()), None);
    assert_eq!(table.insert(ActorTypes::ActorA, "new".to_string()), Some("old".to_string()));
    assert_eq!(table.get(&ActorTypes::ActorA), Some(&"new".to_string()));
    assert_eq!(table.get(&ActorTypes::ActorB), None);
}

#[test]
fn a_table_with_every_role_is_complete() {
    let mut table: Subscriptions<u32> = Subscriptions::new();
    table.insert(ActorTypes::ActorA, 1);
    table.insert(ActorTypes::ActorB, 2);
    assert!(table.is_complete());
    assert_eq!(table.get(&ActorTypes::ActorA), Some(&1));
    assert_eq!(table.get(&ActorTypes::ActorB), Some(&2));
}

#[test]
fn routing_parts_targets_in_order() {
    let mut table: Subscriptions<u32> = Subscriptions::new();
    table.insert(ActorTypes::ActorB, 2);
    let routing = table.route(&vec![
        ActorTypes::ActorA,
        ActorTypes::ActorB,
        ActorTypes::ActorB,
        ActorTypes::ActorA,
    ]);
    assert_eq!(routing.served, vec![ActorTypes::ActorB, ActorTypes::ActorB]);
    assert_eq!(routing.missed, vec![ActorTypes::ActorA, ActorTypes::ActorA]);
}

#[test]
fn routing_an_empty_target_list_gives_nothing() {
    let mut table: Subscriptions<u32> = Subscriptions::new();
    table.insert(ActorTypes::ActorA, 1);
    let routing = table.route(&Vec::new());
    assert!(routing.served.is_empty());
    assert!(routing.missed.is_empty());
}

#[test]
fn a_complete_table_misses_no_target() {
    let mut table: Subscriptions<u32> = Subscriptions::new();
    table.insert(ActorTypes::ActorA, 1);
    table.insert(ActorTypes::ActorB, 2);
    let targets = vec![ActorTypes::ActorB, ActorTypes::ActorA];
    let routing = table.route(&targets);
    assert_eq!(routing.served, targets);
    assert!(routing.missed.is_empty());
}

#[test]
fn an_empty_table_serves_no_target() {
    let table: Subscriptions<u32> = Subscriptions::new();
    let targets = vec![ActorTypes::ActorA, ActorTypes::ActorB];
    let routing = table.route(&targets);
    assert!(routing.served.is_empty());
    assert_eq!(routing.missed, targets);
}
