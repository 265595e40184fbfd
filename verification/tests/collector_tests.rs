use scaffolder::collector::{set_properties, set_properties_step, CollectEvent};
use scaffolder::models::Property;
use scaffolder::properties::PropertyMap;

#[test]
fn collector_adds_each_distinct_name() {
    let mut map = PropertyMap::new();
    let events = vec![
        CollectEvent::Add(String::from("price"), Property::Number),
        CollectEvent::Add(String::from("name"), Property::String),
        CollectEvent::Decline,
    ];
    set_properties(&mut map, &events);
    assert_eq!(map.len(), 2);
    assert_eq!(map.get(&String::from("price")), Some(Property::Number));
    assert_eq!(map.get(&String::from("name")), Some(Property::String));
}

#[test]
fn duplicate_names_overwrite_not_append() {
    let mut map = PropertyMap::new();
    let events = vec![
        CollectEvent::Add(String::from("price"), Property::Number),
        CollectEvent::Add(String::from("price"), Property::Date),
        CollectEvent::Decline,
    ];
    set_properties(&mut map, &events);
    assert_eq!(map.len(), 1);
    assert_eq!(map.get(&String::from("price")), Some(Property::Date));
}

#[test]
fn abort_terminates_with_nothing_added() {
    let mut map = PropertyMap::new();
    let events = vec![
        CollectEvent::Abort,
        CollectEvent::Add(String::from("price"), Property::Number),
    ];
    set_properties(&mut map, &events);
    assert_eq!(map.len(), 0);
}

#[test]
fn events_after_decline_are_ignored() {
    let mut map = PropertyMap::new();
    let events = vec![
        CollectEvent::Decline,
        CollectEvent::Add(String::from("price"), Property::Number),
    ];
    set_properties(&mut map, &events);
    assert_eq!(map.len(), 0);
}

#[test]
fn raw_names_are_normalized_on_insertion() {
    let mut map = PropertyMap::new();
    let events = vec![
        CollectEvent::Add(String::from("  my prop \n"), Property::Related),
        CollectEvent::Decline,
    ];
    set_properties(&mut map, &events);
    assert_eq!(map.len(), 1);
    assert_eq!(map.get(&String::from("my_prop")), Some(Property::Related));
}

#[test]
fn whitespace_only_name_adds_nothing() {
    let mut map = PropertyMap::new();
    let events = vec![
        CollectEvent::Add(String::from(" \n"), Property::String),
        CollectEvent::Decline,
    ];
    set_properties(&mut map, &events);
    assert_eq!(map.len(), 0);
}

#[test]
fn step_reports_done_only_on_decline_or_abort() {
    let mut map = PropertyMap::new();
    assert!(!set_properties_step(
        &mut map,
        &CollectEvent::Add(String::from("size"), Property::Number)
    ));
    assert!(set_properties_step(&mut map, &CollectEvent::Decline));
    assert!(set_properties_step(&mut map, &CollectEvent::Abort));
    assert_eq!(map.len(), 1);
}

#[test]
fn insertion_order_is_kept_and_overwrite_keeps_position() {
    let mut map = PropertyMap::new();
    map.insert(String::from("b"), Property::String);
    map.insert(String::from("a"), Property::Number);
    map.insert(String::from("b"), Property::Date);
    assert_eq!(map.len(), 2);
    assert_eq!(map.entries[0].0, "b");
    assert_eq!(map.entries[0].1, Property::Date);
    assert_eq!(map.entries[1].0, "a");
}
