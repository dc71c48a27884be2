use gitevents_sdk::bus::EventBus;
use gitevents_sdk::git::GitEvent;

fn event(commit: &str) -> GitEvent {
    GitEvent { commit: commit.to_string(), path: "/w".to_string() }
}

#[test]
fn new_bus_is_empty() {
    let bus = EventBus::new(2);
    assert_eq!(bus.capacity(), 2);
    assert_eq!(bus.len(), 0);
    assert!(bus.is_empty());
    assert!(!bus.is_full());
}

#[test]
fn bus_hands_events_out_in_the_order_of_arrival() {
    let mut bus = EventBus::new(3);
    assert!(bus.push(event("a")).is_ok());
    assert!(bus.push(event("b")).is_ok());
    assert!(bus.push(event("c")).is_ok());
    assert_eq!(bus.len(), 3);
    assert_eq!(bus.pop().unwrap().commit, "a");
    assert_eq!(bus.pop().unwrap().commit, "b");
    assert_eq!(bus.pop().unwrap().commit, "c");
    assert!(bus.pop().is_none());
}

#[test]
fn full_bus_hands_the_event_back() {
    let mut bus = EventBus::new(2);
    assert!(bus.push(event("a")).is_ok());
    assert!(bus.push(event("b")).is_ok());
    assert!(bus.is_full());
    let back = bus.push(event("c")).unwrap_err();
    assert_eq!(back.commit, "c");
    assert_eq!(back.path, "/w");
    assert_eq!(bus.len(), 2);
    assert_eq!(bus.pop().unwrap().commit, "a");
    assert_eq!(bus.pop().unwrap().commit, "b");
    assert!(bus.pop().is_none());
}

#[test]
fn bus_takes_events_again_after_a_pop() {
    let mut bus = EventBus::new(1);
    assert!(bus.push(event("a")).is_ok());
    assert!(bus.push(event("b")).is_err());
    assert_eq!(bus.pop().unwrap().commit, "a");
    assert!(bus.is_empty());
    assert!(bus.push(event("b")).is_ok());
    assert_eq!(bus.len(), 1);
    assert_eq!(bus.pop().unwrap().commit, "b");
}

#[test]
fn pop_on_an_empty_bus_changes_nothing() {
    let mut bus = EventBus::new(4);
    assert!(bus.pop().is_none());
    assert_eq!(bus.len(), 0);
    assert_eq!(bus.capacity(), 4);
}
