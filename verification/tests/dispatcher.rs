use gitevents_sdk::bus::EventBus;
use gitevents_sdk::dispatch::Dispatcher;
use gitevents_sdk::git::GitEvent;

fn event(commit: &str) -> GitEvent {
    GitEvent { commit: commit.to_string(), path: "/w".to_string() }
}

#[test]
fn fan_out_has_one_invocation_per_handler() {
    let mut bus = EventBus::new(2);
    bus.push(event("e1")).unwrap();
    let mut dispatcher = Dispatcher::new();
    let fan = dispatcher.next(&mut bus, &vec![7, 9, 11]).unwrap();
    assert_eq!(fan.event.commit, "e1");
    assert_eq!(fan.invocations.len(), 3);
    assert_eq!(fan.invocations[0].handler, 7);
    assert_eq!(fan.invocations[1].handler, 9);
    assert_eq!(fan.invocations[2].handler, 11);
    for invocation in &fan.invocations {
        assert_eq!(invocation.request.git.commit, "e1");
        assert_eq!(invocation.request.git.path, "/w");
    }
    assert!(bus.is_empty());
    assert!(!dispatcher.is_idle());
}

#[test]
fn next_event_waits_for_the_last_report() {
    let mut bus = EventBus::new(2);
    bus.push(event("e1")).unwrap();
    bus.push(event("e2")).unwrap();
    let handlers = vec![1u128, 2u128];
    let mut dispatcher = Dispatcher::new();
    assert!(dispatcher.next(&mut bus, &handlers).is_some());
    assert!(dispatcher.next(&mut bus, &handlers).is_none());
    assert_eq!(bus.len(), 1);
    assert!(dispatcher.complete(2, true));
    assert!(dispatcher.next(&mut bus, &handlers).is_none());
    assert_eq!(bus.len(), 1);
    assert!(dispatcher.complete(1, true));
    assert!(dispatcher.is_idle());
    let second = dispatcher.next(&mut bus, &handlers).unwrap();
    assert_eq!(second.event.commit, "e2");
    assert_eq!(second.invocations.len(), 2);
    assert_eq!(bus.len(), 0);
}

#[test]
fn failure_is_noted_and_stops_nothing() {
    let mut bus = EventBus::new(2);
    bus.push(event("e1")).unwrap();
    bus.push(event("e2")).unwrap();
    let handlers = vec![1u128, 2u128, 3u128];
    let mut dispatcher = Dispatcher::new();
    dispatcher.next(&mut bus, &handlers).unwrap();
    assert!(dispatcher.complete(1, true));
    assert!(dispatcher.complete(2, false));
    assert!(!dispatcher.is_idle());
    assert!(dispatcher.complete(3, true));
    assert!(dispatcher.is_idle());
    assert_eq!(dispatcher.failures(), &vec![2u128]);
    let second = dispatcher.next(&mut bus, &handlers).unwrap();
    assert_eq!(second.event.commit, "e2");
    assert!(dispatcher.failures().is_empty());
}

#[test]
fn report_for_an_unknown_handler_is_ignored() {
    let mut bus = EventBus::new(2);
    bus.push(event("e1")).unwrap();
    let mut dispatcher = Dispatcher::new();
    dispatcher.next(&mut bus, &vec![5u128]).unwrap();
    assert!(!dispatcher.complete(6, false));
    assert!(!dispatcher.is_idle());
    assert!(dispatcher.failures().is_empty());
    assert!(dispatcher.complete(5, true));
    assert!(!dispatcher.complete(5, true));
    assert!(dispatcher.is_idle());
}

#[test]
fn empty_bus_gives_no_fan_out() {
    let mut bus = EventBus::new(2);
    let mut dispatcher = Dispatcher::new();
    assert!(dispatcher.next(&mut bus, &vec![1u128]).is_none());
    assert!(dispatcher.is_idle());
}

#[test]
fn event_without_handlers_is_taken_off_the_bus() {
    let mut bus = EventBus::new(2);
    bus.push(event("e1")).unwrap();
    let mut dispatcher = Dispatcher::new();
    let fan = dispatcher.next(&mut bus, &Vec::new()).unwrap();
    assert_eq!(fan.event.commit, "e1");
    assert!(fan.invocations.is_empty());
    assert!(dispatcher.is_idle());
    assert!(bus.is_empty());
}
