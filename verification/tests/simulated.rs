use gitevents_sdk::git::simulated::GitSimulated;
use gitevents_sdk::git::{GitEvent, GitProvider};

fn event(commit: &str) -> GitEvent {
    GitEvent { commit: commit.to_string(), path: String::new() }
}

#[test]
fn simulated_source_starts_empty() {
    let mut source = GitSimulated::new();
    assert_eq!(source.remaining(), 0);
    assert!(source.listen().unwrap().is_none());
    assert!(source.listen().unwrap().is_none());
}

#[test]
fn simulated_source_yields_newest_first() {
    let mut source = GitSimulated::new()
        .insert(event("something1"))
        .insert(event("something2"))
        .insert(event("something3"));
    assert_eq!(source.remaining(), 3);
    assert_eq!(source.listen().unwrap().unwrap().commit, "something3");
    assert_eq!(source.listen().unwrap().unwrap().commit, "something2");
    assert_eq!(source.remaining(), 1);
    assert_eq!(source.listen().unwrap().unwrap().commit, "something1");
    assert_eq!(source.remaining(), 0);
}

#[test]
fn simulated_source_stays_empty_once_drained() {
    let mut source = GitSimulated::new().insert(event("only"));
    assert!(source.listen().unwrap().is_some());
    for _ in 0..5 {
        assert!(source.listen().unwrap().is_none());
        assert_eq!(source.remaining(), 0);
    }
}

#[test]
fn simulated_source_keeps_the_path_of_an_event() {
    let mut source = GitSimulated::new()
        .insert(GitEvent { commit: "abc".to_string(), path: "/work/space".to_string() });
    let yielded = source.listen().unwrap().unwrap();
    assert_eq!(yielded.commit, "abc");
    assert_eq!(yielded.path, "/work/space");
}

#[test]
fn boxed_source_polls_the_source_inside() {
    let mut source: Box<dyn GitProvider> = Box::new(GitSimulated::new().insert(event("boxed")));
    assert_eq!(source.listen().unwrap().unwrap().commit, "boxed");
    assert!(source.listen().unwrap().is_none());
}

#[test]
fn cloned_event_equals_its_source() {
    let source = GitEvent { commit: "c0ffee".to_string(), path: "/p".to_string() };
    let copy = source.clone();
    assert_eq!(copy.commit, source.commit);
    assert_eq!(copy.path, source.path);
}
