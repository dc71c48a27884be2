use gitevents_sdk::storage::volatile::{join, InnerVolatileStorage};
use gitevents_sdk::storage::StorageError;

const ID: u128 = 0xa1a2a3a4b1b2c1c2d1d2d3d4d5d6d7d8;

fn is_random_uuid_text(text: &str) -> bool {
    let chars: Vec<char> = text.chars().collect();
    chars.len() == 36
        && chars.iter().enumerate().all(|(i, c)| match i {
            8 | 13 | 18 | 23 => *c == '-',
            _ => c.is_ascii_digit() || ('a'..='f').contains(c),
        })
        && chars[14] == '4'
        && ['8', '9', 'a', 'b'].contains(&chars[19])
}

#[test]
fn join_puts_a_slash_between() {
    assert_eq!(join("/tmp", "gitevents/storage"), "/tmp/gitevents/storage");
    assert_eq!(join("", "x"), "/x");
    assert_eq!(join("a", ""), "a/");
}

#[test]
fn storage_root_is_named_by_its_identifier() {
    let storage = InnerVolatileStorage::with_id("/tmp", ID);
    assert_eq!(storage.dir, "/tmp/gitevents/storage/a1a2a3a4-b1b2-c1c2-d1d2-d3d4d5d6d7d8");
    assert!(storage.paths.is_empty());
    let low = InnerVolatileStorage::with_id("/var/tmp", 0x1f);
    assert_eq!(low.dir, "/var/tmp/gitevents/storage/00000000-0000-0000-0000-00000000001f");
}

#[test]
fn test_create_volatile_storage() {
    let storage = InnerVolatileStorage::new("/tmp");
    let name = storage.dir.strip_prefix("/tmp/gitevents/storage/").unwrap();
    assert!(is_random_uuid_text(name));
    assert!(storage.paths.is_empty());
    assert!(storage.first().is_none());
}

#[test]
fn test_volatile_storage_is_created_and_cleaned_up() {
    let mut storage = InnerVolatileStorage::new("/tmp");
    let proposed = storage.propose().unwrap();
    let allocated = storage.allocate(proposed.clone()).unwrap();
    assert_eq!(allocated, proposed);

    assert!(storage.dir.starts_with("/tmp/gitevents/storage/"));
    assert_eq!(storage.paths.first().unwrap(), &proposed);
    assert_eq!(storage.existing(true).unwrap(), Some(proposed));
}

#[test]
fn two_storages_have_roots_of_their_own() {
    let one = InnerVolatileStorage::new("/tmp");
    let other = InnerVolatileStorage::new("/tmp");
    assert_ne!(one.dir, other.dir);
}

#[test]
fn workspace_is_named_by_its_identifier() {
    let storage = InnerVolatileStorage::with_id("/tmp", 0);
    assert_eq!(
        storage.workspace_for(ID),
        "/tmp/gitevents/storage/00000000-0000-0000-0000-000000000000/a1a2a3a4-b1b2-c1c2-d1d2-d3d4d5d6d7d8"
    );
    assert_eq!(
        storage.workspace_for(u128::MAX),
        "/tmp/gitevents/storage/00000000-0000-0000-0000-000000000000/ffffffff-ffff-ffff-ffff-ffffffffffff"
    );
}

#[test]
fn proposed_workspaces_lie_under_the_root_and_differ() {
    let storage = InnerVolatileStorage::with_id("/tmp", ID);
    let one = storage.propose().unwrap();
    let other = storage.propose().unwrap();
    let prefix = format!("{}/", storage.dir);
    assert!(is_random_uuid_text(one.strip_prefix(&prefix).unwrap()));
    assert!(is_random_uuid_text(other.strip_prefix(&prefix).unwrap()));
    assert_ne!(one, other);
    assert!(storage.paths.is_empty());
}

#[test]
fn lookup_without_a_workspace_finds_nothing() {
    let storage = InnerVolatileStorage::with_id("/tmp", ID);
    assert_eq!(storage.existing(true).unwrap(), None);
    assert_eq!(storage.existing(false).unwrap(), None);
}

#[test]
fn lookup_finds_the_first_workspace() {
    let mut storage = InnerVolatileStorage::with_id("/tmp", ID);
    assert_eq!(storage.allocate("/tmp/one".to_string()).unwrap(), "/tmp/one");
    assert_eq!(storage.first(), Some(&"/tmp/one".to_string()));
    assert_eq!(storage.existing(true).unwrap(), Some("/tmp/one".to_string()));
    storage.allocate("/tmp/two".to_string()).unwrap();
    assert_eq!(storage.paths, vec!["/tmp/one".to_string(), "/tmp/two".to_string()]);
    assert_eq!(storage.existing(true).unwrap(), Some("/tmp/one".to_string()));
}

#[test]
fn lookup_fails_loudly_when_the_directory_is_gone() {
    let mut storage = InnerVolatileStorage::with_id("/tmp", ID);
    storage.allocate("/tmp/one".to_string()).unwrap();
    match storage.existing(false) {
        Err(StorageError::Missing(path)) => assert_eq!(path, "/tmp/one"),
        _ => panic!("the missing directory was to be reported"),
    }
}

#[test]
fn no_workspace_is_handed_out_twice() {
    let mut storage = InnerVolatileStorage::with_id("/tmp", ID);
    assert!(storage.is_free(&"/tmp/one".to_string()));
    storage.allocate("/tmp/one".to_string()).unwrap();
    assert!(!storage.is_free(&"/tmp/one".to_string()));
    match storage.allocate("/tmp/one".to_string()) {
        Err(StorageError::Taken(path)) => assert_eq!(path, "/tmp/one"),
        _ => panic!("the path was taken"),
    }
    assert_eq!(storage.paths, vec!["/tmp/one".to_string()]);
    storage.allocate("/tmp/two".to_string()).unwrap();
    match storage.allocate("/tmp/one".to_string()) {
        Err(StorageError::Taken(path)) => assert_eq!(path, "/tmp/one"),
        _ => panic!("the path was taken"),
    }
    assert_eq!(storage.paths, vec!["/tmp/one".to_string(), "/tmp/two".to_string()]);
}

#[test]
fn root_is_no_workspace() {
    let mut storage = InnerVolatileStorage::with_id("/tmp", ID);
    let root = storage.dir.clone();
    assert!(!storage.is_free(&root));
    match storage.allocate(root.clone()) {
        Err(StorageError::Taken(path)) => assert_eq!(path, root),
        _ => panic!("the root was to be refused"),
    }
    assert!(storage.paths.is_empty());
}

#[test]
fn proposed_workspace_is_free() {
    let mut storage = InnerVolatileStorage::with_id("/tmp", ID);
    for _ in 0..20 {
        let path = storage.propose().unwrap();
        assert!(storage.is_free(&path));
        assert_eq!(storage.allocate(path.clone()).unwrap(), path);
        assert!(!storage.is_free(&path));
    }
    let mut seen = storage.paths.clone();
    seen.sort();
    seen.dedup();
    assert_eq!(seen.len(), 20);
}
