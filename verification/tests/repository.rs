use std::path::Path;
use std::sync::Mutex;

use git2::{Oid, Repository, Signature, Sort};
use gitevents_sdk::git::generic::{GitGeneric, PollStep, SyncState};
use gitevents_sdk::git::{GitEvent, SourceError};
use gitevents_sdk::storage::volatile::InnerVolatileStorage;
use gitevents_sdk::storage::{Storage, StorageError};

/// The volatile storage with the directories left to `git2`, which creates
/// the workspace when it clones.
struct DiskStorage {
    inner: Mutex<InnerVolatileStorage>,
}

impl DiskStorage {
    fn new() -> Self {
        DiskStorage { inner: Mutex::new(InnerVolatileStorage::new("/tmp")) }
    }
}

impl Storage for DiskStorage {
    fn existing(&self) -> Result<Option<String>, StorageError> {
        let inner = self.inner.lock().unwrap();
        let present = match inner.first() {
            Some(path) => Path::new(path).exists(),
            None => false,
        };
        inner.existing(present)
    }

    fn allocate(&self) -> Result<String, StorageError> {
        let mut inner = self.inner.lock().unwrap();
        match inner.propose() {
            Some(path) => inner.allocate(path),
            None => Err(StorageError::Io("no free path was drawn".to_string())),
        }
    }
}

fn origin() -> (String, Repository) {
    let path = InnerVolatileStorage::new("/tmp").propose().unwrap();
    let repo = Repository::init(&path).unwrap();
    (path, repo)
}

fn commit(repo: &Repository, message: &str) -> Oid {
    let signature = Signature::now("tester", "tester@example.org").unwrap();
    let tree_id = repo.treebuilder(None).unwrap().write().unwrap();
    let tree = repo.find_tree(tree_id).unwrap();
    let parents = match repo.head() {
        Ok(head) => vec![head.peel_to_commit().unwrap()],
        Err(_) => Vec::new(),
    };
    let parents: Vec<&git2::Commit> = parents.iter().collect();
    repo.commit(Some("HEAD"), &signature, &signature, message, &tree, &parents).unwrap()
}

fn pull(workspace: &str) {
    let repo = Repository::open(workspace).unwrap();
    let refspecs: [&str; 0] = [];
    repo.find_remote("origin").unwrap().fetch(&refspecs, None, None).unwrap();
    let head = repo.head().unwrap();
    let branch = head.shorthand().unwrap().to_string();
    let fetched = repo
        .find_reference(&format!("refs/remotes/origin/{}", branch))
        .unwrap()
        .target()
        .unwrap();
    repo.reference(head.name().unwrap(), fetched, true, "pull").unwrap();
}

fn first_new(workspace: &str, since: Oid) -> Option<Oid> {
    let repo = Repository::open(workspace).unwrap();
    let head = repo.head().unwrap().target().unwrap();
    let mut walk = repo.revwalk().unwrap();
    walk.set_sorting(Sort::NONE).unwrap();
    walk.push_range(&format!("{}..{}", since, head)).unwrap();
    walk.next().map(|found| found.unwrap())
}

/// One poll, with `git2` in the place of the `git` program.
fn poll(source: &mut GitGeneric<DiskStorage>) -> Result<Option<GitEvent>, SourceError> {
    source.listen(|step: &PollStep| match step {
        PollStep::Materialize { url, workspace } => {
            let repo = Repository::clone(url, workspace).map_err(SourceError::Repository)?;
            let head = repo.head().map_err(SourceError::Repository)?;
            Ok(head.target())
        },
        PollStep::Refresh { workspace, since } => {
            pull(workspace);
            Ok(first_new(workspace, *since))
        },
    })
}

fn known(source: &GitGeneric<DiskStorage>) -> Option<String> {
    match source.progress() {
        SyncState::Unseen => None,
        SyncState::Tracking(revision) => Some(revision.clone()),
    }
}

#[test]
fn test_can_listen_to_repo() {
    let (path, repo) = origin();
    commit(&repo, "initial file");
    let second = commit(&repo, "next commit");

    let mut git = GitGeneric::new(path, DiskStorage::new());
    let event = poll(&mut git).unwrap();

    assert!(event.is_none());
    assert_eq!(known(&git), Some(second.to_string()));

    let third = commit(&repo, "next commit 3");

    let event = poll(&mut git).unwrap();

    assert!(event.is_some());
    assert_eq!(event.unwrap().commit, third.to_string());
    assert_eq!(known(&git), Some(third.to_string()));

    let fourth = commit(&repo, "next commit 4");

    let event = poll(&mut git).unwrap();

    assert!(event.is_some());
    assert_eq!(event.unwrap().commit, fourth.to_string());
    assert_eq!(known(&git), Some(fourth.to_string()));
}

#[test]
fn second_poll_without_changes_reuses_the_workspace() {
    let (path, repo) = origin();
    let head = commit(&repo, "only commit");

    let storage = DiskStorage::new();
    let mut git = GitGeneric::new(path, storage);
    assert!(poll(&mut git).unwrap().is_none());
    assert_eq!(known(&git), Some(head.to_string()));

    match git.begin() {
        Ok(PollStep::Refresh { since, .. }) => assert_eq!(since, head),
        _ => panic!("a pull was due, not a second clone"),
    }
    for _ in 0..2 {
        assert!(poll(&mut git).unwrap().is_none());
        assert_eq!(known(&git), Some(head.to_string()));
    }
}

#[test]
fn event_carries_the_workspace_that_was_cloned_into() {
    let (path, repo) = origin();
    commit(&repo, "first");
    let mut git = GitGeneric::new(path, DiskStorage::new());
    let workspace = match git.begin().unwrap() {
        PollStep::Materialize { url, workspace } => {
            let cloned = Repository::clone(&url, &workspace).unwrap();
            git.complete_materialize(cloned.head().unwrap().target()).unwrap();
            workspace
        },
        _ => panic!("a clone was due"),
    };
    assert!(Path::new(&workspace).exists());
    let next = commit(&repo, "second");
    let event = poll(&mut git).unwrap().unwrap();
    assert_eq!(event.path, workspace);
    assert_eq!(event.commit, next.to_string());
}

#[test]
fn unreachable_locator_fails_and_leaves_the_source_unseen() {
    let mut git = GitGeneric::new("/tmp/gitevents/no-such-repository".to_string(), DiskStorage::new());
    for _ in 0..2 {
        assert!(matches!(poll(&mut git), Err(SourceError::Repository(_))));
        assert_eq!(known(&git), None);
    }
}

#[test]
fn failed_clone_is_tried_again_at_the_next_poll() {
    let path = InnerVolatileStorage::new("/tmp").propose().unwrap();
    let mut git = GitGeneric::new(path.clone(), DiskStorage::new());
    assert!(matches!(poll(&mut git), Err(SourceError::Repository(_))));
    assert_eq!(known(&git), None);

    let repo = Repository::init(&path).unwrap();
    let head = commit(&repo, "late");
    assert!(poll(&mut git).unwrap().is_none());
    assert_eq!(known(&git), Some(head.to_string()));

    let next = commit(&repo, "later");
    assert_eq!(poll(&mut git).unwrap().unwrap().commit, next.to_string());
}
