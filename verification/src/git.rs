//! Sources of change events.

use vstd::prelude::*;
use crate::storage::StorageError;

pub mod generic;
pub mod history;
pub mod revision;
pub mod simulated;

verus! {

/// One detected unit of change: a revision and the workspace that holds it.
#[derive(Debug)]
pub struct GitEvent {
    pub commit: String,
    pub path: String,
}

/// What a [`GitEvent`] says: the text of its revision and of its path.
pub struct GitEventView {
    pub commit: Seq<char>,
    pub path: Seq<char>,
}

impl View for GitEvent {
    type V = GitEventView;

    open spec fn view(&self) -> GitEventView {
        GitEventView { commit: self.commit@, path: self.path@ }
    }
}

impl DeepView for GitEvent {
    type V = GitEventView;

    open spec fn deep_view(&self) -> GitEventView {
        self@
    }
}

impl Clone for GitEvent {
    fn clone(&self) -> (r: Self)
        ensures
            r == *self,
    {
        GitEvent { commit: self.commit.clone(), path: self.path.clone() }
    }
}

/// Why the poll of one source was abandoned. The source is polled again at
/// the next pass; other sources are not affected.
#[derive(Debug)]
pub enum SourceError {
    /// The tracked state and the workspace disagree: a source that tracks a
    /// revision has no workspace, or one that was never materialized has one.
    Inconsistency,
    /// The workspace could not be looked up or created.
    Storage(StorageError),
    /// Cloning or pulling failed; the text says why.
    Transport(String),
    /// The repository could not be read, or a revision is malformed.
    Repository(git2::Error),
    /// The repository's head points at no commit.
    UnbornHead,
}

/// The capability to poll a source for at most one new change.
pub trait GitProvider {
    fn listen(&mut self) -> Result<Option<GitEvent>, SourceError>;
}

/// A boxed source is a source.
impl<T: GitProvider + ?Sized> GitProvider for Box<T> {
    /// Polls the source inside: yields what its own poll yields, and
    /// leaves it as its own poll leaves it.
    fn listen(&mut self) -> (r: Result<Option<GitEvent>, SourceError>)
        ensures
            exists|inside: &mut T|
                {
                    &&& &*inside == &**old(self)
                    &&& &*final(inside) == &**final(self)
                    &&& #[trigger] call_ensures(T::listen, (inside,), r)
                },
    {
        poll(&mut **self)
    }
}

/// Polls `source`: the result and the change of the source are those of
/// one call of its `listen`.
pub fn poll<T: GitProvider + ?Sized>(source: &mut T) -> (r: Result<Option<GitEvent>, SourceError>)
    ensures
        exists|inside: &mut T|
            {
                &&& &*inside == &*old(source)
                &&& &*final(inside) == &*final(source)
                &&& #[trigger] call_ensures(T::listen, (inside,), r)
            },
{
    poll_through(T::listen, source)
}

/// Polls `source` with `poll`: the result and the change of the source are
/// those of one call of `poll` on it.
fn poll_through<
    T: GitProvider + ?Sized,
    F: FnOnce(&mut T) -> Result<Option<GitEvent>, SourceError>,
>(poll: F, source: &mut T) -> (r: Result<Option<GitEvent>, SourceError>)
    requires
        forall|inside: &mut T| call_requires(poll, (inside,)),
    ensures
        exists|inside: &mut T|
            {
                &&& &*inside == &*old(source)
                &&& &*final(inside) == &*final(source)
                &&& #[trigger] call_ensures(poll, (inside,), r)
            },
{
    poll(source)
}

} // verus!
