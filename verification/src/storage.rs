//! Workspaces: the on-disk directories that back polled sources.

use vstd::prelude::*;

pub mod volatile;

verus! {

/// Why a workspace could not be looked up or created.
#[derive(Debug)]
pub enum StorageError {
    /// A workspace was recorded earlier, but its directory is no longer there.
    Missing(String),
    /// The filesystem refused to create the directory; the text says why.
    Io(String),
    /// The path is the storage's root or a workspace handed out before.
    Taken(String),
}

/// The workspace of one source.
///
/// After `allocate` has succeeded, `existing` is expected to report the same
/// path until the storage is torn down.
pub trait Storage {
    /// The workspace allocated earlier, if there is one.
    fn existing(&self) -> Result<Option<String>, StorageError>;

    /// Creates a fresh, uniquely named workspace and returns its path.
    fn allocate(&self) -> Result<String, StorageError>;
}

} // verus!
