//! Workspaces under a temporary root, gone when the process is.
//!
//! The storage here keeps the books: which directory is the root, which
//! workspaces were handed out, which of them is the source's own. Creating,
//! probing and removing directories is the caller's part.

use vstd::prelude::*;
use vstd::string::StringExecFns;
use crate::identity::{fresh_id, hyphenated, id_text, is_random_id};
use crate::storage::StorageError;

verus! {

/// The path of `name` under `base`.
pub open spec fn child_of(base: Seq<char>, name: Seq<char>) -> Seq<char> {
    base + seq!['/'] + name
}

/// The root of the storage with identifier `id` under `root`.
pub open spec fn storage_dir(root: Seq<char>, id: u128) -> Seq<char> {
    child_of(child_of(root, "gitevents/storage"@), hyphenated(id))
}

/// What a lookup answers: the first workspace handed out, if its directory
/// is there; nothing, if none was handed out; `Err` with the path, if the
/// directory is gone.
pub open spec fn located(paths: Seq<Seq<char>>, present: bool) -> Result<
    Option<Seq<char>>,
    Seq<char>,
> {
    if paths.len() == 0 {
        Ok(None)
    } else if present {
        Ok(Some(paths[0]))
    } else {
        Err(paths[0])
    }
}

/// The path of `name` under `base`.
pub fn join(base: &str, name: &str) -> (r: String)
    ensures
        r@ == child_of(base@, name@),
{
    proof {
        reveal_strlit("/");
    }
    let mut path = String::from_str(base);
    path.append("/");
    path.append(name);
    assert(path@ =~= child_of(base@, name@));
    path
}

pub struct InnerVolatileStorage {
    /// The root directory of this storage.
    pub dir: String,
    /// The workspaces handed out, oldest first.
    pub paths: Vec<String>,
}

impl InnerVolatileStorage {
    /// A storage whose root carries the identifier `id`, with no workspace
    /// yet.
    pub fn with_id(root: &str, id: u128) -> (r: Self)
        ensures
            r.dir@ == storage_dir(root@, id),
            r.paths@.len() == 0,
    {
        let base = join(root, "gitevents/storage");
        let dir = join(base.as_str(), id_text(id).as_str());
        InnerVolatileStorage { dir, paths: Vec::new() }
    }

    /// A storage with a root of its own under `root`, named by a freshly
    /// drawn identifier, with no workspace yet.
    pub fn new(root: &str) -> (r: Self)
        ensures
            exists|id: u128| is_random_id(id) && r.dir@ == #[trigger] storage_dir(root@, id),
            r.paths@.len() == 0,
    {
        let id = fresh_id();
        let storage = Self::with_id(root, id);
        assert(storage.dir@ == storage_dir(root@, id));
        storage
    }

    /// The path of the workspace with identifier `id`.
    pub fn workspace_for(&self, id: u128) -> (r: String)
        ensures
            r@ == child_of(self.dir@, hyphenated(id)),
    {
        join(self.dir.as_str(), id_text(id).as_str())
    }

    /// Every workspace was handed out once, and none is the root.
    pub open spec fn distinct(&self) -> bool {
        &&& self.paths.deep_view().no_duplicates()
        &&& !self.paths.deep_view().contains(self.dir@)
    }

    /// Whether `path` can be handed out: it is not the root and not a
    /// workspace handed out before.
    pub open spec fn free(&self, path: Seq<char>) -> bool {
        path != self.dir@ && !self.paths.deep_view().contains(path)
    }

    pub fn is_free(&self, path: &String) -> (r: bool)
        ensures
            r == self.free(path@),
    {
        if self.dir == *path {
            return false;
        }
        let mut i: usize = 0;
        while i < self.paths.len()
            invariant
                i <= self.paths.len(),
                path@ != self.dir@,
                forall|j: int| 0 <= j < i ==> self.paths.deep_view()[j] != path@,
            decreases self.paths.len() - i,
        {
            if self.paths[i] == *path {
                assert(self.paths.deep_view()[i as int] == path@);
                return false;
            }
            i = i + 1;
        }
        true
    }

    /// A path for a new workspace, named by a freshly drawn identifier.
    /// Nothing is recorded: the directory is to be created first. Should
    /// the draw hit a workspace handed out before, no path is proposed; a
    /// storage without workspaces always proposes one.
    pub fn propose(&self) -> (r: Option<String>)
        ensures
            match r {
                Some(path) => self.free(path@) && exists|id: u128|
                    is_random_id(id) && path@ == child_of(self.dir@, #[trigger] hyphenated(id)),
                None => self.paths@.len() > 0,
            },
    {
        let id = fresh_id();
        let path = self.workspace_for(id);
        assert(path@ == child_of(self.dir@, hyphenated(id)));
        assert(path@.len() > self.dir@.len());
        if self.is_free(&path) {
            Some(path)
        } else {
            None
        }
    }

    /// Records the workspace at `path`, whose directory was created, and
    /// returns the path. A path that is not free is refused and nothing is
    /// recorded, so that no workspace is ever handed out twice.
    pub fn allocate(&mut self, path: String) -> (r: Result<String, StorageError>)
        ensures
            final(self).dir == old(self).dir,
            old(self).free(path@) ==> r == Ok::<String, StorageError>(path) && final(self).paths@
                == old(self).paths@.push(path),
            !old(self).free(path@) ==> r == Err::<String, StorageError>(
                StorageError::Taken(path),
            ) && final(self).paths@ == old(self).paths@,
            old(self).distinct() ==> final(self).distinct(),
    {
        if self.is_free(&path) {
            self.paths.push(path.clone());
            proof {
                let before = old(self).paths.deep_view();
                let after = self.paths.deep_view();
                assert(after =~= before.push(path@));
                if old(self).distinct() {
                    assert forall|i: int, j: int|
                        0 <= i < after.len() && 0 <= j < after.len() && i != j implies after[i]
                        != after[j] by {
                        if i < before.len() {
                            assert(before[i] == after[i]);
                        }
                        if j < before.len() {
                            assert(before[j] == after[j]);
                        }
                    }
                    assert forall|i: int| 0 <= i < after.len() implies after[i] != self.dir@ by {
                        if i < before.len() {
                            assert(before[i] == after[i]);
                        }
                    }
                }
            }
            Ok(path)
        } else {
            Err(StorageError::Taken(path))
        }
    }

    /// The workspace that a lookup is about: the first one handed out.
    pub fn first(&self) -> (r: Option<&String>)
        ensures
            self.paths@.len() == 0 ==> r is None,
            self.paths@.len() > 0 ==> r == Some(&self.paths@[0]),
    {
        if self.paths.len() == 0 {
            None
        } else {
            Some(&self.paths[0])
        }
    }

    /// Looks the source's workspace up. `present` says whether the
    /// directory of `first` is there; where no workspace was handed out it
    /// is not looked at.
    pub fn existing(&self, present: bool) -> (r: Result<Option<String>, StorageError>)
        ensures
            match located(self.paths.deep_view(), present) {
                Ok(found) => r matches Ok(path) && path.deep_view() == found,
                Err(gone) => r matches Err(StorageError::Missing(path)) && path@ == gone,
            },
    {
        if self.paths.len() == 0 {
            Ok(None)
        } else if present {
            Ok(Some(self.paths[0].clone()))
        } else {
            Err(StorageError::Missing(self.paths[0].clone()))
        }
    }
}

/// Once a workspace is handed out, every lookup finds it, however many are
/// handed out after it, for as long as its directory is there.
pub proof fn law_first_workspace_stays(paths: Seq<Seq<char>>, path: Seq<char>, later: Seq<Seq<char>>)
    ensures
        located(Seq::<Seq<char>>::empty(), true) == Ok::<Option<Seq<char>>, Seq<char>>(None),
        located(seq![path] + later, true) == Ok::<Option<Seq<char>>, Seq<char>>(Some(path)),
        paths.len() > 0 ==> located(paths.push(path), true) == located(paths, true),
{
}

} // verus!
