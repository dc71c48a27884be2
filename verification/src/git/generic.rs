//! A source backed by a real repository.
//!
//! The first poll clones the repository into a fresh workspace and records
//! its head as the baseline. Every later poll pulls, walks the revisions that
//! the head reaches and the tracked revision does not, and reports the first
//! one that the walk visits. A clone that fails leaves the source unseen,
//! and the next poll clones again into the same workspace. Cloning, pulling
//! and walking are done by the caller; this module decides what is to be
//! done and what follows from the result.

use vstd::prelude::*;
use crate::git::{GitEvent, GitEventView, SourceError};
use crate::git::revision::{is_revision, oid_hex, oid_text, parse_oid, parsed_oid};
use crate::storage::{Storage, StorageError};

verus! {

/// What a source remembers between polls.
#[derive(Debug)]
pub enum SyncState {
    /// The source was never materialized.
    Unseen,
    /// The source is materialized; the revision is the one observed last.
    Tracking(String),
}

pub enum SyncStateView {
    Unseen,
    Tracking(Seq<char>),
}

impl View for SyncState {
    type V = SyncStateView;

    open spec fn view(&self) -> SyncStateView {
        match self {
            SyncState::Unseen => SyncStateView::Unseen,
            SyncState::Tracking(revision) => SyncStateView::Tracking(revision@),
        }
    }
}

/// Which poll is due, given what the storage reports.
#[derive(Debug)]
pub enum Route {
    /// First sight: a workspace is to be allocated and the source cloned.
    Materialize,
    /// An earlier clone did not come to its end: the source is to be
    /// cloned again, into the workspace that was allocated for it then.
    Resume(String),
    /// The workspace at this path is to be pulled.
    Refresh(String),
}

pub enum RouteView {
    Materialize,
    Resume(Seq<char>),
    Refresh(Seq<char>),
}

impl View for Route {
    type V = RouteView;

    open spec fn view(&self) -> RouteView {
        match self {
            Route::Materialize => RouteView::Materialize,
            Route::Resume(workspace) => RouteView::Resume(workspace@),
            Route::Refresh(workspace) => RouteView::Refresh(workspace@),
        }
    }
}

/// What the storage answered to a lookup.
pub enum Lookup {
    /// No workspace was allocated.
    Nothing,
    /// The workspace at this path.
    Found(Seq<char>),
    /// A workspace was allocated at this path, and its directory is gone.
    Gone(Seq<char>),
    /// The lookup failed otherwise.
    Failed,
}

pub open spec fn looked_up(answer: Result<Option<String>, StorageError>) -> Lookup {
    match answer {
        Ok(None) => Lookup::Nothing,
        Ok(Some(path)) => Lookup::Found(path@),
        Err(StorageError::Missing(path)) => Lookup::Gone(path@),
        Err(_) => Lookup::Failed,
    }
}

/// Where a lookup leads.
pub enum Routing {
    To(RouteView),
    /// The source tracks a revision and has no workspace.
    Inconsistent,
    /// The storage's failure is passed on.
    Failed,
}

/// The outside work that a poll asks for.
pub enum PollStep {
    /// Clone `url` into `workspace`, then report the head. The workspace
    /// may hold what an earlier clone left behind, or be gone: it is to be
    /// made empty first.
    Materialize { url: String, workspace: String },
    /// Pull in `workspace`, then walk from the head with `since` hidden and
    /// report the first revision visited.
    Refresh { workspace: String, since: git2::Oid },
}

/// The route for a state and a lookup. An unseen source is cloned: into
/// a fresh workspace, or, after a clone that failed, into the workspace of
/// that attempt. A source that tracks a revision is pulled in its
/// workspace; without one it is refused rather than cloned again.
pub open spec fn routed(state: SyncStateView, lookup: Lookup) -> Routing {
    match (state, lookup) {
        (_, Lookup::Failed) => Routing::Failed,
        (SyncStateView::Unseen, Lookup::Nothing) => Routing::To(RouteView::Materialize),
        (SyncStateView::Unseen, Lookup::Found(workspace)) => Routing::To(
            RouteView::Resume(workspace),
        ),
        (SyncStateView::Unseen, Lookup::Gone(workspace)) => Routing::To(
            RouteView::Resume(workspace),
        ),
        (SyncStateView::Tracking(_), Lookup::Found(workspace)) => Routing::To(
            RouteView::Refresh(workspace),
        ),
        (SyncStateView::Tracking(_), Lookup::Nothing) => Routing::Inconsistent,
        (SyncStateView::Tracking(_), Lookup::Gone(_)) => Routing::Failed,
    }
}

/// Whether `step` is the clone into the workspace that the storage made,
/// or the storage's failure.
pub open spec fn materialized(
    locator: Seq<char>,
    allocated: Result<String, StorageError>,
    step: Result<PollStep, SourceError>,
) -> bool {
    match allocated {
        Ok(path) => step matches Ok(PollStep::Materialize { url, workspace }) && url@ == locator
            && workspace@ == path@,
        Err(e) => step matches Err(SourceError::Storage(failure)) && failure == e,
    }
}

/// Whether `step` is the pull that is due in `workspace` for a source in
/// `state`.
pub open spec fn refreshed(
    state: SyncStateView,
    workspace: Seq<char>,
    step: Result<PollStep, SourceError>,
) -> bool {
    match state {
        SyncStateView::Unseen => step matches Err(SourceError::Inconsistency),
        SyncStateView::Tracking(revision) => if is_revision(revision) {
            step matches Ok(PollStep::Refresh { workspace: place, since }) && place@ == workspace
                && since == parsed_oid(revision)
        } else {
            step matches Err(SourceError::Repository(_))
        },
    }
}

/// The state after a clone whose head prints as `head`; `None` where the
/// source tracks a revision already and the clone is refused.
pub open spec fn established(state: SyncStateView, head: Seq<char>) -> Option<SyncStateView> {
    match state {
        SyncStateView::Unseen => Some(SyncStateView::Tracking(head)),
        SyncStateView::Tracking(_) => None,
    }
}

/// The state after a pull whose walk visited `first` first, and the event
/// that the poll yields; `None` where the source was never materialized and
/// the pull is refused.
pub open spec fn advanced(
    state: SyncStateView,
    workspace: Seq<char>,
    first: Option<Seq<char>>,
) -> Option<(SyncStateView, Option<GitEventView>)> {
    match (state, first) {
        (SyncStateView::Unseen, _) => None,
        (SyncStateView::Tracking(_), None) => Some((state, None)),
        (SyncStateView::Tracking(_), Some(revision)) => Some(
            (
                SyncStateView::Tracking(revision),
                Some(GitEventView { commit: revision, path: workspace }),
            ),
        ),
    }
}

/// Whether `step` is what opening a poll comes to, for a source with this
/// storage, locator and state: the storage's answer to the lookup is
/// routed as `routed` says, and on first sight the workspace is the one
/// that the storage then allocates.
pub open spec fn opened<S: Storage>(
    storage: S,
    locator: Seq<char>,
    state: SyncStateView,
    step: Result<PollStep, SourceError>,
) -> bool {
    exists|lookup: Result<Option<String>, StorageError>|
        {
            &&& #[trigger] call_ensures(S::existing, (&storage,), lookup)
            &&& match routed(state, looked_up(lookup)) {
                Routing::Failed => step matches Err(SourceError::Storage(e)) && lookup == Err::<
                    Option<String>,
                    StorageError,
                >(e),
                Routing::Inconsistent => step matches Err(SourceError::Inconsistency),
                Routing::To(RouteView::Materialize) => exists|
                    allocated: Result<String, StorageError>,
                |
                    {
                        &&& #[trigger] call_ensures(S::allocate, (&storage,), allocated)
                        &&& materialized(locator, allocated, step)
                    },
                Routing::To(RouteView::Resume(workspace)) => {
                    &&& step matches Ok(PollStep::Materialize { url, workspace: place })
                    &&& url@ == locator
                    &&& place@ == workspace
                },
                Routing::To(RouteView::Refresh(workspace)) => refreshed(state, workspace, step),
            }
        }
}

/// What the outside saw when the work of a step was done, as text: after a
/// clone the head, after a pull the first revision of the walk.
pub open spec fn seen_text(seen: Option<git2::Oid>) -> Option<Seq<char>> {
    match seen {
        Some(oid) => Some(oid_hex(oid)),
        None => None,
    }
}

/// Whether a poll that was opened with `due`, and whose outside work came
/// to `observed`, ends with `result` and the state `next`. Work that
/// failed ends the poll with its failure and leaves the state; a clone
/// ends as `established` says, a pull as `advanced` says.
pub open spec fn closed(
    state: SyncStateView,
    due: PollStep,
    observed: Result<Option<git2::Oid>, SourceError>,
    result: Result<Option<GitEvent>, SourceError>,
    next: SyncStateView,
) -> bool {
    match observed {
        Err(e) => result == Err::<Option<GitEvent>, SourceError>(e) && next == state,
        Ok(seen) => match due {
            PollStep::Materialize { .. } => match seen {
                None => result matches Err(SourceError::UnbornHead) && next == state,
                Some(oid) => match established(state, oid_hex(oid)) {
                    Some(then) => result matches Ok(None) && next == then,
                    None => result matches Err(SourceError::Inconsistency) && next == state,
                },
            },
            PollStep::Refresh { workspace, .. } => match advanced(
                state,
                workspace@,
                seen_text(seen),
            ) {
                Some((then, event)) => result matches Ok(yielded) && yielded.deep_view() == event
                    && next == then,
                None => result matches Err(SourceError::Inconsistency) && next == state,
            },
        },
    }
}

pub struct GitGeneric<S: Storage> {
    url: String,
    storage: S,
    progress: SyncState,
}

impl<S: Storage> GitGeneric<S> {
    /// The locator of the source.
    pub closed spec fn locator(&self) -> Seq<char> {
        self.url@
    }

    /// What the source remembers.
    pub closed spec fn state(&self) -> SyncStateView {
        self.progress@
    }

    /// The storage that holds the source's workspace.
    pub closed spec fn storage(&self) -> S {
        self.storage
    }

    pub fn new(url: String, storage: S) -> (r: Self)
        ensures
            r.locator() == url@,
            r.storage() == storage,
            r.state() == SyncStateView::Unseen,
    {
        GitGeneric { url, storage, progress: SyncState::Unseen }
    }

    pub fn url(&self) -> (r: &String)
        ensures
            r@ == self.locator(),
    {
        &self.url
    }

    pub fn progress(&self) -> (r: &SyncState)
        ensures
            r@ == self.state(),
    {
        &self.progress
    }

    /// Decides what is due, given the storage's answer to a lookup, as
    /// `routed` says.
    pub fn route(&self, lookup: Result<Option<String>, StorageError>) -> (r: Result<
        Route,
        SourceError,
    >)
        ensures
            match routed(self.state(), looked_up(lookup)) {
                Routing::To(route) => r matches Ok(chosen) && chosen@ == route,
                Routing::Inconsistent => r matches Err(SourceError::Inconsistency),
                Routing::Failed => r matches Err(SourceError::Storage(e)) && lookup == Err::<
                    Option<String>,
                    StorageError,
                >(e),
            },
    {
        match (&self.progress, lookup) {
            (SyncState::Unseen, Ok(None)) => Ok(Route::Materialize),
            (SyncState::Unseen, Ok(Some(workspace))) => Ok(Route::Resume(workspace)),
            (SyncState::Unseen, Err(StorageError::Missing(workspace))) => Ok(
                Route::Resume(workspace),
            ),
            (SyncState::Tracking(_), Ok(Some(workspace))) => Ok(Route::Refresh(workspace)),
            (SyncState::Tracking(_), Ok(None)) => Err(SourceError::Inconsistency),
            (_, Err(e)) => Err(SourceError::Storage(e)),
        }
    }

    /// Records the baseline after a clone: the source now tracks `head`.
    /// The first poll reports nothing, whatever the head is.
    pub fn establish(&mut self, head: String) -> (r: Result<Option<GitEvent>, SourceError>)
        ensures
            final(self).locator() == old(self).locator(),
            final(self).storage() == old(self).storage(),
            match established(old(self).state(), head@) {
                Some(next) => r matches Ok(None) && final(self).state() == next,
                None => r matches Err(SourceError::Inconsistency) && final(self).state() == old(
                    self,
                ).state(),
            },
    {
        match &self.progress {
            SyncState::Unseen => {
                self.progress = SyncState::Tracking(head);
                Ok(None)
            },
            SyncState::Tracking(_) => Err(SourceError::Inconsistency),
        }
    }

    /// Takes in the result of a walk after a pull. Where the walk visited a
    /// revision, that revision is tracked from now on and reported as an
    /// event; where it visited none, nothing changes and nothing is reported.
    pub fn advance(&mut self, workspace: String, first: Option<String>) -> (r: Result<
        Option<GitEvent>,
        SourceError,
    >)
        ensures
            final(self).locator() == old(self).locator(),
            final(self).storage() == old(self).storage(),
            match advanced(old(self).state(), workspace@, first.deep_view()) {
                Some((next, event)) => {
                    &&& r matches Ok(yielded)
                    &&& yielded.deep_view() == event
                    &&& final(self).state() == next
                },
                None => r matches Err(SourceError::Inconsistency) && final(self).state() == old(
                    self,
                ).state(),
            },
    {
        match &self.progress {
            SyncState::Unseen => Err(SourceError::Inconsistency),
            SyncState::Tracking(_) => match first {
                None => Ok(None),
                Some(revision) => {
                    let event = GitEvent { commit: revision.clone(), path: workspace };
                    self.progress = SyncState::Tracking(revision);
                    Ok(Some(event))
                },
            },
        }
    }

    /// `establish` for a head as the repository reports it. A head that
    /// points at no commit is refused.
    pub fn complete_materialize(&mut self, head: Option<git2::Oid>) -> (r: Result<
        Option<GitEvent>,
        SourceError,
    >)
        ensures
            final(self).locator() == old(self).locator(),
            final(self).storage() == old(self).storage(),
            r is Ok ==> (final(self).state() matches SyncStateView::Tracking(revision)
                && is_revision(revision)),
            match head {
                None => r matches Err(SourceError::UnbornHead) && final(self).state() == old(
                    self,
                ).state(),
                Some(oid) => match established(old(self).state(), oid_hex(oid)) {
                    Some(next) => r matches Ok(None) && final(self).state() == next,
                    None => r matches Err(SourceError::Inconsistency) && final(self).state()
                        == old(self).state(),
                },
            },
    {
        match head {
            None => Err(SourceError::UnbornHead),
            Some(oid) => self.establish(oid_text(&oid)),
        }
    }

    /// `advance` for a walk result as the repository reports it.
    pub fn complete_refresh(&mut self, workspace: String, first: Option<git2::Oid>) -> (r: Result<
        Option<GitEvent>,
        SourceError,
    >)
        ensures
            final(self).locator() == old(self).locator(),
            final(self).storage() == old(self).storage(),
            r matches Ok(Some(event)) ==> is_revision(event@.commit),
            match advanced(
                old(self).state(),
                workspace@,
                match first {
                    Some(oid) => Some(oid_hex(oid)),
                    None => None,
                },
            ) {
                Some((next, event)) => {
                    &&& r matches Ok(yielded)
                    &&& yielded.deep_view() == event
                    &&& final(self).state() == next
                },
                None => r matches Err(SourceError::Inconsistency) && final(self).state() == old(
                    self,
                ).state(),
            },
    {
        let first_text = match first {
            Some(oid) => Some(oid_text(&oid)),
            None => None,
        };
        self.advance(workspace, first_text)
    }

    /// Opens a poll: asks the storage for the workspace and says what outside
    /// work is due. Nothing is remembered; the poll is closed by
    /// `complete_materialize` or `complete_refresh`.
    ///
    /// The step follows from what the storage answers: its answer to the
    /// lookup is routed as `route` does; on first sight the workspace is
    /// the one that the storage then allocates.
    pub fn begin(&self) -> (r: Result<PollStep, SourceError>)
        ensures
            opened(self.storage(), self.locator(), self.state(), r),
    {
        let lookup = self.storage.existing();
        let ghost answer = lookup;
        let r = match self.route(lookup) {
            Err(e) => Err(e),
            Ok(Route::Materialize) => {
                let allocated = self.storage.allocate();
                let ghost made = allocated;
                let step = self.materialize_step(allocated);
                proof {
                    assert(call_ensures(S::allocate, (&self.storage(),), made));
                    assert(materialized(self.locator(), made, step));
                }
                step
            },
            Ok(Route::Resume(workspace)) => self.materialize_step(Ok(workspace)),
            Ok(Route::Refresh(workspace)) => self.refresh_step(workspace),
        };
        proof {
            assert(call_ensures(S::existing, (&self.storage(),), answer));
        }
        r
    }

    /// The clone that is due once the storage has answered a request for a
    /// workspace: into that workspace, or none where the storage failed.
    pub fn materialize_step(&self, allocated: Result<String, StorageError>) -> (r: Result<
        PollStep,
        SourceError,
    >)
        ensures
            materialized(self.locator(), allocated, r),
            allocated matches Ok(path) ==> (r matches Ok(PollStep::Materialize { workspace, .. })
                && workspace == path),
    {
        match allocated {
            Ok(workspace) => Ok(PollStep::Materialize { url: self.url.clone(), workspace }),
            Err(e) => Err(SourceError::Storage(e)),
        }
    }

    /// The pull that is due in `workspace`: its walk hides the object id of
    /// the revision that the source tracks. A source that tracks nothing is
    /// refused, and so is a revision that is no object id.
    pub fn refresh_step(&self, workspace: String) -> (r: Result<PollStep, SourceError>)
        ensures
            refreshed(self.state(), workspace@, r),
            r matches Ok(PollStep::Refresh { workspace: place, .. }) ==> place == workspace,
    {
        match &self.progress {
            SyncState::Tracking(revision) => match parse_oid(revision.as_str()) {
                Ok(since) => Ok(PollStep::Refresh { workspace, since }),
                Err(e) => Err(SourceError::Repository(e)),
            },
            SyncState::Unseen => Err(SourceError::Inconsistency),
        }
    }

    /// One poll from end to end. The poll is opened as `begin` does; the
    /// outside work that is due is done by `work`, which answers with what
    /// it saw (after a clone the head, after a pull the first revision of
    /// the walk) or with its failure; the poll is closed as
    /// `complete_materialize` and `complete_refresh` do.
    ///
    /// A first poll never yields an event. A poll that fails leaves the
    /// source as it was. A source that tracks a revision goes on tracking
    /// one, and after an event it tracks the revision of that event.
    pub fn listen<W: FnOnce(&PollStep) -> Result<Option<git2::Oid>, SourceError>>(
        &mut self,
        work: W,
    ) -> (r: Result<Option<GitEvent>, SourceError>)
        requires
            forall|step: &PollStep| work.requires((step,)),
        ensures
            final(self).locator() == old(self).locator(),
            final(self).storage() == old(self).storage(),
            exists|step: Result<PollStep, SourceError>|
                {
                    &&& #[trigger] opened(
                        old(self).storage(),
                        old(self).locator(),
                        old(self).state(),
                        step,
                    )
                    &&& match step {
                        Err(e) => r == Err::<Option<GitEvent>, SourceError>(e)
                            && final(self).state() == old(self).state(),
                        Ok(due) => exists|observed: Result<Option<git2::Oid>, SourceError>|
                            {
                                &&& #[trigger] call_ensures(work, (&due,), observed)
                                &&& closed(
                                    old(self).state(),
                                    due,
                                    observed,
                                    r,
                                    final(self).state(),
                                )
                            },
                    }
                },
            old(self).state() is Unseen ==> !(r matches Ok(Some(_))),
            old(self).state() is Unseen && r is Ok ==> final(self).state() is Tracking,
            old(self).state() is Tracking ==> final(self).state() is Tracking,
            r is Err ==> final(self).state() == old(self).state(),
            r matches Ok(Some(event)) ==> final(self).state() == SyncStateView::Tracking(
                event@.commit,
            ),
            r matches Ok(None) && old(self).state() is Tracking ==> final(self).state() == old(
                self,
            ).state(),
    {
        let step = self.begin();
        let ghost begun = step;
        let due = match step {
            Ok(due) => due,
            Err(e) => {
                return Err(e);
            },
        };
        let observed = work(&due);
        let ghost answer = observed;
        let seen = match observed {
            Ok(seen) => seen,
            Err(e) => {
                proof {
                    assert(call_ensures(work, (&due,), answer));
                    assert(closed(
                        old(self).state(),
                        due,
                        answer,
                        Err::<Option<GitEvent>, SourceError>(e),
                        self.state(),
                    ));
                }
                return Err(e);
            },
        };
        let r = match due {
            PollStep::Materialize { .. } => self.complete_materialize(seen),
            PollStep::Refresh { workspace, .. } => self.complete_refresh(workspace, seen),
        };
        proof {
            assert(call_ensures(work, (&due,), answer));
            assert(closed(old(self).state(), due, answer, r, self.state()));
            assert(opened(old(self).storage(), old(self).locator(), old(self).state(), begun));
        }
        r
    }
}

/// The baseline is recorded once. An unseen source starts tracking with its
/// first clone; a source that tracks a revision refuses a second clone, and
/// no pull takes it back to unseen.
pub proof fn law_baseline_is_recorded_once(
    state: SyncStateView,
    head: Seq<char>,
    workspace: Seq<char>,
    first: Option<Seq<char>>,
)
    ensures
        state is Unseen ==> established(state, head) == Some(SyncStateView::Tracking(head)),
        state is Unseen ==> advanced(state, workspace, first) is None,
        state is Tracking ==> established(state, head) is None,
        state is Tracking ==> (advanced(state, workspace, first) matches Some((next, _))
            && next is Tracking),
{
}

/// A clone that failed is tried again: the source is still unseen, the
/// next poll clones into the workspace of the failed attempt, whether its
/// directory is there or gone, and a clone that succeeds sets the baseline.
pub proof fn law_failed_clone_is_retried(workspace: Seq<char>, head: Seq<char>)
    ensures
        routed(SyncStateView::Unseen, Lookup::Found(workspace)) == Routing::To(
            RouteView::Resume(workspace),
        ),
        routed(SyncStateView::Unseen, Lookup::Gone(workspace)) == Routing::To(
            RouteView::Resume(workspace),
        ),
        established(SyncStateView::Unseen, head) == Some(SyncStateView::Tracking(head)),
{
}

} // verus!
