//! A model of a repository's history, and what repeated polling does to a
//! backlog of new revisions.
//!
//! Nothing here runs: the walk itself is done by `git2` on the caller's side.
//! The model says what a walk may report, and the laws say what follows for a
//! source that is polled again and again while the repository stands still.

use vstd::prelude::*;
use vstd::set_lib::lemma_len_subset;
use crate::git::GitEventView;
use crate::git::generic::{advanced, SyncStateView};

verus! {

/// The revision graph, by its reachability: `reach(a, b)` says that `b` is
/// `a` itself or one of its ancestors.
pub struct History {
    pub reach: spec_fn(Seq<char>, Seq<char>) -> bool,
}

impl History {
    pub open spec fn reaches(self, from: Seq<char>, to: Seq<char>) -> bool {
        (self.reach)(from, to)
    }

    /// Every revision reaches itself, and an ancestor's ancestors are
    /// ancestors.
    pub open spec fn well_formed(self) -> bool {
        &&& forall|a: Seq<char>| #[trigger] self.reaches(a, a)
        &&& forall|a: Seq<char>, b: Seq<char>, c: Seq<char>|
            #![trigger self.reaches(a, b), self.reaches(b, c)]
            self.reaches(a, b) && self.reaches(b, c) ==> self.reaches(a, c)
    }

    /// The revisions that `head` reaches and `known` does not.
    pub open spec fn backlog(self, head: Seq<char>, known: Seq<char>) -> Set<Seq<char>> {
        Set::new(|r: Seq<char>| self.reaches(head, r) && !self.reaches(known, r))
    }

    /// What a walk from `head` with `known` hidden may report as the first
    /// revision visited: any member of the backlog, and nothing only where
    /// the backlog is empty.
    pub open spec fn walk_reports(
        self,
        head: Seq<char>,
        known: Seq<char>,
        first: Option<Seq<char>>,
    ) -> bool {
        match first {
            Some(r) => self.backlog(head, known).contains(r),
            None => forall|r: Seq<char>| !(#[trigger] self.backlog(head, known).contains(r)),
        }
    }
}

/// The revision known after a run of polls whose walks reported `walks`,
/// oldest first, starting from `known`.
pub open spec fn known_after(known: Seq<char>, walks: Seq<Option<Seq<char>>>) -> Seq<char>
    decreases walks.len(),
{
    if walks.len() == 0 {
        known
    } else {
        match walks.last() {
            Some(r) => r,
            None => known_after(known, walks.drop_last()),
        }
    }
}

/// How many of the polls yielded an event.
pub open spec fn events_in(walks: Seq<Option<Seq<char>>>) -> nat
    decreases walks.len(),
{
    if walks.len() == 0 {
        0
    } else {
        events_in(walks.drop_last()) + if walks.last() is Some {
            1nat
        } else {
            0nat
        }
    }
}

/// A run of polls against a repository that stands still with its head at
/// `head`: every walk reports what the history holds for the revision
/// tracked at that time, and a reported revision descends from the known
/// one.
pub open spec fn faithful(
    h: History,
    head: Seq<char>,
    known: Seq<char>,
    walks: Seq<Option<Seq<char>>>,
) -> bool
    decreases walks.len(),
{
    walks.len() > 0 ==> {
        let before = known_after(known, walks.drop_last());
        &&& faithful(h, head, known, walks.drop_last())
        &&& h.walk_reports(head, before, walks.last())
        &&& (walks.last() matches Some(r) ==> h.reaches(r, before))
    }
}

/// A poll of a tracking source moves the tracked revision as `known_after`
/// says, and the tracked revision is that of the event just yielded.
pub proof fn law_state_follows_last_event(
    known: Seq<char>,
    workspace: Seq<char>,
    first: Option<Seq<char>>,
)
    ensures
        advanced(SyncStateView::Tracking(known), workspace, first) matches Some((next, event))
            && next == SyncStateView::Tracking(known_after(known, seq![first])) && match event {
            Some(e) => first == Some(e.commit) && next == SyncStateView::Tracking(e.commit)
                && e.path == workspace,
            None => first is None && next == SyncStateView::Tracking(known),
        },
{
    let walks = seq![first];
    assert(walks.last() == first);
    assert(known_after(known, walks.drop_last()) == known);
}

/// Polling a source whose head is the tracked revision yields nothing and
/// leaves the state as it was.
pub proof fn law_no_change_is_silent(
    h: History,
    known: Seq<char>,
    workspace: Seq<char>,
    first: Option<Seq<char>>,
)
    requires
        h.walk_reports(known, known, first),
    ensures
        first is None,
        advanced(SyncStateView::Tracking(known), workspace, first) == Some(
            (SyncStateView::Tracking(known), None::<GitEventView>),
        ),
{
}

/// Once a poll has found the backlog empty, the next one finds it empty too.
proof fn lemma_quiet_stays_quiet(
    h: History,
    head: Seq<char>,
    known: Seq<char>,
    walks: Seq<Option<Seq<char>>>,
)
    requires
        faithful(h, head, known, walks),
        walks.len() >= 2,
        walks[walks.len() - 2] is None,
    ensures
        walks.last() is None,
{
    let shorter = walks.drop_last();
    assert(shorter.last() == walks[walks.len() - 2]);
    assert(faithful(h, head, known, shorter));
    let before = known_after(known, shorter.drop_last());
    assert(known_after(known, shorter) == before);
    assert(h.walk_reports(head, before, shorter.last()));
    if let Some(r) = walks.last() {
        assert(h.backlog(head, before).contains(r));
    }
}

/// A run that ends with an event consists of events only.
proof fn lemma_events_come_first(
    h: History,
    head: Seq<char>,
    known: Seq<char>,
    walks: Seq<Option<Seq<char>>>,
)
    requires
        faithful(h, head, known, walks),
        walks.len() > 0,
        walks.last() is Some,
    ensures
        events_in(walks) == walks.len(),
    decreases walks.len(),
{
    let shorter = walks.drop_last();
    assert(faithful(h, head, known, shorter));
    if shorter.len() > 0 {
        if shorter.last() is None {
            assert(shorter.last() == walks[walks.len() - 2]);
            lemma_quiet_stays_quiet(h, head, known, walks);
        }
        lemma_events_come_first(h, head, known, shorter);
    } else {
        assert(events_in(shorter) == 0);
    }
    assert(events_in(walks) == events_in(shorter) + 1);
}

/// Every event takes at least one revision off the backlog.
proof fn lemma_backlog_shrinks(
    h: History,
    head: Seq<char>,
    known: Seq<char>,
    walks: Seq<Option<Seq<char>>>,
)
    requires
        h.well_formed(),
        h.backlog(head, known).finite(),
        faithful(h, head, known, walks),
    ensures
        h.backlog(head, known_after(known, walks)).finite(),
        h.backlog(head, known_after(known, walks)).subset_of(h.backlog(head, known)),
        events_in(walks) + h.backlog(head, known_after(known, walks)).len() <= h.backlog(
            head,
            known,
        ).len(),
    decreases walks.len(),
{
    if walks.len() > 0 {
        let shorter = walks.drop_last();
        let before = known_after(known, shorter);
        lemma_backlog_shrinks(h, head, known, shorter);
        if let Some(r) = walks.last() {
            let old_backlog = h.backlog(head, before);
            let new_backlog = h.backlog(head, r);
            assert(old_backlog.contains(r));
            assert(!new_backlog.contains(r));
            assert forall|x: Seq<char>| new_backlog.contains(x) implies old_backlog.remove(
                r,
            ).contains(x) by {
                if h.reaches(before, x) {
                    assert(h.reaches(r, before) && h.reaches(before, x));
                }
            }
            assert(new_backlog.subset_of(old_backlog.remove(r)));
            lemma_len_subset(new_backlog, old_backlog.remove(r));
        }
    }
}

/// The revision known after a run reaches every revision that the run
/// reported.
proof fn lemma_known_reaches_reported(
    h: History,
    head: Seq<char>,
    known: Seq<char>,
    walks: Seq<Option<Seq<char>>>,
)
    requires
        h.well_formed(),
        faithful(h, head, known, walks),
    ensures
        forall|i: int|
            0 <= i < walks.len() && (#[trigger] walks[i]) is Some ==> h.reaches(
                known_after(known, walks),
                walks[i]->0,
            ),
    decreases walks.len(),
{
    if walks.len() > 0 {
        let shorter = walks.drop_last();
        let before = known_after(known, shorter);
        let after = known_after(known, walks);
        lemma_known_reaches_reported(h, head, known, shorter);
        assert forall|i: int| 0 <= i < walks.len() && (#[trigger] walks[i]) is Some implies h.reaches(
            after,
            walks[i]->0,
        ) by {
            if i < walks.len() - 1 {
                assert(shorter[i] == walks[i]);
                assert(h.reaches(before, walks[i]->0));
                if walks.last() is Some {
                    assert(h.reaches(after, before) && h.reaches(before, walks[i]->0));
                }
            } else {
                assert(h.reaches(after, after));
            }
        }
    }
}

/// A source with `n` new revisions, polled again and again while nothing
/// changes outside, yields at most `n` events, each for a revision of the
/// backlog and no two for the same; the events come first, and
/// once a poll has yielded nothing every later one yields nothing; a run of
/// more than `n` polls ends with one that yields nothing.
pub proof fn law_backlog_drains(
    h: History,
    head: Seq<char>,
    known: Seq<char>,
    walks: Seq<Option<Seq<char>>>,
)
    requires
        h.well_formed(),
        h.backlog(head, known).finite(),
        faithful(h, head, known, walks),
    ensures
        events_in(walks) <= h.backlog(head, known).len(),
        forall|i: int|
            0 <= i < walks.len() && (#[trigger] walks[i]) is Some ==> h.backlog(head, known).contains(
                walks[i]->0,
            ),
        forall|i: int, j: int|
            0 <= i < j < walks.len() && walks[i] is Some && walks[j] is Some ==> walks[i] != walks[j],
        forall|i: int, j: int| 0 <= i < j < walks.len() && walks[i] is None ==> walks[j] is None,
        walks.len() > h.backlog(head, known).len() ==> walks.last() is None,
    decreases walks.len(),
{
    lemma_backlog_shrinks(h, head, known, walks);
    if walks.len() > 0 {
        let shorter = walks.drop_last();
        let before = known_after(known, shorter);
        law_backlog_drains(h, head, known, shorter);
        lemma_backlog_shrinks(h, head, known, shorter);
        lemma_known_reaches_reported(h, head, known, shorter);
        assert forall|i: int| 0 <= i < walks.len() && (#[trigger] walks[i]) is Some implies h.backlog(
            head,
            known,
        ).contains(walks[i]->0) by {
            if i < walks.len() - 1 {
                assert(shorter[i] == walks[i]);
            } else {
                assert(h.backlog(head, before).contains(walks[i]->0));
            }
        }
        assert forall|i: int, j: int|
            0 <= i < j < walks.len() && walks[i] is Some && walks[j] is Some implies walks[i]
            != walks[j] by {
            if j < walks.len() - 1 {
                assert(shorter[i] == walks[i] && shorter[j] == walks[j]);
            } else {
                assert(shorter[i] == walks[i]);
                assert(h.reaches(before, walks[i]->0));
                assert(h.backlog(head, before).contains(walks[j]->0));
            }
        }
        assert forall|i: int, j: int| 0 <= i < j < walks.len() && walks[i] is None implies walks[j]
            is None by {
            if j < walks.len() - 1 {
                assert(shorter[i] == walks[i] && shorter[j] == walks[j]);
            } else {
                if i < walks.len() - 2 {
                    assert(shorter[i] == walks[i]);
                    assert(shorter[walks.len() - 2] is None);
                }
                lemma_quiet_stays_quiet(h, head, known, walks);
            }
        }
        if walks.last() is Some {
            lemma_events_come_first(h, head, known, walks);
        }
    }
}

} // verus!
