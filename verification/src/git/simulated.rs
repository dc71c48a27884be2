//! A source that is seeded with events and hands them out one per poll.

use vstd::prelude::*;
use crate::git::{GitEvent, GitEventView, GitProvider, SourceError};

verus! {

/// A finite stock of events. Each poll takes the one inserted last; an
/// empty stock yields nothing, poll after poll.
pub struct GitSimulated {
    events: Vec<GitEvent>,
}

impl GitSimulated {
    /// The events in stock, in the order of their insertion.
    pub closed spec fn stock(&self) -> Seq<GitEventView> {
        self.events.deep_view()
    }

    pub fn new() -> (r: Self)
        ensures
            r.stock() == Seq::<GitEventView>::empty(),
    {
        GitSimulated { events: Vec::new() }
    }

    pub fn insert(self, value: GitEvent) -> (r: Self)
        ensures
            r.stock() == self.stock().push(value@),
    {
        let mut events = self.events;
        events.push(value);
        GitSimulated { events }
    }

    /// How many events are in stock.
    pub fn remaining(&self) -> (r: usize)
        ensures
            r == self.stock().len(),
    {
        self.events.len()
    }
}

impl GitProvider for GitSimulated {
    /// Never fails.
    fn listen(&mut self) -> (r: Result<Option<GitEvent>, SourceError>)
        ensures
            r matches Ok(yielded) && (if old(self).stock().len() == 0 {
                &&& yielded is None
                &&& final(self).stock() == old(self).stock()
            } else {
                &&& yielded.deep_view() == Some(old(self).stock().last())
                &&& final(self).stock() == old(self).stock().drop_last()
            }),
    {
        let event = self.events.pop();
        Ok(event)
    }
}

/// A stock of `n` events lasts for `n` polls: the events come out newest
/// first, and what is left after `polls` polls is what was inserted before
/// them.
pub open spec fn stock_after(stock: Seq<GitEventView>, polls: nat) -> Seq<GitEventView> {
    if polls >= stock.len() {
        Seq::empty()
    } else {
        stock.take(stock.len() - polls)
    }
}

/// One more poll takes one more event, and an empty stock stays empty.
pub proof fn law_stock_drains_one_by_one(stock: Seq<GitEventView>, polls: nat)
    ensures
        stock_after(stock, 0) == stock,
        stock_after(stock, polls).len() == 0 ==> stock_after(stock, polls + 1) == stock_after(
            stock,
            polls,
        ),
        stock_after(stock, polls).len() > 0 ==> stock_after(stock, polls + 1) == stock_after(
            stock,
            polls,
        ).drop_last() && stock_after(stock, polls).last() == stock[stock.len() - polls - 1],
        polls >= stock.len() ==> stock_after(stock, polls).len() == 0,
{
    assert(stock.take(stock.len() as int) =~= stock);
    if polls < stock.len() {
        assert(stock_after(stock, polls + 1) =~= stock_after(stock, polls).drop_last());
    }
}

} // verus!
