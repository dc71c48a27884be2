//! The event bus: a bounded queue between the polls and the dispatcher.

use vstd::prelude::*;
use std::collections::VecDeque;
use crate::git::{GitEvent, GitEventView};

verus! {

/// A first-in, first-out queue of events with a fixed capacity. A full bus
/// hands a pushed event back, so that the writer can wait or shed it; an
/// event that was accepted stays until it is popped.
pub struct EventBus {
    queue: VecDeque<GitEvent>,
    capacity: usize,
}

impl EventBus {
    /// The events that wait on the bus, oldest first.
    pub closed spec fn pending(&self) -> Seq<GitEventView> {
        self.queue.deep_view()
    }

    /// How many events the bus can hold.
    pub closed spec fn limit(&self) -> nat {
        self.capacity as nat
    }

    #[verifier::type_invariant]
    spec fn bounded(self) -> bool {
        0 < self.capacity && self.queue@.len() <= self.capacity
    }

    /// An empty bus. A bus of capacity zero could never carry an event.
    pub fn new(capacity: usize) -> (r: Self)
        requires
            capacity > 0,
        ensures
            r.pending() == Seq::<GitEventView>::empty(),
            r.limit() == capacity,
    {
        EventBus { queue: VecDeque::new(), capacity }
    }

    pub fn capacity(&self) -> (r: usize)
        ensures
            r == self.limit(),
            r > 0,
    {
        proof {
            use_type_invariant(self);
        }
        self.capacity
    }

    pub fn len(&self) -> (r: usize)
        ensures
            r == self.pending().len(),
            r <= self.limit(),
    {
        proof {
            use_type_invariant(self);
        }
        self.queue.len()
    }

    pub fn is_empty(&self) -> (r: bool)
        ensures
            r == (self.pending().len() == 0),
    {
        self.queue.len() == 0
    }

    pub fn is_full(&self) -> (r: bool)
        ensures
            r == (self.pending().len() == self.limit()),
    {
        self.queue.len() == self.capacity
    }

    /// Appends `event` unless the bus is full; a full bus is left as it was
    /// and gives the event back.
    pub fn push(&mut self, event: GitEvent) -> (r: Result<(), GitEvent>)
        ensures
            final(self).limit() == old(self).limit(),
            final(self).limit() > 0,
            old(self).pending().len() < old(self).limit() ==> r is Ok && final(self).pending()
                == old(self).pending().push(event@),
            old(self).pending().len() >= old(self).limit() ==> r == Err::<(), GitEvent>(event)
                && final(self).pending() == old(self).pending(),
    {
        proof {
            use_type_invariant(&*self);
        }
        if self.queue.len() >= self.capacity {
            Err(event)
        } else {
            let mut queue = VecDeque::new();
            std::mem::swap(&mut self.queue, &mut queue);
            queue.push_back(event);
            std::mem::swap(&mut self.queue, &mut queue);
            Ok(())
        }
    }

    /// Removes and returns the oldest event, if there is one.
    pub fn pop(&mut self) -> (r: Option<GitEvent>)
        ensures
            final(self).limit() == old(self).limit(),
            old(self).pending().len() == 0 ==> r is None && final(self).pending() == old(
                self,
            ).pending(),
            old(self).pending().len() > 0 ==> r.deep_view() == Some(old(self).pending()[0])
                && final(self).pending() == old(self).pending().drop_first(),
    {
        proof {
            use_type_invariant(&*self);
        }
        let mut queue = VecDeque::new();
        std::mem::swap(&mut self.queue, &mut queue);
        let oldest = queue.pop_front();
        std::mem::swap(&mut self.queue, &mut queue);
        oldest
    }
}

} // verus!
