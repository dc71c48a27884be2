//! The handler registry: every registered handler under an identifier of
//! its own.

use vstd::prelude::*;
use std::collections::HashMap;
use vstd::std_specs::hash::spec_keys_iter;
use vstd::std_specs::iter::IteratorSpec;
use crate::identity::fresh_id;

verus! {

/// An unordered collection of handlers. No two registrations share an
/// identifier.
pub struct HandlerRegistry<H> {
    handlers: HashMap<u128, H>,
}

impl<H> HandlerRegistry<H> {
    /// The handlers by identifier.
    pub closed spec fn entries(&self) -> Map<u128, H> {
        self.handlers@
    }

    /// The identifiers in use.
    pub open spec fn ids(&self) -> Set<u128> {
        self.entries().dom()
    }

    pub fn new() -> (r: Self)
        ensures
            r.entries() == Map::<u128, H>::empty(),
    {
        HandlerRegistry { handlers: HashMap::new() }
    }

    pub fn len(&self) -> (r: usize)
        ensures
            r == self.ids().len(),
            self.ids().finite(),
    {
        self.handlers.len()
    }

    pub fn contains(&self, id: u128) -> (r: bool)
        ensures
            r == self.ids().contains(id),
    {
        self.handlers.contains_key(&id)
    }

    pub fn get(&self, id: u128) -> (r: Option<&H>)
        ensures
            match r {
                Some(handler) => self.ids().contains(id) && *handler == self.entries()[id],
                None => !self.ids().contains(id),
            },
    {
        self.handlers.get(&id)
    }

    /// Registers `handler` under `id`. An identifier that is taken is
    /// refused and the handler handed back: a registration never replaces
    /// another.
    pub fn insert(&mut self, id: u128, handler: H) -> (r: Result<
        (),
        H,
    >)
        ensures
            old(self).ids().contains(id) ==> r == Err::<(), H>(handler)
                && final(self).entries() == old(self).entries(),
            !old(self).ids().contains(id) ==> r is Ok && final(self).entries() == old(
                self,
            ).entries().insert(id, handler),
    {
        if self.handlers.contains_key(&id) {
            Err(handler)
        } else {
            self.handlers.insert(id, handler);
            Ok(())
        }
    }

    /// Registers `handler` under a freshly drawn identifier and returns the
    /// identifier. Should the draw hit an identifier in use, nothing is
    /// registered and the handler is handed back; an empty registry never
    /// refuses.
    pub fn register(&mut self, handler: H) -> (r: Result<
        u128,
        H,
    >)
        ensures
            match r {
                Ok(id) => !old(self).ids().contains(id) && final(self).entries() == old(
                    self,
                ).entries().insert(id, handler),
                Err(back) => back == handler && final(self).entries() == old(self).entries()
                    && exists|id: u128| #[trigger] old(self).ids().contains(id),
            },
    {
        let id = fresh_id();
        match self.insert(id, handler) {
            Ok(()) => Ok(id),
            Err(back) => {
                assert(old(self).ids().contains(id));
                Err(back)
            },
        }
    }

    /// Removes the registration under `id`, if there is one.
    pub fn remove(&mut self, id: u128) -> (r: Option<H>)
        ensures
            final(self).entries() == old(self).entries().remove(id),
            match r {
                Some(handler) => old(self).ids().contains(id) && handler == old(self).entries()[id],
                None => !old(self).ids().contains(id),
            },
    {
        self.handlers.remove(&id)
    }

    /// The identifiers in use, each once, in no particular order.
    pub fn handler_ids(&self) -> (r: Vec<u128>)
        ensures
            r@.no_duplicates(),
            r@.to_set() == self.ids(),
    {
        broadcast use vstd::std_specs::hash::axiom_spec_keys_iter;

        let mut ids: Vec<u128> = Vec::new();
        for id in it: self.handlers.keys()
            invariant
                it.seq() == spec_keys_iter(&self.handlers).remaining(),
                ids@ == it.seq().take(it.index() as int).unref(),
        {
            ids.push(*id);
        }
        proof {
            let all = spec_keys_iter(&self.handlers).remaining();
            assert(all.take(all.len() as int) == all);
            assert forall|i: int, j: int| 0 <= i < j < ids@.len() implies ids@[i] != ids@[j] by {
                assert(all[i] != all[j]);
            }
        }
        ids
    }
}

} // verus!
