//! A handler made from a plain function.

use vstd::prelude::*;
use crate::events::{EventHandler, EventRequest, EventResponse, HandlerError};

verus! {

/// Wraps a function so that it can be registered as a handler. The
/// function must accept every request.
pub struct ActionEventHandler<
    F: Fn(EventRequest) -> Result<EventResponse, HandlerError>,
> {
    func: F,
}

impl<F: Fn(EventRequest) -> Result<EventResponse, HandlerError>> ActionEventHandler<
    F,
> {
    #[verifier::type_invariant]
    spec fn accepts_all(self) -> bool {
        forall|req: EventRequest| self.func.requires((req,))
    }

    /// The function inside.
    pub closed spec fn action(&self) -> F {
        self.func
    }

    pub fn new(func: F) -> (r: Self)
        requires
            forall|req: EventRequest| func.requires((req,)),
        ensures
            r.action() == func,
    {
        ActionEventHandler { func }
    }
}

impl<
    F: Fn(EventRequest) -> Result<EventResponse, HandlerError>,
> EventHandler for ActionEventHandler<F> {
    /// Answers what the function answers.
    fn handle(&self, req: EventRequest) -> (r: Result<EventResponse, HandlerError>)
        ensures
            self.action().ensures((req,), r),
    {
        proof {
            use_type_invariant(self);
        }
        (self.func)(req)
    }
}

} // verus!
