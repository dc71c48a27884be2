//! What a handler is given and what it answers.

use vstd::prelude::*;
use std::sync::Arc;
use crate::git::{GitEvent, GitEventView};

verus! {

/// The payload delivered to a handler: one event.
#[derive(Debug)]
pub struct EventRequest {
    pub git: GitEvent,
}

pub struct EventRequestView {
    pub git: GitEventView,
}

impl View for EventRequest {
    type V = EventRequestView;

    open spec fn view(&self) -> EventRequestView {
        EventRequestView { git: self.git@ }
    }
}

impl DeepView for EventRequest {
    type V = EventRequestView;

    open spec fn deep_view(&self) -> EventRequestView {
        self@
    }
}

impl Clone for EventRequest {
    fn clone(&self) -> (r: Self)
        ensures
            r == *self,
    {
        EventRequest { git: self.git.clone() }
    }
}

/// A handler's acknowledgment that it processed an event.
#[derive(Debug)]
pub struct EventResponse {}

impl Clone for EventResponse {
    fn clone(&self) -> (r: Self)
        ensures
            r == *self,
    {
        EventResponse {  }
    }
}

/// A handler's own report of failure. It concerns that handler and that
/// event alone.
#[derive(Debug)]
pub struct HandlerError {
    pub message: String,
}

/// The capability to process one event. Handlers are called from several
/// places at once and keep no unguarded state.
pub trait EventHandler {
    fn handle(&self, req: EventRequest) -> Result<EventResponse, HandlerError>;
}

/// A shared handler is a handler.
impl<T: EventHandler + ?Sized> EventHandler for Arc<T> {
    /// Answers what the handler inside answers to the same request.
    fn handle(&self, req: EventRequest) -> (r: Result<EventResponse, HandlerError>)
        ensures
            call_ensures(T::handle, (&**self, req), r),
    {
        (**self).handle(req)
    }
}

/// A boxed handler is a handler.
impl<T: EventHandler + ?Sized> EventHandler for Box<T> {
    /// Answers what the handler inside answers to the same request.
    fn handle(&self, req: EventRequest) -> (r: Result<EventResponse, HandlerError>)
        ensures
            call_ensures(T::handle, (&**self, req), r),
    {
        (**self).handle(req)
    }
}

} // verus!
