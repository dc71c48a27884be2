//! The dispatcher: for every event on the bus one invocation per handler,
//! and no second event before the first is done with.
//!
//! The dispatcher calls no handler itself. `next` takes the oldest event off
//! the bus and says which invocations are due; the caller makes them, at
//! once or one after another, and reports each with `complete`. Until the
//! last one is reported, `next` hands out nothing.

use vstd::prelude::*;
use crate::bus::EventBus;
use crate::events::{EventRequest, EventRequestView};
use crate::git::{GitEvent, GitEventView};

verus! {

/// One call that is due: this handler, with this request.
#[derive(Debug)]
pub struct Invocation {
    pub handler: u128,
    pub request: EventRequest,
}

pub struct InvocationView {
    pub handler: u128,
    pub request: EventRequestView,
}

impl View for Invocation {
    type V = InvocationView;

    open spec fn view(&self) -> InvocationView {
        InvocationView { handler: self.handler, request: self.request@ }
    }
}

impl DeepView for Invocation {
    type V = InvocationView;

    open spec fn deep_view(&self) -> InvocationView {
        self@
    }
}

/// The fan-out of one event: the event, and the calls that are due for it.
#[derive(Debug)]
pub struct FanOut {
    pub event: GitEvent,
    pub invocations: Vec<Invocation>,
}

/// The invocations for one event: one per handler, in the handlers' order,
/// each with a request that wraps the event.
pub open spec fn fan_out(event: GitEventView, handlers: Seq<u128>) -> Seq<InvocationView> {
    Seq::new(
        handlers.len(),
        |i: int| InvocationView { handler: handlers[i], request: EventRequestView { git: event } },
    )
}

/// `waiting` without the first occurrence of `handler`.
pub open spec fn without(waiting: Seq<u128>, handler: u128) -> Seq<u128>
    decreases waiting.len(),
{
    if waiting.len() == 0 {
        waiting
    } else if waiting[0] == handler {
        waiting.drop_first()
    } else {
        seq![waiting[0]] + without(waiting.drop_first(), handler)
    }
}

/// What is left of `waiting` after the handlers of `order` have completed,
/// one after another.
pub open spec fn after_completions(waiting: Seq<u128>, order: Seq<u128>) -> Seq<u128>
    decreases order.len(),
{
    if order.len() == 0 {
        waiting
    } else {
        without(after_completions(waiting, order.drop_last()), order.last())
    }
}

proof fn lemma_without_absent(waiting: Seq<u128>, handler: u128)
    requires
        !waiting.contains(handler),
    ensures
        without(waiting, handler) == waiting,
    decreases waiting.len(),
{
    if waiting.len() > 0 {
        assert(waiting[0] != handler);
        let rest = waiting.drop_first();
        assert forall|i: int| 0 <= i < rest.len() implies rest[i] != handler by {
            assert(rest[i] == waiting[i + 1]);
        }
        lemma_without_absent(rest, handler);
        assert(seq![waiting[0]] + rest =~= waiting);
    }
}

proof fn lemma_without_at(waiting: Seq<u128>, handler: u128, at: int)
    requires
        0 <= at < waiting.len(),
        waiting[at] == handler,
        forall|j: int| 0 <= j < at ==> waiting[j] != handler,
    ensures
        without(waiting, handler) == waiting.remove(at),
    decreases at,
{
    if at == 0 {
        assert(waiting.remove(0) =~= waiting.drop_first());
    } else {
        let rest = waiting.drop_first();
        assert(rest[at - 1] == waiting[at]);
        assert forall|j: int| 0 <= j < at - 1 implies rest[j] != handler by {
            assert(rest[j] == waiting[j + 1]);
        }
        lemma_without_at(rest, handler, at - 1);
        assert(seq![waiting[0]] + rest.remove(at - 1) =~= waiting.remove(at));
    }
}

/// Taking a handler out of a list without repetitions leaves the others,
/// each once.
proof fn lemma_without_distinct(waiting: Seq<u128>, handler: u128)
    requires
        waiting.no_duplicates(),
    ensures
        without(waiting, handler).no_duplicates(),
        forall|id: u128|
            without(waiting, handler).contains(id) <==> (waiting.contains(id) && id != handler),
        without(waiting, handler).len() == waiting.len() - if waiting.contains(handler) {
            1int
        } else {
            0int
        },
{
    if waiting.contains(handler) {
        let at = choose|i: int| 0 <= i < waiting.len() && waiting[i] == handler;
        lemma_without_at(waiting, handler, at);
        let left = waiting.remove(at);
        assert forall|id: u128| left.contains(id) <==> (waiting.contains(id) && id != handler) by {
            if left.contains(id) {
                let j = choose|j: int| 0 <= j < left.len() && left[j] == id;
                if j < at {
                    assert(waiting[j] == id);
                } else {
                    assert(waiting[j + 1] == id);
                }
            }
            if waiting.contains(id) && id != handler {
                let j = choose|j: int| 0 <= j < waiting.len() && waiting[j] == id;
                if j < at {
                    assert(left[j] == id);
                } else {
                    assert(left[j - 1] == id);
                }
            }
        }
    } else {
        lemma_without_absent(waiting, handler);
    }
}

/// The state of a fan-out: which handlers have yet to report, and which
/// have reported a failure.
pub struct Dispatcher {
    waiting: Vec<u128>,
    failed: Vec<u128>,
}

impl Dispatcher {
    /// The handlers whose invocation for the current event has not been
    /// reported yet.
    pub closed spec fn waiting(&self) -> Seq<u128> {
        self.waiting@
    }

    /// The handlers that reported a failure for the current event, in the
    /// order of their reports.
    pub closed spec fn failed(&self) -> Seq<u128> {
        self.failed@
    }

    /// No fan-out is in flight.
    pub open spec fn idle(&self) -> bool {
        self.waiting().len() == 0
    }

    pub fn new() -> (r: Self)
        ensures
            r.idle(),
            r.failed() == Seq::<u128>::empty(),
    {
        Dispatcher { waiting: Vec::new(), failed: Vec::new() }
    }

    pub fn is_idle(&self) -> (r: bool)
        ensures
            r == self.idle(),
    {
        self.waiting.len() == 0
    }

    /// The handlers that failed on the current event.
    pub fn failures(&self) -> (r: &Vec<u128>)
        ensures
            r@ == self.failed(),
    {
        &self.failed
    }

    /// Starts the fan-out of the oldest event on the bus: takes it off and
    /// returns it with one invocation per handler. While an earlier fan-out
    /// is in flight, or the bus is empty, nothing is taken and nothing
    /// returned.
    pub fn next(&mut self, bus: &mut EventBus, handlers: &Vec<u128>) -> (r: Option<FanOut>)
        ensures
            final(bus).limit() == old(bus).limit(),
            old(self).idle() && old(bus).pending().len() > 0 ==> {
                &&& r matches Some(fan)
                &&& fan.event@ == old(bus).pending()[0]
                &&& fan.invocations.deep_view() == fan_out(old(bus).pending()[0], handlers@)
                &&& forall|i: int|
                    0 <= i < fan.invocations@.len() ==> (#[trigger] fan.invocations@[i]).request
                        == (EventRequest { git: fan.event })
                &&& final(bus).pending() == old(bus).pending().drop_first()
                &&& final(self).waiting() == handlers@
                &&& final(self).failed() == Seq::<u128>::empty()
            },
            !(old(self).idle() && old(bus).pending().len() > 0) ==> {
                &&& r is None
                &&& final(bus).pending() == old(bus).pending()
                &&& final(self).waiting() == old(self).waiting()
                &&& final(self).failed() == old(self).failed()
            },
    {
        if self.waiting.len() > 0 {
            return None;
        }
        let event = match bus.pop() {
            Some(event) => event,
            None => {
                return None;
            },
        };
        let mut plan: Vec<Invocation> = Vec::new();
        let mut waiting: Vec<u128> = Vec::new();
        let mut i: usize = 0;
        while i < handlers.len()
            invariant
                i <= handlers.len(),
                plan@.len() == i,
                waiting@ == handlers@.take(i as int),
                forall|j: int|
                    0 <= j < i ==> (#[trigger] plan@[j])@ == (InvocationView {
                        handler: handlers@[j],
                        request: EventRequestView { git: event@ },
                    }),
                forall|j: int|
                    0 <= j < i ==> (#[trigger] plan@[j]).request == (EventRequest { git: event }),
            decreases handlers.len() - i,
        {
            plan.push(Invocation { handler: handlers[i], request: EventRequest { git: event.clone() } });
            waiting.push(handlers[i]);
            i = i + 1;
        }
        proof {
            assert(handlers@.take(handlers@.len() as int) == handlers@);
            assert(plan.deep_view() =~= fan_out(event@, handlers@));
        }
        self.waiting = waiting;
        self.failed = Vec::new();
        Some(FanOut { event, invocations: plan })
    }

    /// Takes in the report of one invocation. A handler that was waited for
    /// is struck off, whether it succeeded or failed; a failure is noted. A
    /// report for a handler that is not waited for changes nothing. Returns
    /// whether the handler was waited for.
    pub fn complete(&mut self, handler: u128, succeeded: bool) -> (r: bool)
        ensures
            r == old(self).waiting().contains(handler),
            final(self).waiting() == without(old(self).waiting(), handler),
            final(self).failed() == if r && !succeeded {
                old(self).failed().push(handler)
            } else {
                old(self).failed()
            },
    {
        let mut i: usize = 0;
        while i < self.waiting.len()
            invariant
                i <= self.waiting.len(),
                self.waiting@ == old(self).waiting@,
                self.failed@ == old(self).failed@,
                forall|j: int| 0 <= j < i ==> self.waiting@[j] != handler,
            decreases self.waiting.len() - i,
        {
            if self.waiting[i] == handler {
                proof {
                    lemma_without_at(self.waiting@, handler, i as int);
                }
                self.waiting.remove(i);
                if !succeeded {
                    self.failed.push(handler);
                }
                return true;
            }
            i = i + 1;
        }
        proof {
            lemma_without_absent(self.waiting@, handler);
        }
        false
    }
}

/// Every registered handler is invoked for an event exactly once, with a
/// request that wraps the event.
pub proof fn law_each_handler_exactly_once(event: GitEventView, handlers: Seq<u128>)
    requires
        handlers.no_duplicates(),
    ensures
        fan_out(event, handlers).len() == handlers.len(),
        forall|i: int|
            0 <= i < handlers.len() ==> (#[trigger] fan_out(event, handlers)[i]).request.git
                == event,
        forall|id: u128|
            handlers.contains(id) ==> exists|i: int|
                0 <= i < handlers.len() && (#[trigger] fan_out(event, handlers)[i]).handler == id,
        forall|i: int, j: int|
            0 <= i < handlers.len() && 0 <= j < handlers.len() && fan_out(event, handlers)[i].handler
                == fan_out(event, handlers)[j].handler ==> i == j,
{
    let plan = fan_out(event, handlers);
    assert forall|id: u128| handlers.contains(id) implies exists|i: int|
        0 <= i < handlers.len() && (#[trigger] plan[i]).handler == id by {
        let i = choose|i: int| 0 <= i < handlers.len() && handlers[i] == id;
        assert(plan[i].handler == id);
    }
}

/// A fan-out is over exactly when every handler has reported: after the
/// reports of some of the handlers, each once and in any order, as many
/// are waited for as have not reported.
pub proof fn law_fan_out_ends_with_last_report(handlers: Seq<u128>, order: Seq<u128>)
    requires
        handlers.no_duplicates(),
        order.no_duplicates(),
        forall|i: int| 0 <= i < order.len() ==> handlers.contains(#[trigger] order[i]),
    ensures
        after_completions(handlers, order).no_duplicates(),
        forall|id: u128| #[trigger]
            after_completions(handlers, order).contains(id) <==> (handlers.contains(id)
                && !order.contains(id)),
        after_completions(handlers, order).len() == handlers.len() - order.len(),
        after_completions(handlers, order).len() == 0 <==> order.len() == handlers.len(),
    decreases order.len(),
{
    if order.len() > 0 {
        let earlier = order.drop_last();
        let last = order.last();
        assert forall|i: int| 0 <= i < earlier.len() implies handlers.contains(
            #[trigger] earlier[i],
        ) by {
            assert(earlier[i] == order[i]);
        }
        law_fan_out_ends_with_last_report(handlers, earlier);
        let left = after_completions(handlers, earlier);
        lemma_without_distinct(left, last);
        assert(!earlier.contains(last)) by {
            if earlier.contains(last) {
                let i = choose|i: int| 0 <= i < earlier.len() && earlier[i] == last;
                assert(order[i] == order[order.len() - 1]);
            }
        }
        assert(handlers.contains(order[order.len() - 1]));
        assert(left.contains(last));
        assert forall|id: u128| #[trigger]
            after_completions(handlers, order).contains(id) <==> (handlers.contains(id)
                && !order.contains(id)) by {
            assert(after_completions(handlers, order) == without(left, last));
            assert(without(left, last).contains(id) <==> (left.contains(id) && id != last));
            assert(left.contains(id) <==> (handlers.contains(id) && !earlier.contains(id)));
            if id == last {
                assert(order[order.len() - 1] == id);
            }
            if order.contains(id) {
                let i = choose|i: int| 0 <= i < order.len() && order[i] == id;
                if i < order.len() - 1 {
                    assert(earlier[i] == id);
                }
            }
            if earlier.contains(id) {
                let i = choose|i: int| 0 <= i < earlier.len() && earlier[i] == id;
                assert(order[i] == id);
            }
        }
    }
}

} // verus!
