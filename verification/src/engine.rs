//! One pass, run in order: every source is polled, what it yields goes on
//! the bus, and the bus is drained through the handlers.
//!
//! This is the engine without concurrency. A caller that polls and handles
//! in parallel makes the same steps itself, with `record_poll`,
//! `Dispatcher::next` and `Dispatcher::complete`.

use vstd::prelude::*;
use crate::bus::EventBus;
use crate::cron::{CronExecutor, Phase};
use crate::dispatch::{after_completions, law_fan_out_ends_with_last_report, Dispatcher, FanOut};
use crate::events::{EventHandler, EventRequest, EventResponse, HandlerError};
use crate::git::{poll, GitEvent, GitEventView, GitProvider, SourceError};
use crate::registry::HandlerRegistry;

verus! {

/// What became of one poll.
#[derive(Debug)]
pub enum PollRecord {
    /// The source yielded this event, and the bus took it.
    Published(GitEvent),
    /// The source yielded this event, and the bus was full.
    Blocked(GitEvent),
    /// The source had nothing new.
    Quiet,
    /// The poll failed. The source is polled again at the next pass.
    Failed(SourceError),
}

/// What a poll came to, as far as the bus is concerned.
pub enum Outcome {
    Event(GitEventView),
    Nothing,
    Failure,
}

/// The bus after one poll's outcome was recorded.
pub open spec fn recorded(pending: Seq<GitEventView>, limit: nat, outcome: Outcome) -> Seq<
    GitEventView,
> {
    match outcome {
        Outcome::Event(event) => if pending.len() < limit {
            pending.push(event)
        } else {
            pending
        },
        _ => pending,
    }
}

/// The bus after the outcomes of a pass were recorded, in the order in
/// which the polls ended.
pub open spec fn recorded_all(pending: Seq<GitEventView>, limit: nat, outcomes: Seq<Outcome>) -> Seq<
    GitEventView,
>
    decreases outcomes.len(),
{
    if outcomes.len() == 0 {
        pending
    } else {
        recorded(recorded_all(pending, limit, outcomes.drop_last()), limit, outcomes.last())
    }
}

/// A poll's result, as far as the bus is concerned.
pub open spec fn outcome_of(result: Result<Option<GitEvent>, SourceError>) -> Outcome {
    match result {
        Ok(Some(event)) => Outcome::Event(event@),
        Ok(None) => Outcome::Nothing,
        Err(_) => Outcome::Failure,
    }
}

/// Records what one poll came to. An event goes on the bus, or comes back
/// where the bus is full; a poll without news or with a failure leaves the
/// bus as it was.
pub fn record_poll(bus: &mut EventBus, result: Result<Option<GitEvent>, SourceError>) -> (r:
    PollRecord)
    ensures
        final(bus).limit() == old(bus).limit(),
        result matches Ok(Some(_)) ==> final(bus).limit() > 0,
        final(bus).pending() == recorded(old(bus).pending(), old(bus).limit(), outcome_of(result)),
        match result {
            Ok(Some(event)) => if old(bus).pending().len() < old(bus).limit() {
                r == PollRecord::Published(event)
            } else {
                r == PollRecord::Blocked(event)
            },
            Ok(None) => r is Quiet,
            Err(e) => r == PollRecord::Failed(e),
        },
{
    match result {
        Ok(Some(event)) => {
            let copy = event.clone();
            match bus.push(event) {
                Ok(()) => PollRecord::Published(copy),
                Err(back) => PollRecord::Blocked(back),
            }
        },
        Ok(None) => PollRecord::Quiet,
        Err(e) => PollRecord::Failed(e),
    }
}

/// A failed poll leaves no trace on the bus: the other polls of the pass are
/// recorded as if it had not taken place.
pub proof fn law_failure_is_isolated(
    pending: Seq<GitEventView>,
    limit: nat,
    before: Seq<Outcome>,
    after: Seq<Outcome>,
)
    ensures
        recorded(pending, limit, Outcome::Failure) == pending,
        recorded_all(pending, limit, before + seq![Outcome::Failure] + after) == recorded_all(
            pending,
            limit,
            before + after,
        ),
    decreases after.len(),
{
    let with_failure = before + seq![Outcome::Failure] + after;
    let without_failure = before + after;
    if after.len() == 0 {
        assert(with_failure.drop_last() =~= before);
        assert(without_failure =~= before);
    } else {
        law_failure_is_isolated(pending, limit, before, after.drop_last());
        assert(with_failure.drop_last() =~= before + seq![Outcome::Failure] + after.drop_last());
        assert(without_failure.drop_last() =~= before + after.drop_last());
        assert(with_failure.last() == after.last());
        assert(without_failure.last() == after.last());
    }
}

/// The fan-out of one event, when it is over.
#[derive(Debug)]
pub struct FanOutReport {
    pub event: GitEvent,
    /// The handlers that were called, in the order of the calls.
    pub called: Vec<u128>,
    /// What each of them answered, in the same order.
    pub answers: Vec<Result<EventResponse, HandlerError>>,
    /// The handlers that answered with a failure, in the same order.
    pub failed: Vec<u128>,
}

/// The handlers among `called` whose answer is a failure, in their order.
pub open spec fn failures(
    called: Seq<u128>,
    answers: Seq<Result<EventResponse, HandlerError>>,
) -> Seq<u128>
    decreases called.len(),
{
    if called.len() == 0 || answers.len() != called.len() {
        Seq::empty()
    } else if answers.last() is Err {
        failures(called.drop_last(), answers.drop_last()).push(called.last())
    } else {
        failures(called.drop_last(), answers.drop_last())
    }
}

/// A report of a complete fan-out to `handlers`: every handler was called
/// once with a request that wraps the event, each answer is one that the
/// handler gives to that request, and the failures are the handlers that
/// answered with one.
pub open spec fn delivered<H: EventHandler>(report: FanOutReport, handlers: Map<u128, H>) -> bool {
    &&& report.called@.no_duplicates()
    &&& report.called@.to_set() == handlers.dom()
    &&& report.answers@.len() == report.called@.len()
    &&& forall|i: int|
        0 <= i < report.called@.len() ==> call_ensures(
            H::handle,
            (&handlers[#[trigger] report.called@[i]], (EventRequest { git: report.event })),
            report.answers@[i],
        )
    &&& report.failed@ == failures(report.called@, report.answers@)
}

/// The events of a run of fan-outs, in their order.
pub open spec fn fanned(reports: Seq<FanOutReport>) -> Seq<GitEventView> {
    Seq::new(reports.len(), |k: int| reports[k].event@)
}

/// The events that a run of polls put on the bus, in their order.
pub open spec fn published(polls: Seq<PollRecord>) -> Seq<GitEventView>
    decreases polls.len(),
{
    if polls.len() == 0 {
        Seq::empty()
    } else {
        match polls.last() {
            PollRecord::Published(event) => published(polls.drop_last()).push(event@),
            _ => published(polls.drop_last()),
        }
    }
}

/// What the source answered, read off the record of its poll.
pub open spec fn result_of(record: PollRecord) -> Result<Option<GitEvent>, SourceError> {
    match record {
        PollRecord::Published(event) => Ok(Some(event)),
        PollRecord::Blocked(event) => Ok(Some(event)),
        PollRecord::Quiet => Ok(None),
        PollRecord::Failed(e) => Err(e),
    }
}

/// Carries one fan-out through: calls every handler once and reports each
/// answer to the dispatcher.
fn deliver<H: EventHandler>(
    dispatcher: &mut Dispatcher,
    registry: &HandlerRegistry<H>,
    ids: &Vec<u128>,
    fan: FanOut,
) -> (r: FanOutReport)
    requires
        ids@.no_duplicates(),
        ids@.to_set() == registry.ids(),
        old(dispatcher).waiting() == ids@,
        old(dispatcher).failed() == Seq::<u128>::empty(),
        fan.invocations@.len() == ids@.len(),
        forall|i: int| 0 <= i < ids@.len() ==> (#[trigger] fan.invocations@[i]).handler == ids@[i],
        forall|i: int|
            0 <= i < ids@.len() ==> (#[trigger] fan.invocations@[i]).request == (EventRequest {
                git: fan.event,
            }),
    ensures
        final(dispatcher).idle(),
        r.event == fan.event,
        delivered(r, registry.entries()),
{
    let FanOut { event, invocations } = fan;
    let mut called: Vec<u128> = Vec::new();
    let mut answers: Vec<Result<EventResponse, HandlerError>> = Vec::new();
    let mut j: usize = 0;
    while j < invocations.len()
        invariant
            j <= invocations.len(),
            invocations@.len() == ids@.len(),
            ids@.no_duplicates(),
            ids@.to_set() == registry.ids(),
            forall|i: int| 0 <= i < ids@.len() ==> (#[trigger] invocations@[i]).handler == ids@[i],
            forall|i: int|
                0 <= i < ids@.len() ==> (#[trigger] invocations@[i]).request == (EventRequest {
                    git: event,
                }),
            called@ == ids@.take(j as int),
            answers@.len() == j,
            forall|i: int|
                0 <= i < j ==> call_ensures(
                    H::handle,
                    (&registry.entries()[#[trigger] called@[i]], (EventRequest { git: event })),
                    answers@[i],
                ),
            dispatcher.waiting() == after_completions(ids@, ids@.take(j as int)),
            dispatcher.failed() == failures(called@, answers@),
        decreases invocations.len() - j,
    {
        let id = invocations[j].handler;
        proof {
            let done = ids@.take(j as int);
            assert(ids@.to_set().contains(ids@[j as int]));
            assert forall|i: int| 0 <= i < done.len() implies ids@.contains(#[trigger] done[i]) by {
                assert(done[i] == ids@[i]);
            }
            law_fan_out_ends_with_last_report(ids@, done);
            assert(!done.contains(id)) by {
                if done.contains(id) {
                    let i = choose|i: int| 0 <= i < done.len() && done[i] == id;
                    assert(ids@[i] == ids@[j as int]);
                }
            }
            assert(dispatcher.waiting().contains(id));
        }
        match registry.get(id) {
            Some(handler) => {
                let answer = handler.handle(invocations[j].request.clone());
                let succeeded = answer.is_ok();
                let ghost before = (called@, answers@);
                dispatcher.complete(id, succeeded);
                called.push(id);
                answers.push(answer);
                proof {
                    let done = ids@.take(j as int + 1);
                    assert(done.drop_last() == ids@.take(j as int));
                    assert(done.last() == id);
                    assert(called@ =~= done);
                    assert(called@.drop_last() =~= before.0);
                    assert(answers@.drop_last() =~= before.1);
                    assert(answers@.last() == answer);
                    assert forall|i: int| 0 <= i < j + 1 implies call_ensures(
                        H::handle,
                        (&registry.entries()[#[trigger] called@[i]], (EventRequest { git: event })),
                        answers@[i],
                    ) by {
                        if i < j {
                            assert(called@[i] == before.0[i]);
                            assert(answers@[i] == before.1[i]);
                        }
                    }
                }
            },
            None => {},
        }
        j = j + 1;
    }
    proof {
        assert(ids@.take(ids@.len() as int) == ids@);
        assert forall|i: int| 0 <= i < ids@.len() implies ids@.contains(#[trigger] ids@[i]) by {}
        law_fan_out_ends_with_last_report(ids@, ids@);
    }
    let failed = dispatcher.failures().clone();
    FanOutReport { event, called, answers, failed }
}

/// Drains the bus: for every event, oldest first, every registered handler
/// is called once, and the next event is taken up when all of them have
/// answered. A handler's failure is noted in the report and stops nothing.
///
/// While a fan-out from elsewhere is in flight, nothing is touched.
pub fn drain<H: EventHandler>(
    dispatcher: &mut Dispatcher,
    bus: &mut EventBus,
    registry: &HandlerRegistry<H>,
) -> (r: Vec<FanOutReport>)
    ensures
        final(bus).limit() == old(bus).limit(),
        old(dispatcher).idle() ==> {
            &&& final(dispatcher).idle()
            &&& final(bus).pending().len() == 0
            &&& fanned(r@) == old(bus).pending()
            &&& forall|k: int| 0 <= k < r@.len() ==> delivered(#[trigger] r@[k], registry.entries())
        },
        !old(dispatcher).idle() ==> {
            &&& r@.len() == 0
            &&& final(bus).pending() == old(bus).pending()
            &&& final(dispatcher).waiting() == old(dispatcher).waiting()
            &&& final(dispatcher).failed() == old(dispatcher).failed()
        },
{
    let mut reports: Vec<FanOutReport> = Vec::new();
    if !dispatcher.is_idle() {
        return reports;
    }
    let ids = registry.handler_ids();
    loop
        invariant
            dispatcher.idle(),
            bus.limit() == old(bus).limit(),
            ids@.no_duplicates(),
            ids@.to_set() == registry.ids(),
            reports@.len() <= old(bus).pending().len(),
            bus.pending() == old(bus).pending().skip(reports@.len() as int),
            forall|k: int|
                0 <= k < reports@.len() ==> (#[trigger] reports@[k]).event@ == old(bus).pending()[k],
            forall|k: int|
                0 <= k < reports@.len() ==> delivered(#[trigger] reports@[k], registry.entries()),
        ensures
            dispatcher.idle(),
            bus.limit() == old(bus).limit(),
            bus.pending().len() == 0,
            reports@.len() == old(bus).pending().len(),
            forall|k: int|
                0 <= k < reports@.len() ==> (#[trigger] reports@[k]).event@ == old(bus).pending()[k],
            forall|k: int|
                0 <= k < reports@.len() ==> delivered(#[trigger] reports@[k], registry.entries()),
        decreases bus.pending().len(),
    {
        let fan = match dispatcher.next(bus, &ids) {
            Some(fan) => fan,
            None => {
                break ;
            },
        };
        proof {
            let due = fan.invocations.deep_view();
            assert(due.len() == fan.invocations@.len());
            assert forall|i: int| 0 <= i < ids@.len() implies (#[trigger] fan.invocations@[i]).handler
                == ids@[i] by {
                assert(due[i] == fan.invocations@[i]@);
            }
            assert(old(bus).pending().skip(reports@.len() as int).drop_first() == old(
                bus,
            ).pending().skip(reports@.len() as int + 1));
        }
        let report = deliver(dispatcher, registry, &ids, fan);
        reports.push(report);
    }
    proof {
        assert(fanned(reports@) =~= old(bus).pending());
    }
    reports
}

/// What one pass did.
#[derive(Debug)]
pub struct PassReport {
    /// What became of each poll, in the order of the sources.
    pub polls: Vec<PollRecord>,
    /// The fan-outs that were completed, in the order of their events.
    pub fan_outs: Vec<FanOutReport>,
}

impl CronExecutor {
    /// Runs one pass, if one may begin: polls every source once, in turn,
    /// puts what it yields on the bus, and drains the bus through the
    /// handlers. Where the bus is full it is drained at once, so that the
    /// event can follow. A source that fails is noted and the pass goes on
    /// with the next. The pass stays in flight until `finish_pass`.
    ///
    /// Returns nothing, and does nothing, where no pass may begin.
    pub fn run_pass<P: GitProvider, H: EventHandler>(
        &mut self,
        providers: &mut Vec<P>,
        registry: &HandlerRegistry<H>,
        bus: &mut EventBus,
        dispatcher: &mut Dispatcher,
    ) -> (r: Option<PassReport>)
        ensures
            final(self).options() == old(self).options(),
            final(self).stage() == old(self).stage(),
            final(bus).limit() == old(bus).limit(),
            final(providers)@.len() == old(providers)@.len(),
            r is Some <==> (old(self).stage() == Phase::Running && !old(self).busy()),
            match r {
                Some(report) => {
                    &&& final(self).busy()
                    &&& report.polls@.len() == old(providers)@.len()
                    &&& forall|i: int|
                        #![trigger report.polls@[i]]
                        0 <= i < report.polls@.len() ==> exists|inside: &mut P|
                            {
                                &&& *inside == old(providers)@[i]
                                &&& *final(inside) == final(providers)@[i]
                                &&& #[trigger] call_ensures(
                                    P::listen,
                                    (inside,),
                                    result_of(report.polls@[i]),
                                )
                            }
                    &&& forall|k: int|
                        0 <= k < report.fan_outs@.len() ==> delivered(
                            #[trigger] report.fan_outs@[k],
                            registry.entries(),
                        )
                    &&& old(dispatcher).idle() ==> {
                        &&& final(dispatcher).idle()
                        &&& final(bus).pending().len() == 0
                        &&& forall|i: int|
                            0 <= i < report.polls@.len() ==> !(#[trigger] report.polls@[i] is Blocked)
                        &&& fanned(report.fan_outs@) == old(bus).pending() + published(
                            report.polls@,
                        )
                    }
                },
                None => {
                    &&& final(providers)@ == old(providers)@
                    &&& final(self).busy() == old(self).busy()
                    &&& final(bus).pending() == old(bus).pending()
                    &&& final(dispatcher).waiting() == old(dispatcher).waiting()
                    &&& final(dispatcher).failed() == old(dispatcher).failed()
                },
            },
    {
        if !self.begin_pass() {
            return None;
        }
        let mut polls: Vec<PollRecord> = Vec::new();
        let mut fan_outs: Vec<FanOutReport> = Vec::new();
        let mut i: usize = 0;
        while i < providers.len()
            invariant
                i <= providers.len(),
                providers@.len() == old(providers)@.len(),
                bus.limit() == old(bus).limit(),
                polls@.len() == i,
                forall|k: int| i <= k < providers@.len() ==> providers@[k] == old(providers)@[k],
                forall|k: int|
                    #![trigger polls@[k]]
                    0 <= k < i ==> exists|inside: &mut P|
                        {
                            &&& *inside == old(providers)@[k]
                            &&& *final(inside) == providers@[k]
                            &&& #[trigger] call_ensures(P::listen, (inside,), result_of(polls@[k]))
                        },
                forall|k: int|
                    0 <= k < fan_outs@.len() ==> delivered(#[trigger] fan_outs@[k], registry.entries()),
                old(dispatcher).idle() ==> dispatcher.idle(),
                old(dispatcher).idle() ==> forall|k: int|
                    0 <= k < polls@.len() ==> !(#[trigger] polls@[k] is Blocked),
                old(dispatcher).idle() ==> fanned(fan_outs@) + bus.pending() == old(bus).pending()
                    + published(polls@),
            decreases providers.len() - i,
        {
            let ghost sources_before = providers@;
            let ghost polls_before = polls@;
            let result = poll(&mut providers[i]);
            let ghost fanned_before = fanned(fan_outs@);
            let ghost pending_before = bus.pending();
            let record = match record_poll(bus, result) {
                PollRecord::Blocked(event) => {
                    let mut drained = drain(dispatcher, bus, registry);
                    let ghost taken = drained@;
                    let ghost kept = fan_outs@;
                    fan_outs.append(&mut drained);
                    let retried = record_poll(bus, Ok(Some(event)));
                    proof {
                        assert forall|k: int| 0 <= k < fan_outs@.len() implies delivered(
                            #[trigger] fan_outs@[k],
                            registry.entries(),
                        ) by {
                            if k < kept.len() {
                                assert(fan_outs@[k] == kept[k]);
                            } else {
                                assert(fan_outs@[k] == taken[k - kept.len()]);
                            }
                        }
                        if old(dispatcher).idle() {
                            assert(fanned(fan_outs@) =~= fanned_before + fanned(taken));
                            assert(retried == PollRecord::Published(event));
                            assert(bus.pending() =~= seq![event@]);
                            assert(fanned(fan_outs@) + bus.pending() =~= (fanned_before
                                + pending_before).push(event@));
                        }
                    }
                    retried
                },
                record => {
                    proof {
                        if record is Published {
                            let event = record->Published_0;
                            assert(fanned(fan_outs@) + bus.pending() =~= (fanned_before
                                + pending_before).push(event@));
                        }
                    }
                    record
                },
            };
            proof {
                assert(result_of(record) == result);
                let longer = polls@.push(record);
                assert(longer.drop_last() == polls@);
                assert(longer.last() == record);
                if old(dispatcher).idle() {
                    if record is Published {
                        let event = record->Published_0;
                        assert(published(longer) == published(polls@).push(event@));
                        assert((old(bus).pending() + published(polls@)).push(event@) =~= old(
                            bus,
                        ).pending() + published(longer));
                    } else {
                        assert(published(longer) == published(polls@));
                    }
                }
            }
            polls.push(record);
            proof {
                assert forall|k: int| #![trigger polls@[k]] 0 <= k < i + 1 implies exists|inside: &mut P|
                    {
                        &&& *inside == old(providers)@[k]
                        &&& *final(inside) == providers@[k]
                        &&& #[trigger] call_ensures(P::listen, (inside,), result_of(polls@[k]))
                    } by {
                    if k < i {
                        assert(polls@[k] == polls_before[k]);
                        assert(providers@[k] == sources_before[k]);
                    } else {
                        assert(polls@[k] == record);
                    }
                }
            }
            i = i + 1;
        }
        let ghost kept = fan_outs@;
        let ghost before = fan_outs@;
        let mut drained = drain(dispatcher, bus, registry);
        let ghost taken = drained@;
        fan_outs.append(&mut drained);
        proof {
            assert forall|k: int| 0 <= k < fan_outs@.len() implies delivered(
                #[trigger] fan_outs@[k],
                registry.entries(),
            ) by {
                if k < kept.len() {
                    assert(fan_outs@[k] == kept[k]);
                } else {
                    assert(fan_outs@[k] == taken[k - kept.len()]);
                }
            }
            assert(fanned(fan_outs@) =~= fanned(before) + fanned(taken));
            if old(dispatcher).idle() {
                assert(fanned(fan_outs@) =~= old(bus).pending() + published(polls@));
            }
        }
        Some(PassReport { polls, fan_outs })
    }
}

/// An engine that is set up and started: the executor runs, the bus is
/// empty, no fan-out is in flight.
pub struct Engine<P: GitProvider, H: EventHandler> {
    pub executor: CronExecutor,
    pub providers: Vec<P>,
    pub handlers: HandlerRegistry<H>,
    pub bus: EventBus,
    pub dispatcher: Dispatcher,
}

impl<P: GitProvider, H: EventHandler> Engine<P, H> {
    /// Runs one pass over the engine's own sources and handlers, as
    /// `CronExecutor::run_pass` does.
    pub fn run_pass(&mut self) -> (r: Option<PassReport>)
        ensures
            final(self).executor.options() == old(self).executor.options(),
            final(self).executor.stage() == old(self).executor.stage(),
            final(self).bus.limit() == old(self).bus.limit(),
            final(self).providers@.len() == old(self).providers@.len(),
            final(self).handlers == old(self).handlers,
            r is Some <==> (old(self).executor.stage() == Phase::Running && !old(
                self,
            ).executor.busy()),
            match r {
                Some(report) => {
                    &&& final(self).executor.busy()
                    &&& report.polls@.len() == old(self).providers@.len()
                    &&& forall|i: int|
                        #![trigger report.polls@[i]]
                        0 <= i < report.polls@.len() ==> exists|inside: &mut P|
                            {
                                &&& *inside == old(self).providers@[i]
                                &&& *final(inside) == final(self).providers@[i]
                                &&& #[trigger] call_ensures(
                                    P::listen,
                                    (inside,),
                                    result_of(report.polls@[i]),
                                )
                            }
                    &&& forall|k: int|
                        0 <= k < report.fan_outs@.len() ==> delivered(
                            #[trigger] report.fan_outs@[k],
                            old(self).handlers.entries(),
                        )
                    &&& old(self).dispatcher.idle() ==> {
                        &&& final(self).dispatcher.idle()
                        &&& final(self).bus.pending().len() == 0
                        &&& forall|i: int|
                            0 <= i < report.polls@.len() ==> !(#[trigger] report.polls@[i] is Blocked)
                        &&& fanned(report.fan_outs@) == old(self).bus.pending() + published(
                            report.polls@,
                        )
                    }
                },
                None => {
                    &&& final(self).providers@ == old(self).providers@
                    &&& final(self).executor.busy() == old(self).executor.busy()
                    &&& final(self).bus.pending() == old(self).bus.pending()
                    &&& final(self).dispatcher.waiting() == old(self).dispatcher.waiting()
                    &&& final(self).dispatcher.failed() == old(self).dispatcher.failed()
                },
            },
    {
        self.executor.run_pass(
            &mut self.providers,
            &self.handlers,
            &mut self.bus,
            &mut self.dispatcher,
        )
    }
}

} // verus!
