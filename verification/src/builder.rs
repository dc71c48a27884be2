//! Putting an engine together: sources, handlers and the interval.

use vstd::prelude::*;
use crate::action_event_handler::ActionEventHandler;
use crate::bus::EventBus;
use crate::cron::{ConfigurationError, CronExecutor, Phase, SchedulerOpts, MIN_INTERVAL_MILLIS};
use crate::dispatch::Dispatcher;
use crate::engine::Engine;
use crate::events::{EventHandler, EventRequest, EventResponse, HandlerError};
use crate::git::GitProvider;
use crate::identity::fresh_id;
use crate::registry::HandlerRegistry;

verus! {

/// How many events the bus of an engine holds.
pub const BUS_CAPACITY: usize = 2;

pub struct Builder<P: GitProvider, H: EventHandler> {
    git_providers: Vec<P>,
    handlers: HandlerRegistry<H>,
    scheduler_opts: SchedulerOpts,
    refused: bool,
}

impl<P: GitProvider, H: EventHandler> Builder<P, H> {
    /// The registered sources, in the order of their registration.
    pub closed spec fn providers(&self) -> Seq<P> {
        self.git_providers@
    }

    /// The registered handlers by identifier.
    pub closed spec fn handlers(&self) -> Map<u128, H> {
        self.handlers.entries()
    }

    /// How many sources are registered.
    pub open spec fn sources(&self) -> nat {
        self.providers().len()
    }

    /// The identifiers of the registered handlers.
    pub open spec fn handler_ids(&self) -> Set<u128> {
        self.handlers().dom()
    }

    pub closed spec fn options(&self) -> SchedulerOpts {
        self.scheduler_opts
    }

    /// A handler was refused because its identifier was taken.
    pub closed spec fn refused(&self) -> bool {
        self.refused
    }

    /// No sources, no handlers, and the default interval.
    pub fn new() -> (r: Self)
        ensures
            r.providers() == Seq::<P>::empty(),
            r.handlers() == Map::<u128, H>::empty(),
            r.options().millis() == 300_000,
            !r.refused(),
    {
        Builder {
            git_providers: Vec::new(),
            handlers: HandlerRegistry::new(),
            scheduler_opts: SchedulerOpts::default(),
            refused: false,
        }
    }

    pub fn add_git_provider(self, git_provider: P) -> (r: Self)
        ensures
            r.providers() == self.providers().push(git_provider),
            r.handlers() == self.handlers(),
            r.options() == self.options(),
            r.refused() == self.refused(),
    {
        let mut builder = self;
        builder.git_providers.push(git_provider);
        builder
    }

    pub fn set_scheduler_opts(self, opts: &SchedulerOpts) -> (r: Self)
        ensures
            r.providers() == self.providers(),
            r.handlers() == self.handlers(),
            r.options() == *opts,
            r.refused() == self.refused(),
    {
        let mut builder = self;
        builder.scheduler_opts = opts.clone();
        builder
    }

    /// Registers `handler` under `id`. Where the identifier is in use, or
    /// a handler was refused before, the handler is not registered and the
    /// builder remembers the refusal. No registration is ever replaced.
    pub fn register_handler(self, id: u128, handler: H) -> (r: Self)
        ensures
            r.providers() == self.providers(),
            r.options() == self.options(),
            r.refused() == (self.refused() || self.handler_ids().contains(id)),
            r.handlers() == if r.refused() {
                self.handlers()
            } else {
                self.handlers().insert(id, handler)
            },
    {
        let mut builder = self;
        if builder.refused {
            return builder;
        }
        match builder.handlers.insert(id, handler) {
            Ok(()) => {},
            Err(_) => {
                builder.refused = true;
            },
        }
        builder
    }

    /// Registers `handler` under a freshly drawn identifier, as
    /// `register_handler` does. Whatever is drawn: either the handler
    /// stands under an identifier that was free, beside the handlers that
    /// were there, or the builder remembers a refusal and its handlers are
    /// as they were. A refusal needs an earlier refusal or an identifier in
    /// use: the first handler of a builder is always registered.
    pub fn add_handler(self, handler: H) -> (r: Self)
        ensures
            r.providers() == self.providers(),
            r.options() == self.options(),
            r.refused() ==> r.handlers() == self.handlers(),
            r.refused() ==> (self.refused() || exists|id: u128| #[trigger]
                self.handler_ids().contains(id)),
            !r.refused() ==> !self.refused() && exists|id: u128|
                !self.handler_ids().contains(id) && r.handlers() == #[trigger] self.handlers().insert(
                    id,
                    handler,
                ),
    {
        let id = fresh_id();
        let builder = self.register_handler(id, handler);
        proof {
            if builder.refused() && !self.refused() {
                assert(self.handler_ids().contains(id));
            }
            if !builder.refused() {
                assert(builder.handlers() == self.handlers().insert(id, handler));
            }
        }
        builder
    }

    /// Validates the setup and starts the executor. Refused, in this order: a
    /// builder that had to refuse a handler, one without sources, one with
    /// an interval under a second.
    pub fn build(self) -> (r: Result<Engine<P, H>, ConfigurationError>)
        ensures
            match r {
                Ok(engine) => {
                    &&& !self.refused()
                    &&& self.sources() > 0
                    &&& self.options().millis() >= MIN_INTERVAL_MILLIS
                    &&& engine.providers@ == self.providers()
                    &&& engine.handlers.entries() == self.handlers()
                    &&& engine.executor.stage() == Phase::Running
                    &&& !engine.executor.busy()
                    &&& engine.executor.options() == self.options()
                    &&& engine.bus.pending().len() == 0
                    &&& engine.bus.limit() == BUS_CAPACITY
                    &&& engine.dispatcher.idle()
                },
                Err(e) => e == if self.refused() {
                    ConfigurationError::DuplicateHandler
                } else if self.sources() == 0 {
                    ConfigurationError::NoSources
                } else {
                    ConfigurationError::IntervalTooShort
                } && (self.refused() || self.sources() == 0 || self.options().millis()
                    < MIN_INTERVAL_MILLIS),
            },
    {
        if self.refused {
            return Err(ConfigurationError::DuplicateHandler);
        }
        let mut executor = CronExecutor::new(self.scheduler_opts);
        match executor.start(self.git_providers.len()) {
            Ok(()) => Ok(
                Engine {
                    executor,
                    providers: self.git_providers,
                    handlers: self.handlers,
                    bus: EventBus::new(BUS_CAPACITY),
                    dispatcher: Dispatcher::new(),
                },
            ),
            Err(e) => Err(e),
        }
    }
}

impl<
    P: GitProvider,
    F: Fn(EventRequest) -> Result<EventResponse, HandlerError>,
> Builder<P, ActionEventHandler<F>> {
    /// Registers a function as a handler, as `add_handler` does: the
    /// handler registered is the one made from `func`. The function must
    /// accept every request.
    pub fn action(self, func: F) -> (r: Self)
        requires
            forall|req: EventRequest| func.requires((req,)),
        ensures
            r.providers() == self.providers(),
            r.options() == self.options(),
            r.refused() ==> r.handlers() == self.handlers(),
            r.refused() ==> (self.refused() || exists|id: u128| #[trigger]
                self.handler_ids().contains(id)),
            !r.refused() ==> !self.refused() && exists|id: u128, handler: ActionEventHandler<F>|
                {
                    &&& !self.handler_ids().contains(id)
                    &&& handler.action() == func
                    &&& r.handlers() == #[trigger] self.handlers().insert(id, handler)
                },
    {
        let handler = ActionEventHandler::new(func);
        let builder = self.add_handler(handler);
        proof {
            if !builder.refused() {
                let id = choose|id: u128|
                    !self.handler_ids().contains(id) && builder.handlers()
                        == #[trigger] self.handlers().insert(id, handler);
                assert(builder.handlers() == self.handlers().insert(id, handler));
            }
        }
        builder
    }
}

} // verus!
