//! The scheduler: when passes run, and what a pass does with what the
//! sources report.
//!
//! The executor keeps no clock and starts no timer. The caller tells it that
//! a pass has ended and how long it took, and is told how long to wait
//! before the next one.

use vstd::prelude::*;
use std::time::Duration;

verus! {

/// The length of a `Duration` in whole milliseconds.
pub uninterp spec fn millis_of(d: Duration) -> nat;

/// `Duration::from_secs`. Trusted: the result is that many seconds long.
pub assume_specification[ Duration::from_secs ](secs: u64) -> (r: Duration)
    ensures
        millis_of(r) == secs * 1000,
;

/// `Duration::as_millis`. Trusted: the whole milliseconds of the duration.
pub assume_specification[ Duration::as_millis ](d: &Duration) -> (r: u128)
    ensures
        r == millis_of(*d),
;

/// `clone` of a `Duration`. Trusted: the copy equals what was copied.
pub assume_specification[ <Duration as Clone>::clone ](d: &Duration) -> (r: Duration)
    ensures
        r == *d,
;

/// The shortest interval that the scheduler accepts, in milliseconds. A
/// timer cannot be re-armed reliably below one second.
pub const MIN_INTERVAL_MILLIS: u64 = 1000;

/// Why an engine was not started.
#[derive(Debug, Clone, Copy, PartialEq, Eq, Structural)]
pub enum ConfigurationError {
    /// No source is registered.
    NoSources,
    /// The interval between passes is shorter than one second.
    IntervalTooShort,
    /// The executor was started before.
    AlreadyStarted,
    /// Two handlers were given the same identifier.
    DuplicateHandler,
}

#[derive(Debug)]
pub struct SchedulerOpts {
    /// The least time between the starts of two passes.
    pub duration: Duration,
}

impl Clone for SchedulerOpts {
    fn clone(&self) -> (r: Self)
        ensures
            r == *self,
    {
        SchedulerOpts { duration: self.duration.clone() }
    }
}

impl Default for SchedulerOpts {
    /// Five minutes between passes.
    fn default() -> (r: Self)
        ensures
            r.millis() == 300_000,
    {
        SchedulerOpts { duration: Duration::from_secs(300) }
    }
}

impl SchedulerOpts {
    /// The interval in whole milliseconds.
    pub open spec fn millis(&self) -> nat {
        millis_of(self.duration)
    }

    /// The interval in whole milliseconds, or `u64::MAX` where it is longer
    /// than that.
    pub fn interval_millis(&self) -> (r: u64)
        ensures
            r == if self.millis() <= u64::MAX {
                self.millis()
            } else {
                u64::MAX as nat
            },
    {
        let millis: u128 = self.duration.as_millis();
        if millis > u64::MAX as u128 {
            u64::MAX
        } else {
            millis as u64
        }
    }

    /// Refuses an interval under one second.
    pub fn validate(&self) -> (r: Result<(), ConfigurationError>)
        ensures
            self.millis() >= MIN_INTERVAL_MILLIS ==> r is Ok,
            self.millis() < MIN_INTERVAL_MILLIS ==> r == Err::<(), ConfigurationError>(
                ConfigurationError::IntervalTooShort,
            ),
    {
        if self.interval_millis() >= MIN_INTERVAL_MILLIS {
            Ok(())
        } else {
            Err(ConfigurationError::IntervalTooShort)
        }
    }
}

/// Where the scheduler stands.
#[derive(Debug, Clone, Copy, PartialEq, Eq, Structural)]
pub enum Phase {
    /// Constructed, not started.
    Idle,
    /// Passes run, one at a time.
    Running,
    /// A stop was asked for: a pass in flight ends, no new one starts.
    ShuttingDown,
}

/// What the caller is to do after a pass.
#[derive(Debug, Clone, Copy, PartialEq, Eq, Structural)]
pub enum Directive {
    /// Wait this many milliseconds, then begin the next pass.
    Wait(u64),
    /// Begin no pass any more; let the dispatcher drain the bus, then stop.
    Stop,
}

/// How long to wait after a pass that took `elapsed` milliseconds, so that
/// passes start at least `interval` apart: the rest of the interval, and
/// nothing where the pass overran it.
pub open spec fn pause_after(interval: nat, elapsed: nat) -> nat {
    if elapsed >= interval {
        0
    } else {
        (interval - elapsed) as nat
    }
}

pub struct CronExecutor {
    opts: SchedulerOpts,
    phase: Phase,
    pass_in_flight: bool,
}

impl CronExecutor {
    pub closed spec fn options(&self) -> SchedulerOpts {
        self.opts
    }

    pub closed spec fn stage(&self) -> Phase {
        self.phase
    }

    /// A pass has begun and has not ended.
    pub closed spec fn busy(&self) -> bool {
        self.pass_in_flight
    }

    /// The interval between passes in milliseconds, as far as a `u64` holds
    /// it.
    pub open spec fn interval(&self) -> nat {
        if self.options().millis() <= u64::MAX {
            self.options().millis()
        } else {
            u64::MAX as nat
        }
    }

    pub fn new(opts: SchedulerOpts) -> (r: Self)
        ensures
            r.options() == opts,
            r.stage() == Phase::Idle,
            !r.busy(),
    {
        CronExecutor { opts, phase: Phase::Idle, pass_in_flight: false }
    }

    pub fn phase(&self) -> (r: Phase)
        ensures
            r == self.stage(),
    {
        self.phase
    }

    pub fn opts(&self) -> (r: &SchedulerOpts)
        ensures
            *r == self.options(),
    {
        &self.opts
    }

    /// Starts the executor for `sources` registered sources. An executor
    /// that was started before, one without sources and one with an
    /// interval under a second are refused, in this order, and stay as they
    /// are. After a start the first pass is due at once.
    pub fn start(&mut self, sources: usize) -> (r: Result<(), ConfigurationError>)
        ensures
            final(self).options() == old(self).options(),
            final(self).busy() == old(self).busy(),
            r == if old(self).stage() != Phase::Idle {
                Err::<(), ConfigurationError>(ConfigurationError::AlreadyStarted)
            } else if sources == 0 {
                Err(ConfigurationError::NoSources)
            } else if old(self).options().millis() < MIN_INTERVAL_MILLIS {
                Err(ConfigurationError::IntervalTooShort)
            } else {
                Ok(())
            },
            final(self).stage() == if r is Ok {
                Phase::Running
            } else {
                old(self).stage()
            },
    {
        match self.phase {
            Phase::Idle => {},
            _ => {
                return Err(ConfigurationError::AlreadyStarted);
            },
        }
        if sources == 0 {
            return Err(ConfigurationError::NoSources);
        }
        match self.opts.validate() {
            Ok(()) => {
                self.phase = Phase::Running;
                Ok(())
            },
            Err(e) => Err(e),
        }
    }

    /// Asks for leave to begin a pass. It is given while the executor runs
    /// and no pass is in flight; the pass is then in flight until
    /// `finish_pass`.
    pub fn begin_pass(&mut self) -> (r: bool)
        ensures
            r == (old(self).stage() == Phase::Running && !old(self).busy()),
            final(self).busy() == (old(self).busy() || r),
            final(self).stage() == old(self).stage(),
            final(self).options() == old(self).options(),
    {
        match self.phase {
            Phase::Running => {
                if self.pass_in_flight {
                    false
                } else {
                    self.pass_in_flight = true;
                    true
                }
            },
            _ => false,
        }
    }

    /// Ends the pass in flight, which took `elapsed` milliseconds from its
    /// start. While the executor runs, the next pass is due after the rest
    /// of the interval, at once where the pass overran it; otherwise no
    /// pass is due any more.
    pub fn finish_pass(&mut self, elapsed: u64) -> (r: Directive)
        ensures
            !final(self).busy(),
            final(self).stage() == old(self).stage(),
            final(self).options() == old(self).options(),
            r == if old(self).stage() == Phase::Running {
                Directive::Wait(pause_after(old(self).interval(), elapsed as nat) as u64)
            } else {
                Directive::Stop
            },
    {
        self.pass_in_flight = false;
        match self.phase {
            Phase::Running => {
                let interval = self.opts.interval_millis();
                if elapsed >= interval {
                    Directive::Wait(0)
                } else {
                    Directive::Wait(interval - elapsed)
                }
            },
            _ => Directive::Stop,
        }
    }

    /// Takes in the stop signal. No pass begins from now on; one that is in
    /// flight goes on to its end. Returns whether a pass is in flight.
    pub fn shutdown(&mut self) -> (r: bool)
        ensures
            final(self).stage() == Phase::ShuttingDown,
            final(self).busy() == old(self).busy(),
            final(self).options() == old(self).options(),
            r == old(self).busy(),
    {
        self.phase = Phase::ShuttingDown;
        self.pass_in_flight
    }
}

} // verus!
