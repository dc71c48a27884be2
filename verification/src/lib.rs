//! Change detection and dispatch for version-control sources that cannot push.
//!
//! A set of sources is polled on a fixed schedule. Each poll compares what the
//! source holds now with the revision tracked at the previous poll; a newly
//! arrived revision becomes a [`git::GitEvent`], travels over a bounded
//! [`bus::EventBus`] and is fanned out by the [`dispatch::Dispatcher`] to every
//! registered [`events::EventHandler`].
//!
//! Everything here is synchronous and free of I/O: processes, the filesystem
//! and timers are driven by the caller, who feeds their results to the step
//! functions of this crate.

pub mod action_event_handler;
pub mod builder;
pub mod bus;
pub mod cron;
pub mod dispatch;
pub mod engine;
pub mod events;
pub mod git;
pub mod identity;
pub mod registry;
pub mod storage;
