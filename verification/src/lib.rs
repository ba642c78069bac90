//! Event debouncing and absence watchdog for a stream of loudness samples.
//!
//! A capture callback offers above-threshold amplitude samples to an
//! [`coalescer::EventCoalescer`].  A [`debounce::DebounceWorker`] turns them
//! into rate-limited event notifications and tells a
//! [`watchdog::WatchdogWorker`], through a [`notify::NotifySlot`], that an
//! event occurred; the watchdog publishes an absence notification for every
//! window in which it heard nothing.
//!
//! The workers are written as state machines that take what happened and say
//! what to do next, so that the caller owns every suspension point.

pub mod channel;
pub mod coalescer;
pub mod debounce;
pub mod error;
pub mod guarantees;
pub mod notification;
pub mod notify;
pub mod timeline;
pub mod watchdog;
