//! An asynchronous reader-writer lock for cooperatively scheduled tasks.
//!
//! Acquisition never blocks a hardware thread: a failed attempt registers the
//! caller's wake handle in a FIFO waiter queue and reports "pending", leaving
//! the surrounding scheduler to re-poll after a wakeup.  The lock state is a
//! single signed integer (`0` unlocked, `-1` write-held, `n >= 1` readers),
//! and a single fairness bit, toggled on each write release, bounds writer
//! starvation under sustained read traffic.
//!
//! The crate separates the synchronization decisions, which are verified,
//! from the scheduler and hardware plumbing (real wakers, interrupt masking),
//! which an embedding runtime supplies around them.

pub mod model;
pub mod net;
pub mod rwlock;
pub mod stat;
