//! A verified model of two in-process coordination primitives: a
//! request/reply worker served over a FIFO channel, and a shared
//! signal queue whose waiters re-check a predicate after every wakeup.
//!
//! The blocking machinery (threads, channels, mutexes, condition
//! variables) lives outside this crate; what is verified here is every
//! decision those loops make: how a request envelope is answered, how
//! the worker's lifecycle advances on each event, when a post is
//! accepted, and when a waiter may stop waiting.

pub mod envelope;
pub mod interleave;
pub mod signal_queue;
pub mod worker;
