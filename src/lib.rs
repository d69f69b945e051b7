//! Task dispatch and scheduling for a runtime that owns a single-threaded interpreter.
//!
//! Producers wrap work in messages and push them into a bounded channel with an affinity;
//! runtime threads drain the channel, admit cooperative work into a fixed pool of slots and
//! run blocking work directly. Long-lived actors are fed through a private inbox.
use vstd::prelude::*;

pub mod queue;
pub mod slots;
pub mod error;
pub mod runtime;
pub mod scheduler;
pub mod persistent;
pub mod typecheck;
