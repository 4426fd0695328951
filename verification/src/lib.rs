//! A bounded worker pool, written as a deterministic core, and the responder
//! of the small web server that runs on it.
//!
//! The pool owns a fixed set of workers and one ordered queue of pending
//! jobs. Every decision the pool takes (whether a pool may be built, whether a
//! job is accepted, which job an idle worker receives, when a worker exits and
//! whom a disposing owner waits for) is a function of this crate, with a
//! contract over the mathematical model in [`model`]. What follows from these
//! contracts for every sequence of calls is proved in [`laws`], over the
//! histories of [`history`]. Operating-system threads and blocking are left
//! to the program that drives the core.

pub mod error;
pub mod history;
pub mod http;
pub mod laws;
pub mod model;
pub mod pool;
pub mod queue;
pub mod worker;

pub use error::ThreadPoolError;
pub use pool::ThreadPool;
