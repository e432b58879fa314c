//! Verified cores of small asynchronous and multi-threaded programs:
//! the arithmetic the worker threads run, the state machines that the
//! hand-written futures step through, and the data they share.

pub mod fib;
pub mod step;
pub mod counter;
pub mod shared;
pub mod waking;
pub mod logfile;
pub mod fetch;
pub mod queue;
pub mod pinning;
