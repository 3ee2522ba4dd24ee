//! Runtime-agnostic building blocks for asynchronous I/O back ends.
//!
//! The library holds the decisions that every back end shares: the ordered
//! fallback over resolved socket addresses, the choice of a datagram's
//! target, the outcome of cancelling a spawned task, the cached exit status
//! of a child process, and the whole-file read and write helpers. Each is a
//! small state machine or function over plain values; the back end performs
//! the I/O that the machine asks for and hands back what happened.

pub mod addr;
pub mod error;
pub mod fs;
pub mod process;
pub mod resolve;
pub mod runtime;
pub mod task;
