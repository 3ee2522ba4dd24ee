//! Runtime handles: the values through which a back end is reached.

use vstd::prelude::*;

verus! {

/// The handle of the tokio back end: it works on the tokio runtime that the
/// calling task runs on.
#[derive(Clone, Copy, Debug, Default, PartialEq, Eq, Structural)]
pub struct TokioGlobalRuntime;

/// The handle of the async-std back end: it works on async-std's global
/// runtime.
#[derive(Clone, Copy, Debug, Default, PartialEq, Eq, Structural)]
pub struct AsyncStdGlobalRuntime;

} // verus!
