//! Outcomes of spawned tasks, and what cancelling a task hands back.

use vstd::prelude::*;

verus! {

/// What a task that panicked left behind: the panic's message.
#[derive(Debug)]
pub struct PanicPayload {
    pub message: String,
}

impl PanicPayload {
    pub fn new(message: String) -> (r: PanicPayload)
        ensures
            r.message == message,
    {
        PanicPayload { message }
    }

    pub fn message(&self) -> (r: &str)
        ensures
            r@ == self.message@,
    {
        self.message.as_str()
    }
}

/// How a spawned task ended: with its value, or by a panic.
pub type TaskOutcome<T> = Result<T, PanicPayload>;

/// What a join handle showed when it was polled once.
pub enum TaskPoll<T> {
    /// The task has not ended yet.
    Pending,
    /// The task has ended.
    Ready(TaskOutcome<T>),
}

/// What a cancellation does after polling the handle once.
pub struct Cancellation<T> {
    /// What the cancellation hands back: the outcome of a task that had
    /// already ended, or nothing.
    pub outcome: Option<TaskOutcome<T>>,
    /// Whether the task is to be aborted.
    pub abort: bool,
}

/// Decides a cancellation from one poll of the handle: a task that has
/// already ended gives its outcome and is left alone; a task still running is
/// aborted and nothing is handed back. No outcome is ever made up.
pub fn plan_cancel<T>(polled: TaskPoll<T>) -> (r: Cancellation<T>)
    ensures
        polled is Pending ==> r.outcome is None && r.abort,
        polled matches TaskPoll::Ready(o) ==> r.outcome == Some(o) && !r.abort,
{
    match polled {
        TaskPoll::Pending => Cancellation { outcome: None, abort: true },
        TaskPoll::Ready(o) => Cancellation { outcome: Some(o), abort: false },
    }
}

} // verus!
