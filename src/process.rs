//! Exit statuses of child processes, and the cache that makes polling a
//! child for its status repeatable.

use vstd::prelude::*;
use crate::error::IoError;

verus! {

/// How a child process ended.
#[derive(Clone, Copy, Debug, PartialEq, Eq, Structural)]
pub struct ExitStatus {
    /// The exit code, when the process exited on its own.
    pub code: Option<i32>,
    /// The signal that ended the process, when one did.
    pub signal: Option<i32>,
}

impl ExitStatus {
    /// Whether the process exited with code zero.
    pub fn success(&self) -> (r: bool)
        ensures
            r == (self.code == Some(0i32)),
    {
        match self.code {
            Some(c) => c == 0,
            None => false,
        }
    }

    pub fn code(&self) -> (r: Option<i32>)
        ensures
            r == self.code,
    {
        self.code
    }
}

/// What a finished child produced: its status and the bytes of its output
/// streams.
#[derive(Debug)]
pub struct Output {
    pub status: ExitStatus,
    pub stdout: Vec<u8>,
    pub stderr: Vec<u8>,
}

/// The status cache after a non-suspending poll reported `probe`, the cache
/// holding `cached` before: the first terminal status stays.
pub open spec fn status_after(cached: Option<ExitStatus>, probe: Result<Option<ExitStatus>, IoError>) -> Option<ExitStatus> {
    match cached {
        Some(s) => Some(s),
        None => match probe {
            Ok(Some(s)) => Some(s),
            _ => None,
        },
    }
}

/// What a non-suspending poll reports, the cache holding `cached` and the
/// operating system reporting `probe`: a cached status wins over the probe.
pub open spec fn status_reported(cached: Option<ExitStatus>, probe: Result<Option<ExitStatus>, IoError>) -> Result<Option<ExitStatus>, IoError> {
    match cached {
        Some(s) => Ok(Some(s)),
        None => probe,
    }
}

/// The terminal status of a child, once it is known.
///
/// A child is reaped once: after its status has been seen, every later poll
/// reports that status again without asking the operating system.
pub struct ChildStatus {
    exited: Option<ExitStatus>,
}

impl View for ChildStatus {
    type V = Option<ExitStatus>;

    closed spec fn view(&self) -> Option<ExitStatus> {
        self.exited
    }
}

impl ChildStatus {
    /// The cache of a child whose status is not known yet.
    pub fn new() -> (r: ChildStatus)
        ensures
            r@ is None,
    {
        ChildStatus { exited: None }
    }

    /// Whether the operating system has to be asked: only while no status is
    /// known.
    pub fn needs_probe(&self) -> (r: bool)
        ensures
            r == (self@ is None),
    {
        self.exited.is_none()
    }

    /// The known status, if any.
    pub fn cached(&self) -> (r: Option<ExitStatus>)
        ensures
            r == self@,
    {
        self.exited
    }

    /// Non-suspending poll: `probe` is what the operating system reported,
    /// and is ignored once a status is known.
    pub fn try_status(&mut self, probe: Result<Option<ExitStatus>, IoError>) -> (r: Result<Option<ExitStatus>, IoError>)
        ensures
            final(self)@ == status_after(old(self)@, probe),
            r == status_reported(old(self)@, probe),
    {
        match self.exited {
            Some(s) => Ok(Some(s)),
            None => {
                if let Ok(Some(s)) = &probe {
                    self.exited = Some(*s);
                }
                probe
            },
        }
    }

    /// Suspending wait: `waited` is what waiting on the child gave, and is
    /// ignored once a status is known.
    pub fn wait_status(&mut self, waited: Result<ExitStatus, IoError>) -> (r: Result<ExitStatus, IoError>)
        ensures
            old(self)@ matches Some(s) ==> r == Ok::<ExitStatus, IoError>(s) && final(self)@ == old(self)@,
            old(self)@ is None ==> r == waited && final(self)@ == (match waited {
                Ok(s) => Some(s),
                Err(_) => None,
            }),
    {
        match self.exited {
            Some(s) => Ok(s),
            None => {
                if let Ok(s) = &waited {
                    self.exited = Some(*s);
                }
                waited
            },
        }
    }
}

/// Once a poll has reported a terminal status, every later poll reports that
/// same status, whatever the operating system says, and never fails.
pub proof fn lemma_try_status_idempotent(
    cached: Option<ExitStatus>,
    first: Result<Option<ExitStatus>, IoError>,
    later: Result<Option<ExitStatus>, IoError>,
    s: ExitStatus,
)
    requires
        status_reported(cached, first) == Ok::<Option<ExitStatus>, IoError>(Some(s)),
    ensures
        status_reported(status_after(cached, first), later) == Ok::<Option<ExitStatus>, IoError>(Some(s)),
        status_after(status_after(cached, first), later) == status_after(cached, first),
{
}

} // verus!
