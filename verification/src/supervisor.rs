//! The supervisor: it starts the accept loop and the wait for the shutdown
//! signal side by side, and ends the process as soon as either is over.

use crate::error::IoFailure;
use vstd::prelude::*;

verus! {

/// The exit status of an orderly end.
pub const EXIT_SUCCESS: u8 = 0;

/// The exit status of a server that could not start.
pub const EXIT_FAILURE: u8 = 1;

/// What the supervisor is told by the two tasks that it watches.
#[derive(Clone, Copy, Debug, PartialEq, Eq)]
pub enum Finished {
    /// The wait for the shutdown signal is over: a signal came, or every
    /// sender is gone.
    ShutdownWaiter,
    /// The accept loop has ended, with this result.
    AcceptLoop(Result<(), IoFailure>),
}

/// The state of the supervisor.
#[derive(Clone, Copy, Debug, PartialEq, Eq, Structural)]
pub enum Supervisor {
    /// Both tasks run.
    Running,
    /// One of the tasks is over: the other is abandoned, and the process
    /// exits with this status.
    Exiting(u8),
}

/// The exit status that the end of a task calls for: failure where the
/// server never got to listen, and success otherwise.
pub open spec fn exit_status(first: Finished) -> u8 {
    match first {
        Finished::AcceptLoop(Err(IoFailure::Bind)) => EXIT_FAILURE,
        _ => EXIT_SUCCESS,
    }
}

impl Supervisor {
    /// The state that follows `self` when a task is over. The first one
    /// decides: what ends after it changes nothing.
    pub open spec fn spec_step(self, finished: Finished) -> Supervisor {
        match self {
            Supervisor::Running => Supervisor::Exiting(exit_status(finished)),
            Supervisor::Exiting(_) => self,
        }
    }

    /// The exit status, once it is decided.
    pub open spec fn spec_status(self) -> Option<u8> {
        match self {
            Supervisor::Running => None,
            Supervisor::Exiting(status) => Some(status),
        }
    }

    /// The supervisor at the start of the process.
    pub fn new() -> (supervisor: Supervisor)
        ensures
            supervisor == Supervisor::Running,
    {
        Supervisor::Running
    }

    /// Takes note that a task is over.
    #[verifier::when_used_as_spec(spec_step)]
    pub fn step(self, finished: Finished) -> (next: Supervisor)
        ensures
            next == self.spec_step(finished),
    {
        match self {
            Supervisor::Running => {
                let status = match finished {
                    Finished::AcceptLoop(Err(IoFailure::Bind)) => EXIT_FAILURE,
                    _ => EXIT_SUCCESS,
                };
                Supervisor::Exiting(status)
            },
            Supervisor::Exiting(_) => self,
        }
    }

    /// The exit status, once it is decided.
    #[verifier::when_used_as_spec(spec_status)]
    pub fn status(self) -> (status: Option<u8>)
        ensures
            status == self.spec_status(),
    {
        match self {
            Supervisor::Running => None,
            Supervisor::Exiting(status) => Some(status),
        }
    }
}

} // verus!
