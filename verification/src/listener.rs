//! The accept loop: it binds the listening socket once and then hands every
//! connection that arrives to a handler of its own.
//!
//! Like a connection handler, the loop is a state machine that a driver
//! runs: the state says what to do next, and the driver reports the outcome.

use crate::error::IoFailure;
use vstd::prelude::*;

verus! {

/// The address on which the server listens: the loopback address.
pub const LISTEN_HOST: [u8; 4] = [127, 0, 0, 1];

/// The port on which the server listens.
pub const LISTEN_PORT: u16 = 8080;

/// The state of the accept loop, which says what its driver is to do.
#[derive(Clone, Copy, Debug, PartialEq, Eq, Structural)]
pub enum Listener {
    /// Bind the listening socket.
    Binding,
    /// Wait for the next connection.
    Accepting,
    /// Start a handler for the connection that has just arrived, and do not
    /// wait for it.
    Spawning,
    /// Return: the loop has ended with this failure.
    Stopped(IoFailure),
}

/// What the driver reports to the accept loop.
#[derive(Clone, Copy, Debug, PartialEq, Eq, Structural)]
pub enum ListenerEvent {
    /// The listening socket is bound.
    Bound,
    /// The listening socket could not be bound.
    BindFailed,
    /// A connection has arrived.
    Accepted,
    /// Accepting a connection failed.
    AcceptFailed,
    /// The handler of the connection that arrived last has been started.
    Spawned,
}

impl Listener {
    /// The state that follows `self` on `event`. No failure is tried again,
    /// and an event that the state does not wait for leaves it as it is.
    pub open spec fn spec_step(self, event: ListenerEvent) -> Listener {
        match (self, event) {
            (Listener::Binding, ListenerEvent::Bound) => Listener::Accepting,
            (Listener::Binding, ListenerEvent::BindFailed) => Listener::Stopped(IoFailure::Bind),
            (Listener::Accepting, ListenerEvent::Accepted) => Listener::Spawning,
            (Listener::Accepting, ListenerEvent::AcceptFailed) => Listener::Stopped(IoFailure::Accept),
            (Listener::Spawning, ListenerEvent::Spawned) => Listener::Accepting,
            _ => self,
        }
    }

    /// The accept loop before it has done anything.
    pub fn new() -> (listener: Listener)
        ensures
            listener == Listener::Binding,
    {
        Listener::Binding
    }

    /// Takes the accept loop from one state to the next.
    #[verifier::when_used_as_spec(spec_step)]
    pub fn step(self, event: ListenerEvent) -> (next: Listener)
        ensures
            next == self.spec_step(event),
    {
        match (self, event) {
            (Listener::Binding, ListenerEvent::Bound) => Listener::Accepting,
            (Listener::Binding, ListenerEvent::BindFailed) => Listener::Stopped(IoFailure::Bind),
            (Listener::Accepting, ListenerEvent::Accepted) => Listener::Spawning,
            (Listener::Accepting, ListenerEvent::AcceptFailed) => Listener::Stopped(IoFailure::Accept),
            (Listener::Spawning, ListenerEvent::Spawned) => Listener::Accepting,
            _ => self,
        }
    }
}

} // verus!
