//! The shutdown coordinator: one slot that any connection may fill and that
//! the supervisor empties once.
//!
//! The slot is a `tokio::sync::mpsc` channel of capacity 1. Handlers fill it
//! without waiting, so a signal that finds the slot taken, or nobody
//! listening, is dropped: shutdown is then under way already.

use vstd::prelude::*;

verus! {

/// The sending half of a `tokio::sync::mpsc` channel, carried as an opaque
/// value.
#[verifier::external_type_specification]
#[verifier::external_body]
#[verifier::reject_recursive_types(T)]
pub struct ExSender<T>(tokio::sync::mpsc::Sender<T>);

/// The receiving half of a `tokio::sync::mpsc` channel, carried as an opaque
/// value.
#[verifier::external_type_specification]
#[verifier::external_body]
#[verifier::reject_recursive_types(T)]
pub struct ExReceiver<T>(tokio::sync::mpsc::Receiver<T>);

/// How many signals the coordinator holds until the supervisor takes one.
pub const SIGNAL_SLOTS: usize = 1;

/// The capacity that `tokio::sync::mpsc::channel` was given when it made
/// the channel of `sender`. The channel keeps it for as long as it lives.
pub uninterp spec fn channel_slots(sender: tokio::sync::mpsc::Sender<()>) -> nat;

/// What became of one attempt to signal.
#[derive(Clone, Copy, Debug, PartialEq, Eq, Structural)]
pub enum SignalOutcome {
    /// The signal now waits in the slot.
    Delivered,
    /// A signal was already waiting: this one was dropped.
    AlreadyPending,
    /// Nobody listens any more: this one was dropped.
    Unobserved,
}

/// `tokio::sync::mpsc::channel`, which panics for a capacity of 0 or above
/// its semaphore's limit of `usize::MAX >> 3`. The channel it returns keeps
/// the capacity that it was made with.
#[verifier::external_body]
fn bounded_channel(capacity: usize) -> (halves: (
    tokio::sync::mpsc::Sender<()>,
    tokio::sync::mpsc::Receiver<()>,
))
    requires
        0 < capacity <= usize::MAX / 8,
    ensures
        channel_slots(halves.0) == capacity,
{
    tokio::sync::mpsc::channel(capacity)
}

/// `tokio::sync::mpsc::Sender::try_send`, which never waits. Its three
/// results are told apart; which of them comes depends on the other users of
/// the channel, so nothing is claimed of it.
#[verifier::external_body]
pub(crate) fn try_signal(sender: &tokio::sync::mpsc::Sender<()>) -> (outcome: SignalOutcome) {
    match sender.try_send(()) {
        Ok(()) => SignalOutcome::Delivered,
        Err(tokio::sync::mpsc::error::TrySendError::Full(())) => SignalOutcome::AlreadyPending,
        Err(tokio::sync::mpsc::error::TrySendError::Closed(())) => SignalOutcome::Unobserved,
    }
}

/// Creates the coordinator: a channel with `SIGNAL_SLOTS` slots. The sender
/// is cloned for every connection handler; the receiver is the supervisor's.
pub fn shutdown_channel() -> (halves: (
    tokio::sync::mpsc::Sender<()>,
    tokio::sync::mpsc::Receiver<()>,
))
    ensures
        channel_slots(halves.0) == SIGNAL_SLOTS,
{
    bounded_channel(SIGNAL_SLOTS)
}

} // verus!
