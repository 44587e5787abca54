//! The decisions of a small line-oriented TCP server, kept apart from its
//! sockets and tasks.
//!
//! The server answers a `PING` line with `PONG`, and on a `STOP` line
//! answers `SURE` and shuts the whole process down. Its parts are state
//! machines that a driver runs: the driver performs the reads, writes and
//! waits, and tells the machine what came of them.
//!
//! - `text` and `protocol`: what a line asks for, and the bytes of the
//!   replies.
//! - `connection`: the handler of one connection.
//! - `transcript`: what a peer gets for all that it sends, and the proof
//!   that the handler gives just that.
//! - `listener`: the accept loop.
//! - `shutdown`: the single-slot signal by which a handler asks for the end
//!   of the process.
//! - `supervisor`: the race between the accept loop and the shutdown
//!   signal, and the exit status.
//! - `error`: the error that the drivers return.
//! - `theorems`: what holds of all this whatever the peers send.

pub mod connection;
pub mod error;
pub mod listener;
pub mod protocol;
pub mod shutdown;
pub mod supervisor;
pub mod text;
pub mod theorems;
pub mod transcript;
