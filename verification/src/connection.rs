//! The connection handler: one accepted socket, from its first read to its
//! close.
//!
//! The handler is a state machine. The driver looks at `Connection::phase`,
//! performs the read, write or signal that the phase asks for, and reports
//! the outcome with `Connection::step`.

use crate::error::IoFailure;
use crate::protocol::{command_of_bytes, parse_line, Reply};
use crate::shutdown::{try_signal, SignalOutcome};
use vstd::prelude::*;
use vstd::slice::slice_subrange;

verus! {

/// The byte that ends a line.
pub const LINE_FEED: u8 = 0x0A;

/// The state of a handler.
pub enum State {
    /// Waiting for bytes from the peer. `pending` is what has been received
    /// of a line that no line feed has ended yet.
    Reading { pending: Seq<u8> },
    /// Waiting for `reply` to be written. `pending` is what was received
    /// after the line that is being answered, and `eof` says that the peer
    /// will send no more.
    Responding { reply: Reply, pending: Seq<u8>, eof: bool },
    /// `SURE` has been written and the shutdown signal is to be sent.
    Signalling,
    /// The handler has ended, with this result.
    Closed { result: Result<(), IoFailure> },
}

/// What the driver reports to a handler.
#[derive(Debug)]
pub enum Event {
    /// A read returned these bytes. No bytes at all: the peer has closed the
    /// stream.
    Received(Vec<u8>),
    /// A read failed.
    ReadFailed,
    /// The reply has been written in full.
    Written,
    /// Writing the reply failed.
    WriteFailed,
    /// The shutdown signal has been sent, or dropped.
    Signalled(SignalOutcome),
}

/// What a handler waits for, or how it ended.
#[derive(Clone, Copy, Debug, PartialEq, Eq)]
pub enum Phase {
    /// The driver is to read from the peer.
    Reading,
    /// The driver is to write this reply.
    Responding(Reply),
    /// The driver is to send the shutdown signal.
    Signalling,
    /// The driver is to drop the connection: the handler ended with this
    /// result.
    Closed(Result<(), IoFailure>),
}

/// The length of the line that heads `pending`, its line feed included, or
/// 0 where no line is complete. Only a line feed ends a line: bytes with
/// none after them are no line, and stay none when the peer closes the
/// stream.
pub open spec fn line_len(pending: Seq<u8>) -> int {
    match pending.index_of_first(LINE_FEED) {
        Some(i) => i + 1,
        None => 0,
    }
}

/// The state that a handler reaches from `pending` by working off complete
/// lines: it stops at the first line that is owed a reply or is not text,
/// and otherwise when no line is left. Once the peer has closed the stream
/// (`eof`), the handler then ends cleanly, and what is pending without a
/// line feed is dropped unread.
pub open spec fn advance_state(pending: Seq<u8>, eof: bool) -> State
    decreases pending.len(),
{
    let n = line_len(pending);
    if 0 < n <= pending.len() {
        match command_of_bytes(pending.take(n)) {
            None => State::Closed { result: Err(IoFailure::InvalidData) },
            Some(command) => match command.reply() {
                Some(reply) => State::Responding { reply, pending: pending.skip(n), eof },
                None => advance_state(pending.skip(n), eof),
            },
        }
    } else if eof {
        State::Closed { result: Ok(()) }
    } else {
        State::Reading { pending }
    }
}

/// The state that a reading handler with `pending` in hand reaches when a
/// read brings `bytes`. A read that brings nothing is the end of the stream.
pub open spec fn received(pending: Seq<u8>, bytes: Seq<u8>) -> State {
    advance_state(pending + bytes, bytes.len() == 0)
}

/// The state that follows `state` on `event`. An event that the state does
/// not wait for leaves it as it is.
pub open spec fn next_state(state: State, event: Event) -> State {
    match (state, event) {
        (State::Reading { pending }, Event::Received(bytes)) => received(pending, bytes@),
        (State::Reading { .. }, Event::ReadFailed) => State::Closed {
            result: Err(IoFailure::Read),
        },
        (State::Responding { reply, pending, eof }, Event::Written) => match reply {
            Reply::Pong => advance_state(pending, eof),
            Reply::Sure => State::Signalling,
        },
        (State::Responding { .. }, Event::WriteFailed) => State::Closed {
            result: Err(IoFailure::Write),
        },
        (State::Signalling, Event::Signalled(_)) => State::Closed { result: Ok(()) },
        _ => state,
    }
}

impl State {
    /// The state of a handler that has just been given its socket.
    pub open spec fn initial() -> State {
        State::Reading { pending: Seq::empty() }
    }

    /// A handler reads only when it holds no complete line.
    pub open spec fn well_formed(self) -> bool {
        self matches State::Reading { pending } ==> !pending.contains(LINE_FEED)
    }

    /// What has been received and not yet worked off.
    pub open spec fn pending(self) -> Seq<u8> {
        match self {
            State::Reading { pending } => pending,
            State::Responding { pending, .. } => pending,
            _ => Seq::empty(),
        }
    }

    /// What the state waits for.
    pub open spec fn phase(self) -> Phase {
        match self {
            State::Reading { .. } => Phase::Reading,
            State::Responding { reply, .. } => Phase::Responding(reply),
            State::Signalling => Phase::Signalling,
            State::Closed { result } => Phase::Closed(result),
        }
    }
}

/// A connection handler.
pub struct Connection {
    phase: Phase,
    /// The bytes received; those before `head` have been worked off.
    buffer: Vec<u8>,
    head: usize,
    eof: bool,
}

impl View for Connection {
    type V = State;

    closed spec fn view(&self) -> State {
        match self.phase {
            Phase::Reading => State::Reading { pending: self.buffer@.skip(self.head as int) },
            Phase::Responding(reply) => State::Responding {
                reply,
                pending: self.buffer@.skip(self.head as int),
                eof: self.eof,
            },
            Phase::Signalling => State::Signalling,
            Phase::Closed(result) => State::Closed { result },
        }
    }
}

/// The first line feed of `s` is where a scan that saw none before finds
/// one; and `s` has none where the scan reached its end.
proof fn lemma_first_line_feed(s: Seq<u8>, i: int)
    requires
        0 <= i <= s.len(),
        forall|j: int| 0 <= j < i ==> s[j] != LINE_FEED,
        i < s.len() ==> s[i] == LINE_FEED,
    ensures
        s.index_of_first(LINE_FEED) == if i < s.len() {
            Some(i)
        } else {
            None
        },
{
    s.index_of_first_ensures(LINE_FEED);
}

impl Connection {
    #[verifier::type_invariant]
    spec fn inv(self) -> bool {
        &&& self.head <= self.buffer@.len()
        &&& self.phase is Reading ==> self.head == 0 && !self.buffer@.contains(LINE_FEED)
        &&& self.phase is Signalling || self.phase is Closed ==> self.buffer@.len() == 0
    }

    /// The handler of a connection that has just been accepted.
    pub fn new() -> (connection: Connection)
        ensures
            connection@ == State::initial(),
    {
        let connection = Connection { phase: Phase::Reading, buffer: Vec::new(), head: 0, eof: false };
        assert(connection.buffer@.skip(0) =~= Seq::<u8>::empty());
        connection
    }

    /// What the handler waits for, or how it ended.
    pub fn phase(&self) -> (phase: Phase)
        ensures
            phase == self@.phase(),
    {
        self.phase
    }

    /// What has been received and not yet worked off: while the handler
    /// reads, the beginning of a line; while it replies, what came after the
    /// line that is being answered.
    pub fn pending(&self) -> (bytes: &[u8])
        ensures
            bytes@ == self@.pending(),
    {
        proof {
            use_type_invariant(self);
        }
        let bytes = slice_subrange(self.buffer.as_slice(), self.head, self.buffer.len());
        assert(bytes@ =~= self@.pending());
        bytes
    }

    fn closed(result: Result<(), IoFailure>) -> (connection: Connection)
        ensures
            connection@ == (State::Closed { result }),
    {
        Connection { phase: Phase::Closed(result), buffer: Vec::new(), head: 0, eof: true }
    }

    /// Works off the complete lines of `buffer` from `head` on. Nothing
    /// before `scanned` is a line feed.
    fn advance(buffer: Vec<u8>, head: usize, scanned: usize, eof: bool) -> (connection: Connection)
        requires
            head <= scanned <= buffer@.len(),
            forall|j: int| head <= j < scanned ==> buffer@[j] != LINE_FEED,
        ensures
            connection@ == advance_state(buffer@.skip(head as int), eof),
            connection@.well_formed(),
    {
        let mut data = buffer;
        let mut start = head;
        let mut scan = scanned;
        loop
            invariant
                start <= scan <= data@.len(),
                forall|j: int| start <= j < scan ==> data@[j] != LINE_FEED,
                advance_state(data@.skip(start as int), eof) == advance_state(
                    buffer@.skip(head as int),
                    eof,
                ),
            decreases data@.len() - start,
        {
            while scan < data.len() && data[scan] != LINE_FEED
                invariant
                    start <= scan <= data@.len(),
                    forall|j: int| start <= j < scan ==> data@[j] != LINE_FEED,
                decreases data@.len() - scan,
            {
                scan += 1;
            }
            let end = if scan < data.len() {
                scan + 1
            } else {
                start
            };
            let ghost pending = data@.skip(start as int);
            proof {
                lemma_first_line_feed(pending, scan - start);
                assert(end - start == line_len(pending));
            }
            if end == start {
                if eof {
                    return Connection::closed(Ok(()));
                }
                let rest = if start == 0 {
                    data
                } else {
                    data.split_off(start)
                };
                proof {
                    assert(rest@ =~= pending);
                    assert(rest@.skip(0) =~= pending);
                    pending.index_of_first_ensures(LINE_FEED);
                }
                return Connection { phase: Phase::Reading, buffer: rest, head: 0, eof: false };
            }
            let line = slice_subrange(data.as_slice(), start, end);
            assert(line@ =~= pending.take(end - start));
            assert(data@.skip(end as int) =~= pending.skip(end - start));
            match parse_line(line) {
                None => {
                    return Connection::closed(Err(IoFailure::InvalidData));
                },
                Some(command) => match command.reply() {
                    Some(reply) => {
                        return Connection {
                            phase: Phase::Responding(reply),
                            buffer: data,
                            head: end,
                            eof,
                        };
                    },
                    None => {
                        start = end;
                        scan = end;
                    },
                },
            }
        }
    }

    /// Takes the handler from one state to the next.
    pub fn step(self, event: Event) -> (next: Connection)
        ensures
            next@ == next_state(self@, event),
            next@.well_formed(),
    {
        proof {
            use_type_invariant(&self);
        }
        match self.phase {
            Phase::Reading => match event {
                Event::Received(bytes) => {
                    let ghost pending = self.buffer@;
                    assert(pending.skip(0) =~= pending);
                    let mut chunk = bytes;
                    let mut buffer = self.buffer;
                    let eof = chunk.len() == 0;
                    let scanned = buffer.len();
                    buffer.append(&mut chunk);
                    assert(buffer@.skip(0) =~= pending + bytes@);
                    Connection::advance(buffer, 0, scanned, eof)
                },
                Event::ReadFailed => Connection::closed(Err(IoFailure::Read)),
                _ => self,
            },
            Phase::Responding(reply) => match event {
                Event::Written => match reply {
                    Reply::Pong => Connection::advance(self.buffer, self.head, self.head, self.eof),
                    Reply::Sure => Connection {
                        phase: Phase::Signalling,
                        buffer: Vec::new(),
                        head: 0,
                        eof: true,
                    },
                },
                Event::WriteFailed => Connection::closed(Err(IoFailure::Write)),
                _ => self,
            },
            Phase::Signalling => match event {
                Event::Signalled(_) => Connection::closed(Ok(())),
                _ => self,
            },
            Phase::Closed(_) => self,
        }
    }

    /// Sends the shutdown signal where the handler is to send it, and takes
    /// the handler on from there. Whatever becomes of the signal, the
    /// handler then ends cleanly. In any other state nothing is sent and
    /// nothing changes.
    pub fn signal(self, sender: &tokio::sync::mpsc::Sender<()>) -> (done: (
        Connection,
        Option<SignalOutcome>,
    ))
        ensures
            done.1 is Some <==> self@ is Signalling,
            done.0@ == match done.1 {
                Some(outcome) => next_state(self@, Event::Signalled(outcome)),
                None => self@,
            },
            self@ is Signalling ==> done.0@ == (State::Closed { result: Ok(()) }),
            done.0@.well_formed(),
    {
        proof {
            use_type_invariant(&self);
        }
        match self.phase {
            Phase::Signalling => {
                let outcome = try_signal(sender);
                (self.step(Event::Signalled(outcome)), Some(outcome))
            },
            _ => (self, None),
        }
    }
}

} // verus!
