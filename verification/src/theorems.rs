//! What holds of the server whatever its peers send.
//!
//! The theorems speak of the state machines' transition functions, which
//! the executable `step` functions are proved to follow.

use crate::connection::{advance_state, line_len, next_state, Event, State, LINE_FEED};
use crate::error::IoFailure;
use crate::listener::{Listener, ListenerEvent};
use crate::protocol::{command_of, command_of_bytes, ping_word, stop_word, Command, Reply};
use crate::shutdown::SignalOutcome;
use crate::supervisor::{exit_status, Finished, Supervisor, EXIT_FAILURE, EXIT_SUCCESS};
use crate::text::{padded_at, theorem_trim_finds_padded_word};
use vstd::prelude::*;
use vstd::utf8::{encode_utf8, is_ascii_chars};

verus! {

/// `bytes` is one complete line and nothing more: its only line feed is its
/// last byte.
pub open spec fn is_one_line(bytes: Seq<u8>) -> bool {
    bytes.index_of_first(LINE_FEED) == Some(bytes.len() - 1)
}

/// The lines that ask for a `PONG` are `PING` with whitespace around it, or
/// without, and no others.
pub proof fn theorem_ping_lines(line: Seq<char>)
    ensures
        command_of(line) == Command::Ping <==> exists|at: int| padded_at(line, ping_word(), at),
{
    theorem_trim_finds_padded_word(line, ping_word());
}

/// The lines that ask for the shutdown are `STOP` with whitespace around
/// it, or without, and no others.
pub proof fn theorem_stop_lines(line: Seq<char>)
    ensures
        command_of(line) == Command::Stop <==> exists|at: int| padded_at(line, stop_word(), at),
{
    theorem_trim_finds_padded_word(line, stop_word());
    assert(ping_word()[0] != stop_word()[0]);
}

/// A line that is sent as UTF-8 text is read as that text.
pub proof fn theorem_text_is_read_back(text: Seq<char>)
    ensures
        command_of_bytes(encode_utf8(text)) == Some(command_of(text)),
{
    vstd::utf8::encode_utf8_valid_utf8(text);
    vstd::utf8::encode_utf8_decode_utf8(text);
}

/// The bytes `PING\n` are a line that asks for a `PONG`, and the bytes
/// `STOP\n` are a line that asks for the shutdown.
pub proof fn theorem_plain_commands()
    ensures
        is_one_line(seq!['P' as u8, 'I' as u8, 'N' as u8, 'G' as u8, '\n' as u8]),
        command_of_bytes(seq!['P' as u8, 'I' as u8, 'N' as u8, 'G' as u8, '\n' as u8]) == Some(Command::Ping),
        is_one_line(seq!['S' as u8, 'T' as u8, 'O' as u8, 'P' as u8, '\n' as u8]),
        command_of_bytes(seq!['S' as u8, 'T' as u8, 'O' as u8, 'P' as u8, '\n' as u8]) == Some(Command::Stop),
{
    let ping = seq!['P', 'I', 'N', 'G', '\n'];
    let ping_bytes = seq!['P' as u8, 'I' as u8, 'N' as u8, 'G' as u8, '\n' as u8];
    lemma_ascii_line(ping, ping_bytes);
    assert(ping.subrange(0, 4) =~= ping_word());
    assert(padded_at(ping, ping_word(), 0));
    theorem_ping_lines(ping);

    let stop = seq!['S', 'T', 'O', 'P', '\n'];
    let stop_bytes = seq!['S' as u8, 'T' as u8, 'O' as u8, 'P' as u8, '\n' as u8];
    lemma_ascii_line(stop, stop_bytes);
    assert(stop.subrange(0, 4) =~= stop_word());
    assert(padded_at(stop, stop_word(), 0));
    theorem_stop_lines(stop);
}

/// Five ASCII characters of which only the last is a line feed are sent as
/// their five bytes, which are one line.
proof fn lemma_ascii_line(text: Seq<char>, bytes: Seq<u8>)
    requires
        text.len() == 5,
        bytes.len() == 5,
        forall|i: int| 0 <= i < 5 ==> '\0' <= #[trigger] text[i] <= '\u{7f}',
        forall|i: int| 0 <= i < 5 ==> #[trigger] bytes[i] == text[i] as u8,
        forall|i: int| 0 <= i < 4 ==> #[trigger] bytes[i] != LINE_FEED,
        bytes[4] == LINE_FEED,
    ensures
        is_one_line(bytes),
        command_of_bytes(bytes) == Some(command_of(text)),
{
    assert(is_ascii_chars(text));
    vstd::utf8::is_ascii_chars_encode_utf8(text);
    assert(encode_utf8(text) =~= bytes);
    theorem_text_is_read_back(text);
    bytes.index_of_first_ensures(LINE_FEED);
}

/// Bytes that complete no line are kept and nothing else happens: the
/// handler goes on reading, however many reads a line takes to arrive, and
/// does nothing until a line feed ends the line.
pub proof fn theorem_partial_line_is_buffered(pending: Seq<u8>, bytes: Vec<u8>)
    requires
        !pending.contains(LINE_FEED),
        !bytes@.contains(LINE_FEED),
        bytes@.len() > 0,
    ensures
        next_state(State::Reading { pending }, Event::Received(bytes)) == (State::Reading {
            pending: pending + bytes@,
        }),
{
    let all = pending + bytes@;
    all.index_of_first_ensures(LINE_FEED);
    if all.contains(LINE_FEED) {
        let i = choose|i: int| 0 <= i < all.len() && all[i] == LINE_FEED;
        if i < pending.len() {
            assert(pending[i] == LINE_FEED);
        } else {
            assert(bytes@[i - pending.len()] == LINE_FEED);
        }
    }
}

/// How the bytes of a line are split over reads makes no difference: two
/// reads of which the first completes no line leave the handler where one
/// read of all their bytes leaves it.
pub proof fn theorem_split_reads_add_up(
    pending: Seq<u8>,
    first: Vec<u8>,
    second: Vec<u8>,
    both: Vec<u8>,
)
    requires
        !pending.contains(LINE_FEED),
        !first@.contains(LINE_FEED),
        first@.len() > 0,
        second@.len() > 0,
        both@ == first@ + second@,
    ensures
        next_state(
            next_state(State::Reading { pending }, Event::Received(first)),
            Event::Received(second),
        ) == next_state(State::Reading { pending }, Event::Received(both)),
{
    theorem_partial_line_is_buffered(pending, first);
    assert((pending + first@) + second@ =~= pending + both@);
}

/// A line that asks for a `PONG` gets exactly the bytes `PONG\r\n`, and
/// once they are written the handler reads on: the connection stays open
/// for further commands.
pub proof fn theorem_ping_is_answered(pending: Seq<u8>, bytes: Vec<u8>)
    requires
        !pending.contains(LINE_FEED),
        is_one_line(pending + bytes@),
        command_of_bytes(pending + bytes@) == Some(Command::Ping),
    ensures
        next_state(State::Reading { pending }, Event::Received(bytes)) == (State::Responding {
            reply: Reply::Pong,
            pending: Seq::empty(),
            eof: false,
        }),
        Reply::Pong.wire() == seq!['P' as u8, 'O' as u8, 'N' as u8, 'G' as u8, '\r' as u8, '\n' as u8],
        next_state(
            State::Responding { reply: Reply::Pong, pending: Seq::empty(), eof: false },
            Event::Written,
        ) == State::initial(),
{
    lemma_one_line_arrives(pending, bytes);
    lemma_nothing_pending();
}

/// On a connection with no line begun, the bytes `PING\n` get exactly the
/// bytes `PONG\r\n`, and once they are written the connection is as it was:
/// open, and ready for the next command.
pub proof fn theorem_ping_gets_pong(bytes: Vec<u8>)
    requires
        bytes@ == seq!['P' as u8, 'I' as u8, 'N' as u8, 'G' as u8, '\n' as u8],
    ensures
        next_state(State::initial(), Event::Received(bytes)) == (State::Responding {
            reply: Reply::Pong,
            pending: Seq::empty(),
            eof: false,
        }),
        Reply::Pong.wire() == seq!['P' as u8, 'O' as u8, 'N' as u8, 'G' as u8, '\r' as u8, '\n' as u8],
        next_state(
            State::Responding { reply: Reply::Pong, pending: Seq::empty(), eof: false },
            Event::Written,
        ) == State::initial(),
{
    theorem_plain_commands();
    assert(Seq::<u8>::empty() + bytes@ =~= bytes@);
    theorem_ping_is_answered(Seq::empty(), bytes);
}

/// A line that asks for the shutdown gets exactly the bytes `SURE\r\n`.
/// Once they are written the handler sends the shutdown signal, and
/// whatever becomes of the signal, the handler then ends cleanly. The
/// supervisor, woken by the signal, ends the process with success.
pub proof fn theorem_stop_shuts_down(pending: Seq<u8>, bytes: Vec<u8>, outcome: SignalOutcome)
    requires
        !pending.contains(LINE_FEED),
        is_one_line(pending + bytes@),
        command_of_bytes(pending + bytes@) == Some(Command::Stop),
    ensures
        next_state(State::Reading { pending }, Event::Received(bytes)) == (State::Responding {
            reply: Reply::Sure,
            pending: Seq::empty(),
            eof: false,
        }),
        Reply::Sure.wire() == seq!['S' as u8, 'U' as u8, 'R' as u8, 'E' as u8, '\r' as u8, '\n' as u8],
        next_state(
            State::Responding { reply: Reply::Sure, pending: Seq::empty(), eof: false },
            Event::Written,
        ) == State::Signalling,
        next_state(State::Signalling, Event::Signalled(outcome)) == (State::Closed {
            result: Ok(()),
        }),
        Supervisor::Running.step(Finished::ShutdownWaiter) == Supervisor::Exiting(EXIT_SUCCESS),
        EXIT_SUCCESS == 0,
{
    lemma_one_line_arrives(pending, bytes);
}

/// On a connection with no line begun, the bytes `STOP\n` get exactly the
/// bytes `SURE\r\n`; then the shutdown signal is sent, the handler ends
/// cleanly whatever becomes of the signal, and the supervisor ends the
/// process with success.
pub proof fn theorem_stop_gets_sure(bytes: Vec<u8>, outcome: SignalOutcome)
    requires
        bytes@ == seq!['S' as u8, 'T' as u8, 'O' as u8, 'P' as u8, '\n' as u8],
    ensures
        next_state(State::initial(), Event::Received(bytes)) == (State::Responding {
            reply: Reply::Sure,
            pending: Seq::empty(),
            eof: false,
        }),
        Reply::Sure.wire() == seq!['S' as u8, 'U' as u8, 'R' as u8, 'E' as u8, '\r' as u8, '\n' as u8],
        next_state(
            State::Responding { reply: Reply::Sure, pending: Seq::empty(), eof: false },
            Event::Written,
        ) == State::Signalling,
        next_state(State::Signalling, Event::Signalled(outcome)) == (State::Closed {
            result: Ok(()),
        }),
        Supervisor::Running.step(Finished::ShutdownWaiter).status() == Some(0u8),
{
    theorem_plain_commands();
    assert(Seq::<u8>::empty() + bytes@ =~= bytes@);
    theorem_stop_shuts_down(Seq::empty(), bytes, outcome);
}

/// A peer that closes the stream without having sent anything gets no
/// reply and causes no signal: the handler ends cleanly at once.
pub proof fn theorem_silent_peer_is_let_go(bytes: Vec<u8>)
    requires
        bytes@.len() == 0,
    ensures
        next_state(State::initial(), Event::Received(bytes)) == (State::Closed { result: Ok(()) }),
{
    let pending = Seq::<u8>::empty();
    assert(pending + bytes@ =~= pending);
    lemma_nothing_pending();
}

/// Bytes that no line feed has ended are never read as a line: when the
/// peer closes the stream on them, the handler ends cleanly, with nothing
/// written and no signal, whatever the bytes are.
pub proof fn theorem_unended_line_is_dropped(pending: Seq<u8>, bytes: Vec<u8>)
    requires
        !pending.contains(LINE_FEED),
        bytes@.len() == 0,
    ensures
        next_state(State::Reading { pending }, Event::Received(bytes)) == (State::Closed {
            result: Ok(()),
        }),
{
    assert(pending + bytes@ =~= pending);
    pending.index_of_first_ensures(LINE_FEED);
}

/// A line of text that asks for nothing gets no reply: the handler goes on
/// reading.
pub proof fn theorem_other_lines_are_ignored(pending: Seq<u8>, bytes: Vec<u8>)
    requires
        !pending.contains(LINE_FEED),
        is_one_line(pending + bytes@),
        command_of_bytes(pending + bytes@) == Some(Command::Other),
    ensures
        next_state(State::Reading { pending }, Event::Received(bytes)) == State::initial(),
{
    lemma_one_line_arrives(pending, bytes);
    lemma_nothing_pending();
}

/// A handler that has ended stays as it is, whatever it is told.
pub proof fn theorem_closed_is_final(result: Result<(), IoFailure>, event: Event)
    ensures
        next_state(State::Closed { result }, event) == (State::Closed { result }),
{
}

/// The shutdown signal is sent for one reason only: `SURE` has just been
/// written.
pub proof fn theorem_signal_follows_sure(state: State, event: Event)
    requires
        !(state is Signalling),
        next_state(state, event) is Signalling,
    ensures
        state matches State::Responding { reply: Reply::Sure, .. },
        event is Written,
{
    lemma_next_state_is_sound(state, event);
}

/// A handler reads only when it holds no complete line, in every state
/// that it can reach.
pub proof fn theorem_well_formed_is_kept(state: State, event: Event)
    requires
        state.well_formed(),
    ensures
        next_state(state, event).well_formed(),
{
    lemma_next_state_is_sound(state, event);
}

/// A step that changes the state leads to a well-formed one, and leads to
/// the signal from the writing of `SURE` only.
proof fn lemma_next_state_is_sound(state: State, event: Event)
    ensures
        next_state(state, event) == state || next_state(state, event).well_formed(),
        next_state(state, event) is Signalling ==> state is Signalling || (state matches State::Responding {
            reply: Reply::Sure,
            ..
        } && event is Written),
{
    match (state, event) {
        (State::Reading { pending }, Event::Received(bytes)) => {
            lemma_advance_never_signals(pending + bytes@, bytes@.len() == 0);
        },
        (State::Responding { reply: Reply::Pong, pending, eof }, Event::Written) => {
            lemma_advance_never_signals(pending, eof);
        },
        _ => {},
    }
}

/// Working off lines leads to reading with no complete line in hand, to a
/// reply, or to the end, and never straight to the signal.
proof fn lemma_advance_never_signals(pending: Seq<u8>, eof: bool)
    ensures
        !(advance_state(pending, eof) is Signalling),
        advance_state(pending, eof).well_formed(),
    decreases pending.len(),
{
    let n = line_len(pending);
    pending.index_of_first_ensures(LINE_FEED);
    if 0 < n <= pending.len() {
        match command_of_bytes(pending.take(n)) {
            Some(command) => {
                if command.reply() is None {
                    lemma_advance_never_signals(pending.skip(n), eof);
                }
            },
            None => {},
        }
    }
}

/// With nothing received and the stream open, the handler reads; with
/// nothing received and the stream closed, it ends cleanly.
proof fn lemma_nothing_pending()
    ensures
        advance_state(Seq::empty(), false) == State::initial(),
        advance_state(Seq::empty(), true) == (State::Closed { result: Ok(()) }),
{
    Seq::<u8>::empty().index_of_first_ensures(LINE_FEED);
}

/// Where a read completes exactly one line, that line is worked off and
/// nothing is left over.
proof fn lemma_one_line_arrives(pending: Seq<u8>, bytes: Vec<u8>)
    requires
        !pending.contains(LINE_FEED),
        is_one_line(pending + bytes@),
    ensures
        bytes@.len() > 0,
        line_len(pending + bytes@) == (pending + bytes@).len(),
        next_state(State::Reading { pending }, Event::Received(bytes)) == match command_of_bytes(
            pending + bytes@,
        ) {
            None => State::Closed { result: Err(IoFailure::InvalidData) },
            Some(command) => match command.reply() {
                Some(reply) => State::Responding { reply, pending: Seq::empty(), eof: false },
                None => advance_state(Seq::empty(), false),
            },
        },
{
    let line = pending + bytes@;
    line.index_of_first_ensures(LINE_FEED);
    if bytes@.len() == 0 {
        assert(line =~= pending);
    }
    assert(line.take(line.len() as int) =~= line);
    assert(line.skip(line.len() as int) =~= Seq::<u8>::empty());
}

/// A server whose listening socket cannot be bound never accepts a
/// connection: the accept loop stops for good, and the process ends with
/// failure.
pub proof fn theorem_bind_failure_is_fatal(event: ListenerEvent)
    ensures
        Listener::Binding.step(ListenerEvent::BindFailed) == Listener::Stopped(IoFailure::Bind),
        Listener::Stopped(IoFailure::Bind).step(event) == Listener::Stopped(IoFailure::Bind),
        Supervisor::Running.step(Finished::AcceptLoop(Err(IoFailure::Bind)))
            == Supervisor::Exiting(EXIT_FAILURE),
        EXIT_FAILURE != 0,
{
}

/// Every connection that arrives is handed to a handler before the next
/// one is accepted, and the loop then accepts again without waiting.
pub proof fn theorem_every_connection_gets_a_handler()
    ensures
        Listener::Accepting.step(ListenerEvent::Accepted) == Listener::Spawning,
        Listener::Spawning.step(ListenerEvent::Spawned) == Listener::Accepting,
{
}

/// The accept loop ends only by a failure, and then for good.
pub proof fn theorem_listener_stops_on_failure_only(listener: Listener, event: ListenerEvent)
    ensures
        listener.step(event) is Stopped ==> listener is Stopped || event is BindFailed || event
            is AcceptFailed,
        listener is Stopped ==> listener.step(event) == listener,
{
}

/// The task that ends first decides the exit status, and what ends after
/// it changes nothing. Only a failure to bind makes the status a failure.
pub proof fn theorem_first_to_finish_decides(first: Finished, later: Finished)
    ensures
        Supervisor::Running.step(first).step(later) == Supervisor::Running.step(first),
        Supervisor::Running.step(first).status() == Some(exit_status(first)),
        exit_status(first) == EXIT_FAILURE <==> first == Finished::AcceptLoop(
            Err(IoFailure::Bind),
        ),
        exit_status(first) != EXIT_FAILURE ==> exit_status(first) == EXIT_SUCCESS,
{
}

} // verus!
