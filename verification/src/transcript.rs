//! What a peer gets for what it sends.
//!
//! `transcript` says it of the whole stream at once, line by line. `course`
//! follows the connection handler through its states, for a stream that
//! arrives in any number of reads. The two agree.

use crate::connection::{advance_state, line_len, next_state, received, Event, State, LINE_FEED};
use crate::error::IoFailure;
use crate::protocol::{command_of_bytes, Command, Reply};
use crate::shutdown::SignalOutcome;
use vstd::prelude::*;

verus! {

/// What a handler has done by the time it ends.
pub struct Transcript {
    /// The replies written, in order.
    pub replies: Seq<Reply>,
    /// Whether the shutdown signal was sent.
    pub signalled: bool,
    /// How the handler ended.
    pub result: Result<(), IoFailure>,
}

impl Transcript {
    /// A handler that ended with `result` and did nothing before.
    pub open spec fn silent(result: Result<(), IoFailure>) -> Transcript {
        Transcript { replies: Seq::empty(), signalled: false, result }
    }

    /// `self`, with `reply` written first.
    pub open spec fn after(self, reply: Reply) -> Transcript {
        Transcript { replies: seq![reply] + self.replies, ..self }
    }

    /// `self`, with the shutdown signal sent.
    pub open spec fn after_signal(self) -> Transcript {
        Transcript { signalled: true, ..self }
    }
}

/// What the server owes a peer that sends `stream` and then closes it, where
/// nothing fails on the way: every `PING` line gets a `PONG`; the first
/// `STOP` line gets a `SURE` and the shutdown signal, and nothing after it is
/// looked at; a line that is not text ends the handler with an error; and
/// every other line is passed over. A line is ended by its line feed: what
/// the stream holds after its last line feed is no line, and gets nothing.
pub open spec fn transcript(stream: Seq<u8>) -> Transcript
    decreases stream.len(),
{
    let n = line_len(stream);
    if 0 < n <= stream.len() {
        match command_of_bytes(stream.take(n)) {
            None => Transcript::silent(Err(IoFailure::InvalidData)),
            Some(Command::Ping) => transcript(stream.skip(n)).after(Reply::Pong),
            Some(Command::Stop) => Transcript::silent(Ok(())).after_signal().after(Reply::Sure),
            Some(Command::Other) => transcript(stream.skip(n)),
        }
    } else {
        Transcript::silent(Ok(()))
    }
}

/// The order in which the states of a handler follow each other between
/// two reads.
pub open spec fn rank(state: State) -> nat {
    match state {
        State::Responding { .. } => 3,
        State::Signalling => 2,
        State::Reading { .. } => 1,
        State::Closed { .. } => 0,
    }
}

/// What a handler in `state` does when its driver follows it with no
/// failure: it is given `reads` one by one whenever it reads, and then the
/// end of the stream; every reply is written; and the signal is sent. A read
/// of no bytes is the end of the stream, whatever follows it.
pub open spec fn course(state: State, reads: Seq<Seq<u8>>) -> Transcript
    decreases reads.len(), state.pending().len(), rank(state),
    via course_decreases
{
    match state {
        State::Reading { pending } => if reads.len() == 0 || reads[0].len() == 0 {
            course(received(pending, Seq::empty()), Seq::empty())
        } else {
            course(received(pending, reads[0]), reads.skip(1))
        },
        State::Responding { reply, .. } => course(next_state(state, Event::Written), reads).after(
            reply,
        ),
        State::Signalling => course(
            next_state(state, Event::Signalled(SignalOutcome::Delivered)),
            reads,
        ).after_signal(),
        State::Closed { result } => Transcript::silent(result),
    }
}

#[via_fn]
proof fn course_decreases(state: State, reads: Seq<Seq<u8>>) {
    match state {
        State::Reading { pending } => {
            assert(pending + Seq::<u8>::empty() =~= pending);
            lemma_advance_consumes(pending, true);
        },
        State::Responding { pending, eof, .. } => {
            lemma_advance_consumes(pending, eof);
        },
        _ => {},
    }
}

/// Working off lines never adds to what is pending, and what it stops at
/// to reply has been taken off it. Once the stream has ended, no reading
/// follows.
proof fn lemma_advance_consumes(pending: Seq<u8>, eof: bool)
    ensures
        advance_state(pending, eof).pending().len() <= pending.len(),
        advance_state(pending, eof) is Responding ==> advance_state(pending, eof).pending().len()
            < pending.len(),
        eof ==> !(advance_state(pending, eof) is Reading),
    decreases pending.len(),
{
    let n = line_len(pending);
    if 0 < n <= pending.len() {
        if command_of_bytes(pending.take(n)) == Some(Command::Other) {
            lemma_advance_consumes(pending.skip(n), eof);
        }
    }
}

/// The first line of what has been received stays the first line, whatever
/// is received after it.
proof fn lemma_first_line_stays(pending: Seq<u8>, more: Seq<u8>)
    requires
        pending.contains(LINE_FEED),
    ensures
        line_len(pending + more) == line_len(pending),
        0 < line_len(pending) <= pending.len(),
        (pending + more).take(line_len(pending)) == pending.take(line_len(pending)),
        (pending + more).skip(line_len(pending)) == pending.skip(line_len(pending))
            + more,
{
    let both = pending + more;
    pending.index_of_first_ensures(LINE_FEED);
    both.index_of_first_ensures(LINE_FEED);
    let i = pending.index_of_first(LINE_FEED).unwrap();
    assert(both[i] == LINE_FEED);
    assert(both.contains(LINE_FEED));
    let j = both.index_of_first(LINE_FEED).unwrap();
    if j < i {
        assert(pending[j] == both[j]);
    }
    if i < j {
        assert(both[i] == pending[i]);
    }
    assert(both.take(i + 1) =~= pending.take(i + 1));
    assert(both.skip(i + 1) =~= pending.skip(i + 1) + more);
}

/// Once the stream has ended, the handler goes the course of the
/// transcript of what is pending.
proof fn lemma_course_to_the_end(pending: Seq<u8>)
    ensures
        course(advance_state(pending, true), Seq::empty()) == transcript(pending),
    decreases pending.len(),
{
    let n = line_len(pending);
    let none = Seq::<Seq<u8>>::empty();
    pending.index_of_first_ensures(LINE_FEED);
    if 0 < n <= pending.len() {
        let rest = pending.skip(n);
        match command_of_bytes(pending.take(n)) {
            None => {},
            Some(Command::Ping) => {
                lemma_course_to_the_end(rest);
                let replying = State::Responding { reply: Reply::Pong, pending: rest, eof: true };
                assert(course(replying, none) == course(advance_state(rest, true), none).after(
                    Reply::Pong,
                ));
            },
            Some(Command::Stop) => {
                lemma_course_of_sure(rest, true, none);
            },
            Some(Command::Other) => {
                lemma_course_to_the_end(rest);
            },
        }
    }
}

/// From the writing of `SURE`, the course is the same wherever it begins:
/// the signal, and a clean end.
proof fn lemma_course_of_sure(pending: Seq<u8>, eof: bool, reads: Seq<Seq<u8>>)
    ensures
        course(State::Responding { reply: Reply::Sure, pending, eof }, reads) == Transcript::silent(
            Ok(()),
        ).after_signal().after(Reply::Sure),
{
    let replying = State::Responding { reply: Reply::Sure, pending, eof };
    assert(course(replying, reads) == course(State::Signalling, reads).after(Reply::Sure));
    assert(course(State::Signalling, reads) == course(State::Closed { result: Ok(()) }, reads)
        .after_signal());
}

/// While the stream is open, the handler goes the course of the transcript
/// of what is pending and what is yet to come.
proof fn lemma_course_of_reads(pending: Seq<u8>, reads: Seq<Seq<u8>>)
    requires
        forall|i: int| 0 <= i < reads.len() ==> (#[trigger] reads[i]).len() > 0,
    ensures
        course(advance_state(pending, false), reads) == transcript(pending + reads.flatten()),
    decreases reads.len(), pending.len(),
{
    let more = reads.flatten();
    let n = line_len(pending);
    pending.index_of_first_ensures(LINE_FEED);
    if pending.contains(LINE_FEED) {
        lemma_first_line_stays(pending, more);
        let rest = pending.skip(n);
        match command_of_bytes(pending.take(n)) {
            None => {},
            Some(Command::Ping) => {
                lemma_course_of_reads(rest, reads);
                let replying = State::Responding { reply: Reply::Pong, pending: rest, eof: false };
                assert(course(replying, reads) == course(advance_state(rest, false), reads).after(
                    Reply::Pong,
                ));
            },
            Some(Command::Stop) => {
                lemma_course_of_sure(rest, false, reads);
            },
            Some(Command::Other) => {
                lemma_course_of_reads(rest, reads);
            },
        }
    } else {
        let reading = State::Reading { pending };
        assert(advance_state(pending, false) == reading);
        if reads.len() == 0 {
            assert(more =~= Seq::<u8>::empty());
            assert(pending + more =~= pending);
            assert(pending + Seq::<u8>::empty() =~= pending);
            lemma_course_to_the_end(pending);
        } else {
            let first = reads[0];
            let later = reads.skip(1);
            assert(later =~= reads.drop_first());
            assert(more == first + later.flatten());
            assert((pending + first) + later.flatten() =~= pending + more);
            assert forall|i: int| 0 <= i < later.len() implies (#[trigger] later[i]).len() > 0 by {
                assert(later[i] == reads[i + 1]);
            }
            lemma_course_of_reads(pending + first, later);
        }
    }
}

/// A handler gives a peer what the transcript of its stream says, however
/// the stream is split over reads.
pub proof fn theorem_course_is_transcript(reads: Seq<Seq<u8>>)
    requires
        forall|i: int| 0 <= i < reads.len() ==> (#[trigger] reads[i]).len() > 0,
    ensures
        course(State::initial(), reads) == transcript(reads.flatten()),
{
    let nothing = Seq::<u8>::empty();
    nothing.index_of_first_ensures(LINE_FEED);
    assert(advance_state(nothing, false) == State::initial());
    lemma_course_of_reads(nothing, reads);
    assert(nothing + reads.flatten() =~= reads.flatten());
}

/// What a stream holds after its last line feed changes nothing: bytes
/// that no line feed ends get no reply and no signal, whatever they are.
pub proof fn theorem_unended_tail_gets_nothing(stream: Seq<u8>, tail: Seq<u8>)
    requires
        !tail.contains(LINE_FEED),
    ensures
        transcript(stream + tail) == transcript(stream),
    decreases stream.len(),
{
    let both = stream + tail;
    stream.index_of_first_ensures(LINE_FEED);
    both.index_of_first_ensures(LINE_FEED);
    if stream.contains(LINE_FEED) {
        lemma_first_line_stays(stream, tail);
        theorem_unended_tail_gets_nothing(stream.skip(line_len(stream)), tail);
    } else if both.contains(LINE_FEED) {
        let i = both.index_of_first(LINE_FEED).unwrap();
        if i < stream.len() {
            assert(stream[i] == LINE_FEED);
        } else {
            assert(tail[i - stream.len()] == LINE_FEED);
        }
    }
}

/// Two ways of splitting one stream over reads lead a handler the same
/// course.
pub proof fn theorem_splitting_is_invisible(one: Seq<Seq<u8>>, other: Seq<Seq<u8>>)
    requires
        forall|i: int| 0 <= i < one.len() ==> (#[trigger] one[i]).len() > 0,
        forall|i: int| 0 <= i < other.len() ==> (#[trigger] other[i]).len() > 0,
        one.flatten() == other.flatten(),
    ensures
        course(State::initial(), one) == course(State::initial(), other),
{
    theorem_course_is_transcript(one);
    theorem_course_is_transcript(other);
}

} // verus!
