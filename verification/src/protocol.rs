//! The two commands and their replies.

use crate::text::{
    all_white_space, is_white_space, lemma_trim_end_drops, lemma_trim_start_skips, trim,
    trim_start, white_space,
};
use vstd::prelude::*;
use vstd::string::StringSliceAdditionalSpecFns;
use vstd::utf8::{decode_utf8, valid_utf8};

verus! {

/// What a line asks for.
#[derive(Clone, Copy, Debug, PartialEq, Eq, Structural)]
pub enum Command {
    /// The liveness probe.
    Ping,
    /// The request to shut the server down.
    Stop,
    /// Anything else: it is ignored.
    Other,
}

/// What the server writes back.
#[derive(Clone, Copy, Debug, PartialEq, Eq, Structural)]
pub enum Reply {
    /// The answer to `Command::Ping`.
    Pong,
    /// The answer to `Command::Stop`.
    Sure,
}

/// The word `PING`.
pub open spec fn ping_word() -> Seq<char> {
    seq!['P', 'I', 'N', 'G']
}

/// The word `STOP`.
pub open spec fn stop_word() -> Seq<char> {
    seq!['S', 'T', 'O', 'P']
}

/// The command that a line of text holds: the line is trimmed, and what is
/// left is matched exactly.
pub open spec fn command_of(line: Seq<char>) -> Command {
    let word = trim(line);
    if word == ping_word() {
        Command::Ping
    } else if word == stop_word() {
        Command::Stop
    } else {
        Command::Other
    }
}

/// The command that the bytes of a line hold, where they are text at all:
/// bytes that are not UTF-8 hold none.
pub open spec fn command_of_bytes(line: Seq<u8>) -> Option<Command> {
    if valid_utf8(line) {
        Some(command_of(decode_utf8(line)))
    } else {
        None
    }
}

impl Command {
    /// The reply that the command is owed, if any.
    pub open spec fn spec_reply(self) -> Option<Reply> {
        match self {
            Command::Ping => Some(Reply::Pong),
            Command::Stop => Some(Reply::Sure),
            Command::Other => None,
        }
    }

    /// The reply that the command is owed, if any.
    #[verifier::when_used_as_spec(spec_reply)]
    pub fn reply(self) -> (reply: Option<Reply>)
        ensures
            reply == self.spec_reply(),
    {
        match self {
            Command::Ping => Some(Reply::Pong),
            Command::Stop => Some(Reply::Sure),
            Command::Other => None,
        }
    }
}

impl Reply {
    /// The bytes of the reply on the wire: the word, a carriage return and a
    /// line feed.
    pub open spec fn wire(self) -> Seq<u8> {
        match self {
            Reply::Pong => seq!['P' as u8, 'O' as u8, 'N' as u8, 'G' as u8, '\r' as u8, '\n' as u8],
            Reply::Sure => seq!['S' as u8, 'U' as u8, 'R' as u8, 'E' as u8, '\r' as u8, '\n' as u8],
        }
    }

    /// The bytes to write for this reply.
    pub fn bytes(self) -> (bytes: Vec<u8>)
        ensures
            bytes@ == self.wire(),
    {
        let bytes = match self {
            Reply::Pong => vec!['P' as u8, 'O' as u8, 'N' as u8, 'G' as u8, '\r' as u8, '\n' as u8],
            Reply::Sure => vec!['S' as u8, 'U' as u8, 'R' as u8, 'E' as u8, '\r' as u8, '\n' as u8],
        };
        assert(bytes@ =~= self.wire());
        bytes
    }
}

/// Reads the command of a line of text, in one pass and without copying it.
pub fn classify(line: &str) -> (command: Command)
    ensures
        command == command_of(line@),
{
    // Whether a character that is no whitespace has been met; how many
    // characters have been met from the first such on, and how many of
    // them up to the last such, 5 standing for any greater number; and the
    // first four of them.
    let mut seen = false;
    let mut run: u8 = 0;
    let mut core: u8 = 0;
    let mut word = [' ', ' ', ' ', ' '];
    let ghost mut lo: int = 0;
    let ghost mut hi: int = 0;
    for c in it: line.chars()
        invariant
            it.seq() == line@,
            !seen ==> run == 0 && core == 0,
            !seen ==> forall|j: int| 0 <= j < it.index() ==> is_white_space(#[trigger] line@[j]),
            seen ==> {
                &&& 0 <= lo < hi <= it.index()
                &&& forall|j: int| 0 <= j < lo ==> is_white_space(#[trigger] line@[j])
                &&& !is_white_space(line@[lo])
                &&& !is_white_space(line@[hi - 1])
                &&& forall|j: int| hi <= j < it.index() ==> is_white_space(#[trigger] line@[j])
                &&& run == if it.index() - lo < 5 { it.index() - lo } else { 5 }
                &&& core == if hi - lo < 5 { hi - lo } else { 5 }
                &&& forall|k: int| 0 <= k < 4 && k < run ==> #[trigger] word@[k] == line@[lo + k]
            },
    {
        let white = white_space(c);
        if !seen && !white {
            seen = true;
            proof {
                lo = it.index() as int;
            }
        }
        if seen {
            if run < 4 {
                word[run as usize] = c;
            }
            if run < 5 {
                run += 1;
            }
            if !white {
                core = run;
                proof {
                    hi = it.index() + 1;
                }
            }
        }
    }
    proof {
        let n = line@.len() as int;
        if seen {
            let rest = line@.skip(lo);
            assert(all_white_space(line@.subrange(0, lo)));
            lemma_trim_start_skips(line@, lo);
            assert(trim_start(line@) == rest);
            assert(all_white_space(rest.subrange(hi - lo, rest.len() as int))) by {
                assert forall|j: int| 0 <= j < n - hi implies is_white_space(
                    #[trigger] rest.subrange(hi - lo, rest.len() as int)[j],
                ) by {
                    assert(rest.subrange(hi - lo, rest.len() as int)[j] == line@[hi + j]);
                }
            }
            lemma_trim_end_drops(rest, hi - lo);
            assert(rest.subrange(0, hi - lo) =~= line@.subrange(lo, hi));
            assert(line@.subrange(lo, hi).last() == line@[hi - 1]);
            assert(trim(line@) == line@.subrange(lo, hi));
        } else {
            assert(all_white_space(line@.subrange(0, n)));
            lemma_trim_start_skips(line@, n);
            assert(line@.subrange(n, n) =~= Seq::<char>::empty());
            assert(trim(line@) == Seq::<char>::empty());
        }
        assert(ping_word().len() == 4 && stop_word().len() == 4);
    }
    if core != 4 {
        Command::Other
    } else if word[0] == 'P' && word[1] == 'I' && word[2] == 'N' && word[3] == 'G' {
        assert(trim(line@) =~= ping_word());
        Command::Ping
    } else if word[0] == 'S' && word[1] == 'T' && word[2] == 'O' && word[3] == 'P' {
        assert(trim(line@) =~= stop_word());
        assert(trim(line@)[0] != ping_word()[0]);
        Command::Stop
    } else {
        assert(forall|k: int| 0 <= k < 4 ==> trim(line@)[k] == #[trigger] word@[k]);
        assert(ping_word()[0] == 'P' && ping_word()[1] == 'I' && ping_word()[2] == 'N'
            && ping_word()[3] == 'G');
        assert(stop_word()[0] == 'S' && stop_word()[1] == 'T' && stop_word()[2] == 'O'
            && stop_word()[3] == 'P');
        Command::Other
    }
}

/// Why `std::str::from_utf8` refused a byte string, carried as an opaque
/// value.
#[verifier::external_type_specification]
#[verifier::external_body]
pub struct ExUtf8Error(std::str::Utf8Error);

/// The standard library's `std::str::from_utf8`: it accepts exactly the
/// byte strings that are UTF-8, and then hands back the same bytes as text.
#[verifier::external_body]
fn text_of<'a>(bytes: &'a [u8]) -> (text: Result<&'a str, std::str::Utf8Error>)
    ensures
        text is Ok <==> valid_utf8(bytes@),
        text matches Ok(t) ==> t.spec_bytes() == bytes@,
{
    std::str::from_utf8(bytes)
}

/// Reads the command of a line as it came off the wire. Bytes that are not
/// UTF-8 are no line of text, and give `None`.
pub fn parse_line(line: &[u8]) -> (command: Option<Command>)
    ensures
        command == command_of_bytes(line@),
{
    match text_of(line) {
        Ok(text) => {
            proof {
                vstd::utf8::encode_utf8_decode_utf8(text@);
            }
            Some(classify(text))
        },
        Err(_) => None,
    }
}

} // verus!
