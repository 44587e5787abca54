//! The one kind of error: an I/O failure.
//!
//! The state machines of this library name the operation that failed, as an
//! `IoFailure`. Their drivers hold what the operating system said of it, and
//! wrap that in an `AppError`.

use vstd::prelude::*;
use vstd::std_specs::convert::FromSpecImpl;
use vstd::string::StringExecFns;

verus! {

/// The operation that failed.
#[derive(Clone, Copy, Debug, PartialEq, Eq, Structural)]
pub enum IoFailure {
    /// The listening socket could not be bound.
    Bind,
    /// A connection could not be accepted.
    Accept,
    /// A read from the peer failed.
    Read,
    /// What the peer sent as a line is not UTF-8 text.
    InvalidData,
    /// A write to the peer failed.
    Write,
}

/// The standard library's `std::io::Error`, carried as an opaque value.
#[verifier::external_type_specification]
#[verifier::external_body]
pub struct ExIoError(std::io::Error);

/// Why a connection handler or the accept loop ended abnormally.
#[derive(Debug)]
pub enum AppError {
    /// An I/O operation failed.
    IoError(std::io::Error),
}

impl From<std::io::Error> for AppError {
    fn from(error: std::io::Error) -> (wrapped: AppError) {
        AppError::IoError(error)
    }
}

impl FromSpecImpl<std::io::Error> for AppError {
    open spec fn obeys_from_spec() -> bool {
        true
    }

    open spec fn from_spec(error: std::io::Error) -> AppError {
        AppError::IoError(error)
    }
}

/// The text that `std::io::Error` shows for itself, through its `Display`.
/// What it says is the operating system's, so nothing is claimed of it.
#[verifier::external_body]
fn io_error_text(error: &std::io::Error) -> (text: String) {
    format!("{}", error)
}

/// The text of an I/O failure whose cause reads `detail`: `IO: `, then
/// `detail`, and nothing else.
pub fn io_message(detail: &str) -> (text: String)
    ensures
        text@ == seq!['I', 'O', ':', ' '] + detail@,
{
    let text = String::from_str("IO: ").concat(detail);
    proof {
        reveal_strlit("IO: ");
        assert(text@ =~= seq!['I', 'O', ':', ' '] + detail@);
    }
    text
}

impl AppError {
    /// The error as text: `io_message` of what the wrapped error says of
    /// itself. What that is, the operating system decides: of the whole
    /// text only the beginning is known beforehand.
    pub fn message(&self) -> (text: String)
        ensures
            text@.len() >= 4,
            text@.take(4) == seq!['I', 'O', ':', ' '],
    {
        match self {
            AppError::IoError(error) => {
                let detail = io_error_text(error);
                let text = io_message(detail.as_str());
                assert(text@.take(4) =~= seq!['I', 'O', ':', ' ']);
                text
            },
        }
    }
}

} // verus!
