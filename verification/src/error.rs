//! The ways in which a terminal operation ends without a result.

use vstd::prelude::*;

verus! {

/// Why a terminal operation did not succeed.
#[derive(Clone, Copy, Debug, PartialEq, Eq, Structural)]
pub enum TtyError {
    /// No controlling terminal could be named or opened.
    NotATerminal,
    /// The system refused to report a stream's mode or size.
    QueryFailed,
    /// The system refused to install a mode.
    ApplyFailed,
    /// The stream has no usable handle.
    HandleInvalid,
}

/// What the system answered to one request on a stream.
#[derive(Debug, PartialEq, Eq)]
pub enum OsReply<T> {
    /// The stream could not be resolved to a live handle.
    InvalidHandle,
    /// The handle was live but the request was refused.
    Rejected,
    /// The request was carried out, with this answer.
    Accepted(T),
}

/// The error that stands for a query that gave no answer, if it gave none.
pub open spec fn query_error<T>(reply: OsReply<T>) -> Option<TtyError> {
    match reply {
        OsReply::Accepted(_) => None,
        OsReply::Rejected => Some(TtyError::QueryFailed),
        OsReply::InvalidHandle => Some(TtyError::HandleInvalid),
    }
}

impl TtyError {
    /// A short sentence for the user.
    pub fn message(&self) -> (text: &'static str)
        ensures
            text@ == Self::message_of(*self),
    {
        match self {
            TtyError::NotATerminal => "no controlling terminal",
            TtyError::QueryFailed => "the terminal could not be queried",
            TtyError::ApplyFailed => "the terminal mode could not be set",
            TtyError::HandleInvalid => "the stream has no valid handle",
        }
    }

    /// The sentence that `message` returns for each error.
    pub open spec fn message_of(e: TtyError) -> Seq<char> {
        match e {
            TtyError::NotATerminal => "no controlling terminal"@,
            TtyError::QueryFailed => "the terminal could not be queried"@,
            TtyError::ApplyFailed => "the terminal mode could not be set"@,
            TtyError::HandleInvalid => "the stream has no valid handle"@,
        }
    }
}

} // verus!
