//! The failures that an operation can end in.

use vstd::prelude::*;
use vstd::string::*;

verus! {

/// The classes of failure. A caller should treat `InvalidArgument`,
/// `NotFound`, `Unauthenticated` and `Unsupported` as final for the request
/// as it was sent, and the others as conditions of the storage cluster.
#[derive(Clone, Copy, Debug, PartialEq, Eq, Structural)]
pub enum ErrorKind {
    /// The request itself is wrong: a bad name, a size that cannot be
    /// represented, a quota that the store refuses.
    InvalidArgument,
    /// A node, peer, volume or quota that the request names is not there.
    NotFound,
    /// The credential is missing or was not accepted.
    Unauthenticated,
    /// The storage cluster gave no topology to work with.
    Unavailable,
    /// A store operation failed.
    Internal,
    /// The operation is part of the interface but is not offered.
    Unsupported,
}

impl ErrorKind {
    /// The HTTP status that stands for this class.
    pub open spec fn status_of(self) -> u16 {
        match self {
            ErrorKind::InvalidArgument => 400,
            ErrorKind::NotFound => 404,
            ErrorKind::Unauthenticated => 401,
            ErrorKind::Unavailable => 503,
            ErrorKind::Internal => 500,
            ErrorKind::Unsupported => 501,
        }
    }

    /// The HTTP status that stands for this class.
    pub fn status(&self) -> (code: u16)
        ensures
            code == self.status_of(),
            400 <= code < 600,
    {
        match self {
            ErrorKind::InvalidArgument => 400,
            ErrorKind::NotFound => 404,
            ErrorKind::Unauthenticated => 401,
            ErrorKind::Unavailable => 503,
            ErrorKind::Internal => 500,
            ErrorKind::Unsupported => 501,
        }
    }
}

/// A failure: its class and a message for the client.
#[derive(Clone, Debug, PartialEq, Eq)]
pub struct Error {
    pub kind: ErrorKind,
    pub message: String,
}

/// What an `Error` is in contracts.
pub struct ErrorView {
    pub kind: ErrorKind,
    pub message: Seq<char>,
}

impl View for Error {
    type V = ErrorView;

    open spec fn view(&self) -> ErrorView {
        ErrorView { kind: self.kind, message: self.message@ }
    }
}

impl Error {
    /// A failure of class `kind` with the text of `message`.
    pub fn new(kind: ErrorKind, message: &str) -> (e: Error)
        ensures
            e@ == (ErrorView { kind, message: message@ }),
    {
        Error { kind, message: String::from_str(message) }
    }
}

} // verus!
