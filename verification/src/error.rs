//! The ways a request can fail.

use vstd::prelude::*;

verus! {

/// Why a request was turned down. No failure ends the process: each is
/// handed back to the caller, who answers the request with it.
#[derive(Debug, Clone, Copy, PartialEq, Eq, Structural)]
pub enum Error {
    /// The token string holds a character that no token holds.
    InvalidToken,
    /// No slot, config or file of that name exists.
    NotFound,
    /// The slot's expiry has passed.
    Expired,
    /// The slot's quota is smaller than the request.
    OutOfSpace,
    /// A file name or a stored config cannot be read as one.
    Malformed,
    /// The file system refused an operation.
    IoFailure,
}

/// The text that describes each failure.
pub open spec fn message_of(e: Error) -> Seq<char> {
    match e {
        Error::InvalidToken => "Invalid token"@,
        Error::NotFound => "Not found"@,
        Error::Expired => "Token has expired"@,
        Error::OutOfSpace => "Out of Space"@,
        Error::Malformed => "Malformed"@,
        Error::IoFailure => "I/O failure"@,
    }
}

impl Error {
    /// What a refused file operation counts as: `NotFound` where the file
    /// or directory is missing, `IoFailure` else.
    pub fn from_io(missing: bool) -> (r: Error)
        ensures
            r == if missing {
                Error::NotFound
            } else {
                Error::IoFailure
            },
    {
        if missing {
            Error::NotFound
        } else {
            Error::IoFailure
        }
    }

    /// A short description for logs and responses.
    pub fn message(&self) -> (r: &'static str)
        ensures
            r@ == message_of(*self),
    {
        match self {
            Error::InvalidToken => "Invalid token",
            Error::NotFound => "Not found",
            Error::Expired => "Token has expired",
            Error::OutOfSpace => "Out of Space",
            Error::Malformed => "Malformed",
            Error::IoFailure => "I/O failure",
        }
    }
}

} // verus!
