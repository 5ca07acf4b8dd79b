//! The error type shared by every fallible operation of the crate.

use vstd::prelude::*;
use vstd::std_specs::convert::FromSpecImpl;
use tonic::codegen::http::uri::InvalidUri;
use tonic::Status;

verus! {

/// What can go wrong in this crate. No kind is retried or recovered from
/// internally: each is handed to the caller.
#[derive(Debug)]
pub enum Error {
    /// An endpoint address is not a valid URI.
    InvalidUri(InvalidUri),
    /// The RPC itself failed; the transport's status is kept verbatim.
    TonicStatus(Status),
    /// A required option was missing when a value was built.
    IllegalArgument(String),
    /// A stored byte sequence is malformed.
    ByteSequenceParseError,
    /// The clauses of a transaction were supplied out of order.
    InvalidTxnSequence(String),
    /// A lease keep-alive stream could not be established or driven.
    KeepAliveError(String),
    /// A watch stream could not be established or driven.
    WatchError(String),
    /// Anything else.
    Other(String),
}

impl From<InvalidUri> for Error {
    fn from(value: InvalidUri) -> (r: Self) {
        Error::InvalidUri(value)
    }
}

impl FromSpecImpl<InvalidUri> for Error {
    open spec fn obeys_from_spec() -> bool {
        true
    }

    open spec fn from_spec(value: InvalidUri) -> Self {
        Error::InvalidUri(value)
    }
}

impl From<Status> for Error {
    fn from(value: Status) -> (r: Self) {
        Error::TonicStatus(value)
    }
}

impl FromSpecImpl<Status> for Error {
    open spec fn obeys_from_spec() -> bool {
        true
    }

    open spec fn from_spec(value: Status) -> Self {
        Error::TonicStatus(value)
    }
}

} // verus!
