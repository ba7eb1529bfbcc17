//! Errors the protocol engines surface to their host.

use vstd::prelude::*;

verus! {

/// Why an inbound message, or a local operation, was refused.
///
/// `InvalidMessage` covers every validation failure of a single inbound
/// message: a wrong tag, an invalid signature or signature share, a bad
/// justification, a value that does not fit its round, a rejected proposal, or
/// detected equivocation.  `Generic` covers protocol violations such as
/// conflicting decisions.
#[derive(Debug, PartialEq, Eq)]
pub enum Error {
    InvalidMessage(String),
    Generic(String),
}

/// Mathematical model of an `Error`.
pub enum ErrorV {
    InvalidMessage(Seq<char>),
    Generic(Seq<char>),
}

impl View for Error {
    type V = ErrorV;

    open spec fn view(&self) -> ErrorV {
        match self {
            Error::InvalidMessage(s) => ErrorV::InvalidMessage(s@),
            Error::Generic(s) => ErrorV::Generic(s@),
        }
    }
}

} // verus!
