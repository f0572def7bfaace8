//! The ways in which a client gives up.

use vstd::prelude::*;

verus! {

/// The kind of an error. There are two that the client looks for, and
/// whatever else goes wrong is fatal all the same.
#[derive(Debug, Clone, Copy, PartialEq, Eq, Structural)]
pub enum ErrorKind {
    /// The setup is wrong: the endpoint, or the accounts that the target was
    /// seeded with.
    Setup,
    /// The target no longer answers as the request mapping expects.
    ProtocolDrift,
    /// An answer could not be read at all.
    Other,
}

/// Why a client aborted. Every error is final: nothing is retried.
#[derive(Debug, Clone, Copy, PartialEq, Eq, Structural)]
pub enum ClientError {
    /// The base endpoint is not an absolute URL, or the address of a request
    /// cannot be formed from it.
    Configuration,
    /// The login of `user` was answered with `observed`, not with a redirect.
    Fixture { user: u32, observed: u16 },
    /// An operation was answered with `observed` where `expected` was due.
    ProtocolDrift { expected: u16, observed: u16 },
    /// A login was accepted, but the answer carried no readable session cookies.
    MalformedResponse,
}

impl ClientError {
    /// The kind of this error.
    pub open spec fn kind_spec(self) -> ErrorKind {
        match self {
            ClientError::Configuration => ErrorKind::Setup,
            ClientError::Fixture { .. } => ErrorKind::Setup,
            ClientError::ProtocolDrift { .. } => ErrorKind::ProtocolDrift,
            ClientError::MalformedResponse => ErrorKind::Other,
        }
    }

    /// The kind of this error: a wrong setup for a bad endpoint and for a
    /// refused login, protocol drift for an unexpected status.
    #[verifier::when_used_as_spec(kind_spec)]
    pub fn kind(self) -> (r: ErrorKind)
        ensures
            r == self.kind_spec(),
    {
        match self {
            ClientError::Configuration => ErrorKind::Setup,
            ClientError::Fixture { .. } => ErrorKind::Setup,
            ClientError::ProtocolDrift { .. } => ErrorKind::ProtocolDrift,
            ClientError::MalformedResponse => ErrorKind::Other,
        }
    }
}

} // verus!
