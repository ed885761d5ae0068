//! Failure taxonomy of the network session.
//!
//! Every failure of a live session is reported as exactly one [`Error`]
//! variant, so that the orchestrator and the UI can pick distinct recovery
//! or display behaviour per kind instead of re-deriving intent from an
//! undifferentiated error.

use vstd::prelude::*;

verus! {

/// A fault reported by the underlying transport while exchanging frames
/// with the remote simulation authority.
#[derive(Clone, Copy, Debug, PartialEq, Eq, Structural)]
pub enum PostError {
    /// The connection was lost or closed unexpectedly.
    Disconnected,
    /// A frame arrived that could not be decoded.
    MalformedFrame,
    /// Sending a frame failed.
    SendFault,
    /// Receiving a frame failed.
    RecvFault,
}

/// A classified failure of the network session. Exactly one variant is
/// active per failure.
#[derive(Debug, PartialEq, Eq)]
pub enum Error {
    /// The transport layer reported a fault; not retried by this layer.
    Network(PostError),
    /// The remote authority sent state that violates a protocol invariant;
    /// the session must be torn down.
    ServerWentMad,
    /// No response within the expected window; the connection may be lost.
    ServerTimeout,
    /// The remote authority performed an orderly disconnect.
    ServerShutdown,
    /// An otherwise unclassified condition, with a description.
    Other(String),
}

impl core::convert::From<PostError> for Error {
    /// Wraps a transport fault into the session taxonomy.
    fn from(err: PostError) -> Self {
        Error::Network(err)
    }
}

impl vstd::std_specs::convert::FromSpecImpl<PostError> for Error {
    open spec fn obeys_from_spec() -> bool {
        true
    }

    open spec fn from_spec(t: PostError) -> Self {
        Error::Network(t)
    }
}

impl Error {
    /// A short user-facing description, distinguishing an orderly
    /// disconnect and a lost connection from hard faults.
    pub fn user_message(&self) -> (r: &str)
        ensures
            match self {
                Error::Network(_) => r@ == "the connection failed"@,
                Error::ServerWentMad => r@ == "the server broke protocol"@,
                Error::ServerTimeout => r@ == "the connection is gone"@,
                Error::ServerShutdown => r@ == "you were disconnected"@,
                Error::Other(m) => r@ == m@,
            },
    {
        match self {
            Error::Network(_) => "the connection failed",
            Error::ServerWentMad => "the server broke protocol",
            Error::ServerTimeout => "the connection is gone",
            Error::ServerShutdown => "you were disconnected",
            Error::Other(m) => m.as_str(),
        }
    }
}

} // verus!
