//! Error classification for connection termination.
//!
//! When the bridge's poll cycle fails, the native I/O error is mapped to the
//! error object handed to the host's `connection_lost` callback: a timeout
//! becomes a distinct socket-timeout error, anything else a generic OS error
//! carrying the native kind.

use vstd::prelude::*;

verus! {

/// The kind of a native I/O error, as far as the bridge distinguishes it.
#[derive(Clone, Copy, PartialEq, Eq, Structural, Debug)]
pub enum IoErrorKind {
    TimedOut,
    Other,
}

/// The error object the host protocol receives in `connection_lost`.
#[derive(Clone, Copy, PartialEq, Eq, Structural, Debug)]
pub enum HostError {
    /// A distinct timeout error, recognisable by the host as such.
    SocketTimeout,
    /// A generic OS error carrying the native kind.
    OsError(IoErrorKind),
}

/// What classification yields for each native kind.
pub open spec fn classify(kind: IoErrorKind) -> HostError {
    match kind {
        IoErrorKind::TimedOut => HostError::SocketTimeout,
        IoErrorKind::Other => HostError::OsError(IoErrorKind::Other),
    }
}

/// Map a native I/O error kind to the host-visible error object.
pub fn classify_error(kind: IoErrorKind) -> (r: HostError)
    ensures
        r == classify(kind),
{
    match kind {
        IoErrorKind::TimedOut => HostError::SocketTimeout,
        IoErrorKind::Other => HostError::OsError(IoErrorKind::Other),
    }
}

/// A timeout is classified as a socket-timeout error and nothing else is:
/// the host can always tell a timeout apart from any other I/O failure.
pub proof fn lemma_timeout_classification(kind: IoErrorKind)
    ensures
        classify(kind) == HostError::SocketTimeout <==> kind == IoErrorKind::TimedOut,
{
}

} // verus!
