//! The ways in which serving a request can fail.

use vstd::prelude::*;

verus! {

/// The status that answers a request which cannot be served as it stands.
pub const BAD_REQUEST: u16 = 400;

/// The status that answers a request whose backend invocation could not be
/// started.
pub const TOO_MANY_REQUESTS: u16 = 429;

/// What can go wrong between receiving a request and closing its stream.
#[derive(Clone, Copy, Debug, PartialEq, Eq, Structural)]
pub enum RelayError {
    /// The inbound request cannot be turned into a backend invocation.
    InvalidRequest,
    /// The backend refused or failed the invocation before any stream opened.
    BackendUnavailable,
    /// The backend stream broke off after it had started.
    BackendStreamInterrupted,
    /// The caller went away while the stream was being written.
    ClientDisconnected,
}

impl RelayError {
    /// True for the failures that happen before a response has begun, which
    /// are therefore answered with a status of their own.
    pub open spec fn is_pre_stream(self) -> bool {
        self is InvalidRequest || self is BackendUnavailable
    }

    /// The HTTP status that answers this failure, where one is sent.
    pub open spec fn status(self) -> Option<u16> {
        match self {
            RelayError::InvalidRequest => Some(BAD_REQUEST),
            RelayError::BackendUnavailable => Some(TOO_MANY_REQUESTS),
            RelayError::BackendStreamInterrupted => None,
            RelayError::ClientDisconnected => None,
        }
    }

    /// The HTTP status to answer with: [`BAD_REQUEST`] for an invalid
    /// request, [`TOO_MANY_REQUESTS`] when the backend could not be started.
    /// A failure after the stream has opened has no status left to send.
    pub fn http_status(self) -> (status: Option<u16>)
        ensures
            status == self.status(),
            status is Some <==> self.is_pre_stream(),
    {
        match self {
            RelayError::InvalidRequest => Some(BAD_REQUEST),
            RelayError::BackendUnavailable => Some(TOO_MANY_REQUESTS),
            RelayError::BackendStreamInterrupted => None,
            RelayError::ClientDisconnected => None,
        }
    }

    /// Whether the failure is the server's to report. A caller that hangs up
    /// is expected and is no fault of the service.
    pub fn is_fault(self) -> (fault: bool)
        ensures
            fault == !(self is ClientDisconnected),
    {
        match self {
            RelayError::ClientDisconnected => false,
            _ => true,
        }
    }
}

} // verus!
