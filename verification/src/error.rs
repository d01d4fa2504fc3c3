//! What can go wrong in one session. Every error ends the session: it is
//! committed in place of a response, and nothing is tried again.

use vstd::prelude::*;

verus! {

/// The two transfers of a session.
#[derive(Clone, Copy, Debug, PartialEq, Eq, Structural)]
pub enum RelayLeg {
    /// Inbound request body to the backend.
    Request,
    /// Backend response body to the caller.
    Response,
}

/// A body stream, or a sink for one, could not be had.
#[derive(Clone, Copy, Debug, PartialEq, Eq, Structural)]
pub enum AdapterError {
    RequestBodyUnavailable,
    RequestSinkUnavailable,
    ResponseBodyUnavailable,
    ResponseSinkUnavailable,
}

/// The outbound request could not be submitted.
#[derive(Clone, Copy, Debug, PartialEq, Eq, Structural)]
pub enum DispatchError {
    Refused,
}

/// The exchange with the backend ended without a response.
#[derive(Clone, Copy, Debug, PartialEq, Eq, Structural)]
pub enum ExchangeError {
    InvalidUrl,
    Timeout,
    Protocol,
    Unexpected,
}

/// Why a transfer stopped.
#[derive(Clone, Copy, Debug, PartialEq, Eq, Structural)]
pub enum RelayFault {
    /// The source failed.
    Read,
    /// The sink failed.
    Write,
    /// The sink claimed more bytes than it was offered.
    Overrun,
}

/// A body transfer failed.
#[derive(Clone, Copy, Debug, PartialEq, Eq, Structural)]
pub struct RelayError {
    pub leg: RelayLeg,
    pub fault: RelayFault,
}

/// The failure that a session commits in place of a response.
#[derive(Clone, Copy, Debug, PartialEq, Eq, Structural)]
pub enum SessionError {
    Adapter(AdapterError),
    Dispatch(DispatchError),
    Exchange(ExchangeError),
    Relay(RelayError),
}

/// A misuse of a session or of its commit point by the code that drives it.
/// The call that reports one changes nothing.
#[derive(Clone, Copy, Debug, PartialEq, Eq, Structural)]
pub enum ProtocolError {
    /// The event does not answer the operation that the session asked for.
    UnexpectedEvent,
    /// The session has committed its outcome and takes no more events.
    SessionClosed,
    /// The commit point already holds an outcome.
    AlreadyCommitted,
}

} // verus!
