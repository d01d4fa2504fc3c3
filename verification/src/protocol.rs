//! The vocabulary between a session and the code that drives it: the phases
//! of a session, the operations it asks for, and the events that answer them.

use crate::descriptor::{ResponseDescriptor, ResponseView};
use crate::error::{ExchangeError, RelayLeg};
use crate::relay::{RelayEvent, RelayInput};
use vstd::prelude::*;

verus! {

/// Where a session stands. The phases follow one another in this order; a
/// failure leads from any of them straight to `Closed`, and `Dispatching` is
/// left out where the request was submitted while its body was relayed.
#[derive(Clone, Copy, Debug, PartialEq, Eq, Structural)]
pub enum SessionPhase {
    AcquiringRequestBody,
    OpeningRequestSink,
    RelayingRequest,
    Dispatching,
    AwaitingCompletion,
    RetrievingOutcome,
    AcquiringResponseBody,
    OpeningResponseSink,
    RelayingResponse,
    Closed,
}

/// The operation that a session waits for.
#[derive(Clone, Copy, Debug, PartialEq, Eq, Structural)]
pub enum SessionAction {
    /// Take the body stream of the inbound request.
    AcquireRequestBody,
    /// Create the outbound request and open the sink for its body.
    OpenRequestSink,
    /// Read the next chunk from the source of this leg.
    Read(RelayLeg),
    /// Write the pending bytes to the sink of this leg.
    Write(RelayLeg),
    /// Submit the outbound request.
    Dispatch,
    /// Suspend until the exchange under this handle signals readiness.
    AwaitCompletion(u32),
    /// Retrieve the outcome of the exchange under this handle.
    RetrieveOutcome(u32),
    /// Take the body stream of the backend's response.
    AcquireResponseBody,
    /// Create the outbound response and open the sink for its body.
    OpenResponseSink,
    /// Hand the committed outcome to the caller. Nothing follows.
    Deliver,
}

/// The result of an operation, as the driver reports it.
#[derive(Debug, PartialEq, Eq)]
pub enum SessionEvent {
    BodyAcquired,
    BodyUnavailable,
    SinkOpened,
    SinkUnavailable,
    Relay(RelayEvent),
    /// The request was submitted; the exchange is known under this handle.
    Dispatched(u32),
    DispatchFailed,
    /// The readiness signal of the exchange has fired.
    Signaled,
    /// The exchange resolved with the backend's response.
    Responded(ResponseDescriptor),
    /// The exchange resolved with an error.
    Broken(ExchangeError),
}

/// What a [`SessionEvent`] stands for.
pub enum SessionInput {
    BodyAcquired,
    BodyUnavailable,
    SinkOpened,
    SinkUnavailable,
    Relay(RelayInput),
    Dispatched(u32),
    DispatchFailed,
    Signaled,
    Responded(ResponseView),
    Broken(ExchangeError),
}

impl View for SessionEvent {
    type V = SessionInput;

    open spec fn view(&self) -> SessionInput {
        match self {
            SessionEvent::BodyAcquired => SessionInput::BodyAcquired,
            SessionEvent::BodyUnavailable => SessionInput::BodyUnavailable,
            SessionEvent::SinkOpened => SessionInput::SinkOpened,
            SessionEvent::SinkUnavailable => SessionInput::SinkUnavailable,
            SessionEvent::Relay(event) => SessionInput::Relay(event@),
            SessionEvent::Dispatched(handle) => SessionInput::Dispatched(*handle),
            SessionEvent::DispatchFailed => SessionInput::DispatchFailed,
            SessionEvent::Signaled => SessionInput::Signaled,
            SessionEvent::Responded(response) => SessionInput::Responded(response@),
            SessionEvent::Broken(error) => SessionInput::Broken(*error),
        }
    }
}

} // verus!
