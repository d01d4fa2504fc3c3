//! The exchange session: the coordinator of one invocation.
//!
//! A session is made from the inbound request and then driven: it names the
//! operation it waits for ([`ExchangeSession::action`]), the driver performs
//! it and reports the result to [`ExchangeSession::advance`]. The order is
//! fixed: take the inbound body, build the outbound request and open its
//! sink, relay the request body, dispatch, wait for completion, retrieve the
//! outcome, take the backend body, build the outbound response and open its
//! sink, relay the response body, commit. A failure at any point is committed
//! in place of the response, and nothing that would have followed is done.
//!
//! The dispatch needs the sink of the request body to be attached, and no
//! more. A session asks for it when the request body has been relayed, but it
//! takes the result of a dispatch from the moment the sink is open
//! ([`ExchangeSession::may_dispatch`]): a driver whose transport sends only
//! what has been submitted can dispatch first and relay the body afterwards.
//! Either way the wait for completion starts when the body has been relayed.

use crate::adapter::{RequestAdapter, ResponseAdapter};
use crate::commit::{outcome_at, outcome_of, CommitPoint, Outcome, OutcomeView};
use crate::descriptor::{
    request_at, request_of, response_at, response_of, Method, RequestDescriptor,
    ResponseDescriptor,
};
use crate::error::{
    AdapterError, DispatchError, ProtocolError, RelayError, RelayLeg, SessionError,
};
use crate::exchange::{exchange_at, exchange_of, PendingExchange};
use crate::headers::HeaderCollection;
use crate::model::SessionModel;
use crate::protocol::{SessionAction, SessionEvent, SessionInput, SessionPhase};
use crate::relay::{BodyRelay, RelayEvent, RelayPhase};
use vstd::prelude::*;

verus! {

/// The unit of work for one invocation. It owns the inbound request, the
/// pending exchange and the backend's response, and commits one outcome.
pub struct ExchangeSession {
    phase: SessionPhase,
    inbound: RequestDescriptor,
    outbound: Option<RequestDescriptor>,
    request_relay: BodyRelay,
    exchange: Option<PendingExchange>,
    backend: Option<ResponseDescriptor>,
    response: Option<ResponseDescriptor>,
    response_relay: BodyRelay,
    commit: CommitPoint,
}

impl View for ExchangeSession {
    type V = SessionModel;

    closed spec fn view(&self) -> SessionModel {
        SessionModel {
            phase: self.phase,
            inbound: self.inbound@,
            outbound: request_of(self.outbound),
            request_relay: self.request_relay@,
            exchange: exchange_of(self.exchange),
            backend: response_of(self.backend),
            response: match self.commit@ {
                Some(OutcomeView::Response(r)) => Some(r),
                _ => response_of(self.response),
            },
            response_relay: self.response_relay@,
            outcome: self.commit@,
        }
    }
}

impl ExchangeSession {
    #[verifier::type_invariant]
    spec fn well_formed(self) -> bool {
        self@.inv()
    }

    /// The session for `inbound`. It waits for the body of that request.
    pub fn new(inbound: RequestDescriptor) -> (session: ExchangeSession)
        ensures
            session@ == SessionModel::init(inbound@),
    {
        proof {
            SessionModel::lemma_init_inv(inbound@);
        }
        ExchangeSession {
            phase: SessionPhase::AcquiringRequestBody,
            inbound,
            outbound: None,
            request_relay: BodyRelay::new(),
            exchange: None,
            backend: None,
            response: None,
            response_relay: BodyRelay::new(),
            commit: CommitPoint::new(),
        }
    }

    /// Where the session stands.
    pub fn phase(&self) -> (phase: SessionPhase)
        ensures
            phase == self@.phase,
            self@.inv(),
    {
        proof {
            use_type_invariant(self);
        }
        self.phase
    }

    /// Whether the session has committed its outcome.
    pub fn is_closed(&self) -> (closed: bool)
        ensures
            closed == (self@.phase == SessionPhase::Closed),
            closed == self@.outcome is Some,
    {
        proof {
            use_type_invariant(self);
        }
        match self.phase {
            SessionPhase::Closed => true,
            _ => false,
        }
    }

    /// Whether the outbound request can be submitted now: the sink for its
    /// body is attached, and the request has not been submitted before.
    pub fn may_dispatch(&self) -> (may: bool)
        ensures
            may == self@.may_dispatch(),
    {
        let attached = match self.phase {
            SessionPhase::RelayingRequest => true,
            SessionPhase::Dispatching => true,
            _ => false,
        };
        attached && self.exchange.is_none()
    }

    /// The operation that the session waits for.
    pub fn action(&self) -> (action: SessionAction)
        ensures
            action == self@.action(),
    {
        match self.phase {
            SessionPhase::AcquiringRequestBody => SessionAction::AcquireRequestBody,
            SessionPhase::OpeningRequestSink => SessionAction::OpenRequestSink,
            SessionPhase::RelayingRequest => match self.request_relay.phase() {
                RelayPhase::Writing => SessionAction::Write(RelayLeg::Request),
                _ => SessionAction::Read(RelayLeg::Request),
            },
            SessionPhase::Dispatching => SessionAction::Dispatch,
            SessionPhase::AwaitingCompletion => SessionAction::AwaitCompletion(self.handle()),
            SessionPhase::RetrievingOutcome => SessionAction::RetrieveOutcome(self.handle()),
            SessionPhase::AcquiringResponseBody => SessionAction::AcquireResponseBody,
            SessionPhase::OpeningResponseSink => SessionAction::OpenResponseSink,
            SessionPhase::RelayingResponse => match self.response_relay.phase() {
                RelayPhase::Writing => SessionAction::Write(RelayLeg::Response),
                _ => SessionAction::Read(RelayLeg::Response),
            },
            SessionPhase::Closed => SessionAction::Deliver,
        }
    }

    /// The handle of the exchange; zero before there is one.
    pub fn handle(&self) -> (handle: u32)
        ensures
            handle == self@.handle(),
    {
        match &self.exchange {
            Some(x) => x.handle(),
            None => 0,
        }
    }

    /// The request as it came in.
    pub fn inbound_request(&self) -> (request: &RequestDescriptor)
        ensures
            request@ == self@.inbound,
    {
        &self.inbound
    }

    /// The request for the backend, once it is built.
    pub fn outbound_request(&self) -> (request: Option<&RequestDescriptor>)
        ensures
            request_at(request) == self@.outbound,
    {
        self.outbound.as_ref()
    }

    /// The exchange with the backend, once the request is submitted.
    pub fn exchange(&self) -> (exchange: Option<&PendingExchange>)
        ensures
            exchange_at(exchange) == self@.exchange,
    {
        self.exchange.as_ref()
    }

    /// The backend's response, once the exchange has resolved with one.
    pub fn backend_response(&self) -> (response: Option<&ResponseDescriptor>)
        ensures
            response_at(response) == self@.backend,
    {
        self.backend.as_ref()
    }

    /// The response for the caller, once it is built.
    pub fn outbound_response(&self) -> (response: Option<&ResponseDescriptor>)
        ensures
            response_at(response) == self@.response,
    {
        match self.commit.outcome() {
            Some(Outcome::Response(r)) => Some(r),
            _ => self.response.as_ref(),
        }
    }

    /// The transfer of the request body.
    pub fn request_relay(&self) -> (relay: &BodyRelay)
        ensures
            relay@ == self@.request_relay,
    {
        &self.request_relay
    }

    /// The transfer of the response body.
    pub fn response_relay(&self) -> (relay: &BodyRelay)
        ensures
            relay@ == self@.response_relay,
    {
        &self.response_relay
    }

    /// The bytes that the next write has to offer to its sink. Empty unless
    /// the session waits for a write.
    pub fn pending_bytes(&self) -> (bytes: &[u8])
        ensures
            bytes@ == self@.pending_bytes(),
    {
        proof {
            use_type_invariant(self);
        }
        match self.phase {
            SessionPhase::RelayingRequest => self.request_relay.pending(),
            SessionPhase::RelayingResponse => self.response_relay.pending(),
            _ => {
                let nothing: &[u8] = &[];
                assert(nothing@ =~= Seq::<u8>::empty());
                nothing
            },
        }
    }

    /// The committed outcome, if the session is closed.
    pub fn outcome(&self) -> (outcome: Option<&Outcome>)
        ensures
            outcome_at(outcome) == self@.outcome,
    {
        self.commit.outcome()
    }

    /// Gives the committed outcome up, if the session is closed.
    pub fn into_outcome(self) -> (outcome: Option<Outcome>)
        ensures
            outcome_of(outcome) == self@.outcome,
    {
        self.commit.into_outcome()
    }

    /// Whether the session takes `event` now: it answers the operation that
    /// the session waits for, or it is the result of a dispatch and the
    /// request can be submitted.
    pub fn accepts(&self, event: &SessionEvent) -> (accepted: bool)
        ensures
            accepted == self@.accepts(event@),
    {
        match self.phase {
            SessionPhase::AcquiringRequestBody | SessionPhase::AcquiringResponseBody => match event {
                SessionEvent::BodyAcquired => true,
                SessionEvent::BodyUnavailable => true,
                _ => false,
            },
            SessionPhase::OpeningRequestSink | SessionPhase::OpeningResponseSink => match event {
                SessionEvent::SinkOpened => true,
                SessionEvent::SinkUnavailable => true,
                _ => false,
            },
            SessionPhase::RelayingRequest => match event {
                SessionEvent::Relay(r) => self.request_relay.accepts(r),
                SessionEvent::Dispatched(_) => self.exchange.is_none(),
                SessionEvent::DispatchFailed => self.exchange.is_none(),
                _ => false,
            },
            SessionPhase::RelayingResponse => match event {
                SessionEvent::Relay(r) => self.response_relay.accepts(r),
                _ => false,
            },
            SessionPhase::Dispatching => match event {
                SessionEvent::Dispatched(_) => true,
                SessionEvent::DispatchFailed => true,
                _ => false,
            },
            SessionPhase::AwaitingCompletion => match event {
                SessionEvent::Signaled => true,
                _ => false,
            },
            SessionPhase::RetrievingOutcome => match event {
                SessionEvent::Responded(_) => true,
                SessionEvent::Broken(_) => true,
                _ => false,
            },
            SessionPhase::Closed => false,
        }
    }

    /// Commits `error` in place of a response and closes the session.
    fn failed(self, error: SessionError) -> (next: ExchangeSession)
        requires
            self@.phase != SessionPhase::Closed,
            self@.failed(error).inv(),
        ensures
            next@ == self@.failed(error),
    {
        proof {
            use_type_invariant(&self);
        }
        let ExchangeSession {
            phase,
            inbound,
            outbound,
            request_relay,
            exchange,
            backend,
            response,
            response_relay,
            commit,
        } = self;
        let mut commit = commit;
        let _ = commit.commit(Outcome::Failure(error));
        ExchangeSession {
            phase: SessionPhase::Closed,
            inbound,
            outbound,
            request_relay,
            exchange,
            backend,
            response,
            response_relay,
            commit,
        }
    }

    /// The session with its phase replaced.
    fn moved_to(self, phase: SessionPhase) -> (next: ExchangeSession)
        requires
            (SessionModel { phase, ..self@ }).inv(),
        ensures
            next@ == (SessionModel { phase, ..self@ }),
    {
        ExchangeSession { phase, ..self }
    }

    fn relayed(self, event: RelayEvent) -> (next: ExchangeSession)
        requires
            self@.phase == SessionPhase::RelayingRequest || self@.phase
                == SessionPhase::RelayingResponse,
            self@.accepts(SessionInput::Relay(event@)),
        ensures
            next@ == self@.step(SessionInput::Relay(event@)),
    {
        proof {
            use_type_invariant(&self);
            self@.lemma_step_inv(SessionInput::Relay(event@));
        }
        let ExchangeSession {
            phase,
            inbound,
            outbound,
            request_relay,
            exchange,
            backend,
            response,
            response_relay,
            commit,
        } = self;
        let mut request_relay = request_relay;
        let mut response_relay = response_relay;
        let mut response = response;
        let mut commit = commit;
        let request_leg = match phase {
            SessionPhase::RelayingRequest => true,
            _ => false,
        };
        let now = if request_leg {
            let _ = request_relay.advance(event);
            request_relay.phase()
        } else {
            let _ = response_relay.advance(event);
            response_relay.phase()
        };
        let phase = match now {
            RelayPhase::Finished => {
                if request_leg {
                    if exchange.is_some() {
                        SessionPhase::AwaitingCompletion
                    } else {
                        SessionPhase::Dispatching
                    }
                } else {
                    match response.take() {
                        Some(r) => {
                            let _ = commit.commit(Outcome::Response(r));
                        },
                        None => {},
                    }
                    SessionPhase::Closed
                }
            },
            RelayPhase::Failed(fault) => {
                let leg = if request_leg {
                    RelayLeg::Request
                } else {
                    RelayLeg::Response
                };
                let _ = commit.commit(
                    Outcome::Failure(SessionError::Relay(RelayError { leg, fault })),
                );
                SessionPhase::Closed
            },
            _ => phase,
        };
        ExchangeSession {
            phase,
            inbound,
            outbound,
            request_relay,
            exchange,
            backend,
            response,
            response_relay,
            commit,
        }
    }

    fn stepped(self, event: SessionEvent) -> (next: ExchangeSession)
        requires
            self@.accepts(event@),
        ensures
            next@ == self@.step(event@),
    {
        proof {
            use_type_invariant(&self);
            self@.lemma_step_inv(event@);
        }
        match event {
            SessionEvent::BodyAcquired => match self.phase {
                SessionPhase::AcquiringRequestBody => {
                    let outbound = RequestAdapter::adapt(&self.inbound);
                    ExchangeSession {
                        phase: SessionPhase::OpeningRequestSink,
                        outbound: Some(outbound),
                        ..self
                    }
                },
                _ => {
                    let response = match &self.backend {
                        Some(backend) => Some(ResponseAdapter::adapt(backend)),
                        None => None,
                    };
                    ExchangeSession {
                        phase: SessionPhase::OpeningResponseSink,
                        response,
                        ..self
                    }
                },
            },
            SessionEvent::BodyUnavailable => match self.phase {
                SessionPhase::AcquiringRequestBody => self.failed(
                    SessionError::Adapter(AdapterError::RequestBodyUnavailable),
                ),
                _ => self.failed(SessionError::Adapter(AdapterError::ResponseBodyUnavailable)),
            },
            SessionEvent::SinkOpened => match self.phase {
                SessionPhase::OpeningRequestSink => self.moved_to(SessionPhase::RelayingRequest),
                _ => self.moved_to(SessionPhase::RelayingResponse),
            },
            SessionEvent::SinkUnavailable => match self.phase {
                SessionPhase::OpeningRequestSink => self.failed(
                    SessionError::Adapter(AdapterError::RequestSinkUnavailable),
                ),
                _ => self.failed(SessionError::Adapter(AdapterError::ResponseSinkUnavailable)),
            },
            SessionEvent::Relay(relay_event) => self.relayed(relay_event),
            SessionEvent::Dispatched(handle) => {
                let phase = match self.phase {
                    SessionPhase::RelayingRequest => SessionPhase::RelayingRequest,
                    _ => SessionPhase::AwaitingCompletion,
                };
                ExchangeSession {
                    phase,
                    exchange: Some(PendingExchange::submitted(handle)),
                    ..self
                }
            },
            SessionEvent::DispatchFailed => self.failed(
                SessionError::Dispatch(DispatchError::Refused),
            ),
            SessionEvent::Signaled => {
                let ExchangeSession {
                    phase,
                    inbound,
                    outbound,
                    request_relay,
                    exchange,
                    backend,
                    response,
                    response_relay,
                    commit,
                } = self;
                let mut exchange = exchange;
                match &mut exchange {
                    Some(x) => {
                        x.signal();
                    },
                    None => {},
                }
                ExchangeSession {
                    phase: SessionPhase::RetrievingOutcome,
                    inbound,
                    outbound,
                    request_relay,
                    exchange,
                    backend,
                    response,
                    response_relay,
                    commit,
                }
            },
            SessionEvent::Responded(answer) => {
                let ExchangeSession {
                    phase,
                    inbound,
                    outbound,
                    request_relay,
                    exchange,
                    backend,
                    response,
                    response_relay,
                    commit,
                } = self;
                let mut exchange = exchange;
                match &mut exchange {
                    Some(x) => {
                        x.resolve(true);
                    },
                    None => {},
                }
                ExchangeSession {
                    phase: SessionPhase::AcquiringResponseBody,
                    inbound,
                    outbound,
                    request_relay,
                    exchange,
                    backend: Some(answer),
                    response,
                    response_relay,
                    commit,
                }
            },
            SessionEvent::Broken(error) => {
                let ExchangeSession {
                    phase,
                    inbound,
                    outbound,
                    request_relay,
                    exchange,
                    backend,
                    response,
                    response_relay,
                    commit,
                } = self;
                let mut exchange = exchange;
                match &mut exchange {
                    Some(x) => {
                        x.resolve(false);
                    },
                    None => {},
                }
                let mut commit = commit;
                let _ = commit.commit(Outcome::Failure(SessionError::Exchange(error)));
                ExchangeSession {
                    phase: SessionPhase::Closed,
                    inbound,
                    outbound,
                    request_relay,
                    exchange,
                    backend,
                    response,
                    response_relay,
                    commit,
                }
            },
        }
    }

    /// Takes the result of an operation and returns the operation that the
    /// session waits for now. An event that the session does not take is
    /// refused, and so is every event once the session is closed: the session
    /// then stays as it was.
    pub fn advance(&mut self, event: SessionEvent) -> (result: Result<
        SessionAction,
        ProtocolError,
    >)
        ensures
            final(self)@ == old(self)@.step(event@),
            final(self)@.inv(),
            old(self)@.accepts(event@) ==> result == Ok::<SessionAction, ProtocolError>(
                final(self)@.action(),
            ),
            !old(self)@.accepts(event@) ==> result == Err::<SessionAction, ProtocolError>(
                if old(self)@.phase == SessionPhase::Closed {
                    ProtocolError::SessionClosed
                } else {
                    ProtocolError::UnexpectedEvent
                },
            ),
    {
        proof {
            use_type_invariant(&*self);
        }
        if !self.accepts(&event) {
            return Err(
                match self.phase {
                    SessionPhase::Closed => ProtocolError::SessionClosed,
                    _ => ProtocolError::UnexpectedEvent,
                },
            );
        }
        // The step consumes the session; a blank one stands in for it meanwhile.
        let blank = RequestDescriptor::new(
            Method::Get,
            None,
            None,
            None,
            HeaderCollection::new(),
        );
        let mut taken = ExchangeSession::new(blank);
        core::mem::swap(self, &mut taken);
        let next = taken.stepped(event);
        proof {
            use_type_invariant(&next);
        }
        let action = next.action();
        *self = next;
        Ok(action)
    }
}

} // verus!
