//! A session as a mathematical value, and its transition function.
//!
//! The executable session in [`crate::session`] refines this model step by
//! step; what holds of every session is proved here, of the model.

use crate::commit::OutcomeView;
use crate::descriptor::{RequestView, ResponseView};
use crate::error::{
    AdapterError, DispatchError, RelayError, RelayLeg, SessionError,
};
use crate::exchange::{ExchangeModel, ExchangeState};
use crate::protocol::{SessionAction, SessionInput, SessionPhase};
use crate::relay::{RelayModel, RelayPhase};
use vstd::prelude::*;

verus! {

/// One session: what it was given, what it has built, and how far it has come.
pub struct SessionModel {
    pub phase: SessionPhase,
    /// The request as it came in.
    pub inbound: RequestView,
    /// The request for the backend, once it is built.
    pub outbound: Option<RequestView>,
    /// The transfer of the request body.
    pub request_relay: RelayModel,
    /// The exchange with the backend, once it is submitted.
    pub exchange: Option<ExchangeModel>,
    /// The backend's response, once the exchange has resolved with one.
    pub backend: Option<ResponseView>,
    /// The response for the caller, once it is built.
    pub response: Option<ResponseView>,
    /// The transfer of the response body.
    pub response_relay: RelayModel,
    /// What the session has committed, if it has.
    pub outcome: Option<OutcomeView>,
}

/// The position of a phase in the fixed order of a session.
pub open spec fn rank(phase: SessionPhase) -> int {
    match phase {
        SessionPhase::AcquiringRequestBody => 0,
        SessionPhase::OpeningRequestSink => 1,
        SessionPhase::RelayingRequest => 2,
        SessionPhase::Dispatching => 3,
        SessionPhase::AwaitingCompletion => 4,
        SessionPhase::RetrievingOutcome => 5,
        SessionPhase::AcquiringResponseBody => 6,
        SessionPhase::OpeningResponseSink => 7,
        SessionPhase::RelayingResponse => 8,
        SessionPhase::Closed => 9,
    }
}

/// The rank of the phase in which this error arises.
pub open spec fn origin(error: SessionError) -> int {
    match error {
        SessionError::Adapter(AdapterError::RequestBodyUnavailable) => 0,
        SessionError::Adapter(AdapterError::RequestSinkUnavailable) => 1,
        SessionError::Relay(RelayError { leg: RelayLeg::Request, .. }) => 2,
        SessionError::Dispatch(_) => 3,
        SessionError::Exchange(_) => 5,
        SessionError::Adapter(AdapterError::ResponseBodyUnavailable) => 6,
        SessionError::Adapter(AdapterError::ResponseSinkUnavailable) => 7,
        SessionError::Relay(RelayError { leg: RelayLeg::Response, .. }) => 8,
    }
}

impl SessionModel {
    /// The session for `inbound`, before anything has happened.
    pub open spec fn init(inbound: RequestView) -> SessionModel {
        SessionModel {
            phase: SessionPhase::AcquiringRequestBody,
            inbound,
            outbound: None,
            request_relay: RelayModel::init(),
            exchange: None,
            backend: None,
            response: None,
            response_relay: RelayModel::init(),
            outcome: None,
        }
    }

    /// Whether the session takes `input` now: it answers the operation that
    /// the session is waiting for, or it is the result of a dispatch that was
    /// made while the request body was still being relayed.
    pub open spec fn accepts(self, input: SessionInput) -> bool {
        match self.phase {
            SessionPhase::AcquiringRequestBody | SessionPhase::AcquiringResponseBody => input
                is BodyAcquired || input is BodyUnavailable,
            SessionPhase::OpeningRequestSink | SessionPhase::OpeningResponseSink => input
                is SinkOpened || input is SinkUnavailable,
            SessionPhase::RelayingRequest => match input {
                SessionInput::Relay(r) => self.request_relay.accepts(r),
                SessionInput::Dispatched(_) | SessionInput::DispatchFailed => self.may_dispatch(),
                _ => false,
            },
            SessionPhase::RelayingResponse => input matches SessionInput::Relay(r)
                && self.response_relay.accepts(r),
            SessionPhase::Dispatching => input is Dispatched || input is DispatchFailed,
            SessionPhase::AwaitingCompletion => input is Signaled,
            SessionPhase::RetrievingOutcome => input is Responded || input is Broken,
            SessionPhase::Closed => false,
        }
    }

    /// Whether the outbound request can be submitted now: the sink for its
    /// body is attached, and the request has not been submitted before. The
    /// request relay need not have finished.
    pub open spec fn may_dispatch(self) -> bool {
        &&& self.phase == SessionPhase::RelayingRequest || self.phase == SessionPhase::Dispatching
        &&& self.exchange is None
    }

    /// The session closed with `error` committed in place of a response.
    pub open spec fn failed(self, error: SessionError) -> SessionModel {
        SessionModel {
            phase: SessionPhase::Closed,
            outcome: Some(OutcomeView::Failure(error)),
            ..self
        }
    }

    /// The exchange with its state replaced.
    pub open spec fn exchange_in(self, state: ExchangeState) -> Option<ExchangeModel> {
        match self.exchange {
            Some(x) => Some(ExchangeModel { state, ..x }),
            None => None,
        }
    }

    /// The session after `input`. An input that is not accepted changes nothing.
    pub open spec fn step(self, input: SessionInput) -> SessionModel {
        if !self.accepts(input) {
            self
        } else {
            match self.phase {
                SessionPhase::AcquiringRequestBody => if input is BodyAcquired {
                    SessionModel {
                        phase: SessionPhase::OpeningRequestSink,
                        outbound: Some(self.inbound),
                        ..self
                    }
                } else {
                    self.failed(SessionError::Adapter(AdapterError::RequestBodyUnavailable))
                },
                SessionPhase::OpeningRequestSink => if input is SinkOpened {
                    SessionModel { phase: SessionPhase::RelayingRequest, ..self }
                } else {
                    self.failed(SessionError::Adapter(AdapterError::RequestSinkUnavailable))
                },
                SessionPhase::RelayingRequest => match input {
                    SessionInput::Relay(r) => {
                        let relay = self.request_relay.step(r);
                        let moved = SessionModel { request_relay: relay, ..self };
                        match relay.phase {
                            RelayPhase::Finished => SessionModel {
                                phase: if self.exchange is Some {
                                    SessionPhase::AwaitingCompletion
                                } else {
                                    SessionPhase::Dispatching
                                },
                                ..moved
                            },
                            RelayPhase::Failed(fault) => moved.failed(
                                SessionError::Relay(RelayError { leg: RelayLeg::Request, fault }),
                            ),
                            _ => moved,
                        }
                    },
                    SessionInput::Dispatched(handle) => SessionModel {
                        exchange: Some(ExchangeModel { handle, state: ExchangeState::Pending }),
                        ..self
                    },
                    _ => self.failed(SessionError::Dispatch(DispatchError::Refused)),
                },
                SessionPhase::Dispatching => match input {
                    SessionInput::Dispatched(handle) => SessionModel {
                        phase: SessionPhase::AwaitingCompletion,
                        exchange: Some(ExchangeModel { handle, state: ExchangeState::Pending }),
                        ..self
                    },
                    _ => self.failed(SessionError::Dispatch(DispatchError::Refused)),
                },
                SessionPhase::AwaitingCompletion => SessionModel {
                    phase: SessionPhase::RetrievingOutcome,
                    exchange: self.exchange_in(ExchangeState::Ready),
                    ..self
                },
                SessionPhase::RetrievingOutcome => match input {
                    SessionInput::Responded(response) => SessionModel {
                        phase: SessionPhase::AcquiringResponseBody,
                        exchange: self.exchange_in(ExchangeState::ResolvedWithResponse),
                        backend: Some(response),
                        ..self
                    },
                    SessionInput::Broken(error) => SessionModel {
                        exchange: self.exchange_in(ExchangeState::ResolvedWithError),
                        ..self
                    }.failed(SessionError::Exchange(error)),
                    _ => self,
                },
                SessionPhase::AcquiringResponseBody => if input is BodyAcquired {
                    SessionModel {
                        phase: SessionPhase::OpeningResponseSink,
                        response: self.backend,
                        ..self
                    }
                } else {
                    self.failed(SessionError::Adapter(AdapterError::ResponseBodyUnavailable))
                },
                SessionPhase::OpeningResponseSink => if input is SinkOpened {
                    SessionModel { phase: SessionPhase::RelayingResponse, ..self }
                } else {
                    self.failed(SessionError::Adapter(AdapterError::ResponseSinkUnavailable))
                },
                SessionPhase::RelayingResponse => {
                    let relay = self.response_relay.step(input->Relay_0);
                    let moved = SessionModel { response_relay: relay, ..self };
                    match relay.phase {
                        RelayPhase::Finished => SessionModel {
                            phase: SessionPhase::Closed,
                            outcome: match self.response {
                                Some(response) => Some(OutcomeView::Response(response)),
                                None => None,
                            },
                            ..moved
                        },
                        RelayPhase::Failed(fault) => moved.failed(
                            SessionError::Relay(RelayError { leg: RelayLeg::Response, fault }),
                        ),
                        _ => moved,
                    }
                },
                SessionPhase::Closed => self,
            }
        }
    }

    /// The session after a sequence of inputs, taken in order.
    pub open spec fn run(self, inputs: Seq<SessionInput>) -> SessionModel
        decreases inputs.len(),
    {
        if inputs.len() == 0 {
            self
        } else {
            self.run(inputs.drop_last()).step(inputs.last())
        }
    }

    /// The operation that the session waits for.
    pub open spec fn action(self) -> SessionAction {
        match self.phase {
            SessionPhase::AcquiringRequestBody => SessionAction::AcquireRequestBody,
            SessionPhase::OpeningRequestSink => SessionAction::OpenRequestSink,
            SessionPhase::RelayingRequest => if self.request_relay.phase == RelayPhase::Writing {
                SessionAction::Write(RelayLeg::Request)
            } else {
                SessionAction::Read(RelayLeg::Request)
            },
            SessionPhase::Dispatching => SessionAction::Dispatch,
            SessionPhase::AwaitingCompletion => SessionAction::AwaitCompletion(self.handle()),
            SessionPhase::RetrievingOutcome => SessionAction::RetrieveOutcome(self.handle()),
            SessionPhase::AcquiringResponseBody => SessionAction::AcquireResponseBody,
            SessionPhase::OpeningResponseSink => SessionAction::OpenResponseSink,
            SessionPhase::RelayingResponse => if self.response_relay.phase == RelayPhase::Writing {
                SessionAction::Write(RelayLeg::Response)
            } else {
                SessionAction::Read(RelayLeg::Response)
            },
            SessionPhase::Closed => SessionAction::Deliver,
        }
    }

    /// The handle of the exchange; zero before there is one.
    pub open spec fn handle(self) -> u32 {
        match self.exchange {
            Some(x) => x.handle,
            None => 0,
        }
    }

    /// The bytes that the next write has to offer to its sink.
    pub open spec fn pending_bytes(self) -> Seq<u8> {
        match self.phase {
            SessionPhase::RelayingRequest => self.request_relay.pending,
            SessionPhase::RelayingResponse => self.response_relay.pending,
            _ => Seq::empty(),
        }
    }

    /// How far the session has come: the rank of its phase, or, once it is
    /// closed, the rank of the phase in which it failed, or 9 after a response.
    pub open spec fn reached(self) -> int {
        match self.outcome {
            Some(OutcomeView::Failure(error)) => origin(error),
            _ => rank(self.phase),
        }
    }

    /// Whether the session closed on a failure.
    pub open spec fn broke(self) -> bool {
        self.outcome is Some && self.outcome->0 is Failure
    }

    /// What holds of every session.
    pub open spec fn inv(self) -> bool {
        let at = self.reached();
        &&& self.request_relay.inv()
        &&& self.response_relay.inv()
        &&& (self.outcome is Some) == (self.phase == SessionPhase::Closed)
        &&& self.outcome matches Some(OutcomeView::Response(r)) ==> self.response == Some(r)
        &&& self.outbound == if at >= 1 {
            Some(self.inbound)
        } else {
            None
        }
        &&& at < 2 ==> self.request_relay == RelayModel::init()
        &&& at == 2 ==> if self.broke() {
            self.outcome->0->Failure_0 matches SessionError::Relay(e)
                && self.request_relay.phase == RelayPhase::Failed(e.fault)
        } else {
            self.request_relay.active()
        }
        &&& at == 3 ==> if self.broke() {
            self.request_relay.active() || self.request_relay.phase == RelayPhase::Finished
        } else {
            self.request_relay.phase == RelayPhase::Finished
        }
        &&& at >= 4 ==> self.request_relay.phase == RelayPhase::Finished
        &&& at <= 1 || at == 3 ==> self.exchange is None
        &&& at == 2 ==> self.exchange is None || self.exchange->0.state == ExchangeState::Pending
        &&& at >= 4 ==> self.exchange is Some && self.exchange->0.state == if at == 4 {
            ExchangeState::Pending
        } else if at == 5 {
            if self.broke() {
                ExchangeState::ResolvedWithError
            } else {
                ExchangeState::Ready
            }
        } else {
            ExchangeState::ResolvedWithResponse
        }
        &&& (self.backend is Some) == (at >= 6)
        &&& self.response == if at >= 7 {
            self.backend
        } else {
            None
        }
        &&& at < 8 ==> self.response_relay == RelayModel::init()
        &&& at == 8 ==> if self.broke() {
            self.outcome->0->Failure_0 matches SessionError::Relay(e)
                && self.response_relay.phase == RelayPhase::Failed(e.fault)
        } else {
            self.response_relay.active()
        }
        &&& at >= 9 ==> self.response_relay.phase == RelayPhase::Finished
    }

    /// The invariant holds at the start.
    pub proof fn lemma_init_inv(inbound: RequestView)
        ensures
            SessionModel::init(inbound).inv(),
    {
        RelayModel::lemma_init_inv();
    }

    /// Every step keeps the invariant.
    pub proof fn lemma_step_inv(self, input: SessionInput)
        requires
            self.inv(),
        ensures
            self.step(input).inv(),
    {
        match input {
            SessionInput::Relay(r) => {
                self.request_relay.lemma_step_inv(r);
                self.response_relay.lemma_step_inv(r);
            },
            _ => {},
        }
    }

    /// Every run keeps the invariant.
    pub proof fn lemma_run_inv(self, inputs: Seq<SessionInput>)
        requires
            self.inv(),
        ensures
            self.run(inputs).inv(),
        decreases inputs.len(),
    {
        if inputs.len() > 0 {
            self.lemma_run_inv(inputs.drop_last());
            self.run(inputs.drop_last()).lemma_step_inv(inputs.last());
        }
    }
}

} // verus!
