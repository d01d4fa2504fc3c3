//! What holds of every relay and of every session, whatever the driver
//! reports and in whatever order.

use crate::commit::OutcomeView;
use crate::error::{
    AdapterError, DispatchError, RelayError, RelayFault, RelayLeg, SessionError,
};
use crate::exchange::{ExchangeModel, ExchangeState};
use crate::headers::values_of;
use crate::model::{rank, SessionModel};
use crate::descriptor::RequestView;
use crate::protocol::{SessionAction, SessionInput, SessionPhase};
use crate::relay::{RelayInput, RelayModel, RelayPhase};
use vstd::prelude::*;

verus! {

/// The bytes of all chunks among `inputs`, in the order of the inputs.
pub open spec fn offered(inputs: Seq<RelayInput>) -> Seq<u8>
    decreases inputs.len(),
{
    if inputs.len() == 0 {
        Seq::empty()
    } else {
        offered(inputs.drop_last()) + match inputs.last() {
            RelayInput::Chunk { bytes, .. } => bytes,
            _ => Seq::empty(),
        }
    }
}

/// Whether each of `inputs`, at its turn, answers the operation that the
/// relay is then waiting for.
pub open spec fn abides(relay: RelayModel, inputs: Seq<RelayInput>) -> bool
    decreases inputs.len(),
{
    inputs.len() == 0 || (abides(relay, inputs.drop_last()) && relay.run(
        inputs.drop_last(),
    ).accepts(inputs.last()))
}

/// A relay has consumed what it had consumed before, followed by the chunks
/// that it was given since.
pub proof fn lemma_consumed_is_offered(relay: RelayModel, inputs: Seq<RelayInput>)
    requires
        abides(relay, inputs),
    ensures
        relay.run(inputs).consumed == relay.consumed + offered(inputs),
    decreases inputs.len(),
{
    if inputs.len() == 0 {
        assert(relay.consumed + offered(inputs) =~= relay.consumed);
    } else {
        let front = inputs.drop_last();
        lemma_consumed_is_offered(relay, front);
        assert(relay.run(inputs).consumed =~= relay.run(front).consumed + match inputs.last() {
            RelayInput::Chunk { bytes, .. } => bytes,
            _ => Seq::empty(),
        });
        assert(relay.run(inputs).consumed =~= relay.consumed + offered(inputs));
    }
}

/// A relay is byte-exact and keeps the order: when it has finished, its sink
/// has accepted the bytes of all chunks that its source handed over, each
/// once and in the order in which they came, and the source has ended. This
/// holds of an empty source and of one that comes in any number of chunks,
/// whatever part of each chunk the sink accepts at a time.
pub proof fn law_relay_is_byte_exact(inputs: Seq<RelayInput>)
    requires
        abides(RelayModel::init(), inputs),
        RelayModel::init().run(inputs).phase == RelayPhase::Finished,
    ensures
        RelayModel::init().run(inputs).delivered == offered(inputs),
        RelayModel::init().run(inputs).pending.len() == 0,
        RelayModel::init().run(inputs).source_ended,
{
    let start = RelayModel::init();
    let end = start.run(inputs);
    RelayModel::lemma_init_inv();
    start.lemma_run_inv(inputs);
    lemma_consumed_is_offered(start, inputs);
    assert(end.delivered =~= end.delivered + end.pending);
    assert(start.consumed + offered(inputs) =~= offered(inputs));
}

/// At every moment of a transfer, finished or not, the sink has accepted a
/// prefix of what the source handed over, and what is pending is the rest.
pub proof fn law_relay_never_reorders(inputs: Seq<RelayInput>)
    requires
        abides(RelayModel::init(), inputs),
    ensures
        RelayModel::init().run(inputs).delivered + RelayModel::init().run(inputs).pending
            == offered(inputs),
{
    let start = RelayModel::init();
    RelayModel::lemma_init_inv();
    start.lemma_run_inv(inputs);
    lemma_consumed_is_offered(start, inputs);
    assert(start.consumed + offered(inputs) =~= offered(inputs));
}

/// A relay that has failed or finished takes no further input.
pub proof fn law_relay_end_is_final(relay: RelayModel, inputs: Seq<RelayInput>)
    requires
        !relay.active(),
    ensures
        relay.run(inputs) == relay,
    decreases inputs.len(),
{
    if inputs.len() > 0 {
        law_relay_end_is_final(relay, inputs.drop_last());
    }
}

/// Every session that a driver can bring about is a valid one: whatever is
/// reported to a session, and in whatever order, its invariant holds. The
/// laws below that ask for the invariant therefore hold of every session.
pub proof fn law_every_session_is_valid(
    inbound: RequestView,
    inputs: Seq<SessionInput>,
)
    ensures
        SessionModel::init(inbound).run(inputs).inv(),
{
    SessionModel::lemma_init_inv(inbound);
    SessionModel::init(inbound).lemma_run_inv(inputs);
}

/// The inbound request of a session is never changed.
pub proof fn law_inbound_request_is_kept(session: SessionModel, inputs: Seq<SessionInput>)
    ensures
        session.run(inputs).inbound == session.inbound,
    decreases inputs.len(),
{
    if inputs.len() > 0 {
        law_inbound_request_is_kept(session, inputs.drop_last());
    }
}

/// The request that a session builds for the backend is the inbound request:
/// same method, path and query, scheme, authority and header entries, and so
/// the same values in the same order under every header name.
pub proof fn law_outbound_request_is_inbound(session: SessionModel, name: Seq<char>)
    requires
        session.inv(),
        session.outbound is Some,
    ensures
        session.outbound->0 == session.inbound,
        values_of(session.outbound->0.headers, name) == values_of(session.inbound.headers, name),
{
}

/// The response that a session builds for the caller is the backend's
/// response: same status and header entries, and so the same values in the
/// same order under every header name.
pub proof fn law_outbound_response_is_backend(session: SessionModel, name: Seq<char>)
    requires
        session.inv(),
        session.response is Some,
    ensures
        session.backend is Some,
        session.response->0 == session.backend->0,
        values_of(session.response->0.headers, name) == values_of(
            session.backend->0.headers,
            name,
        ),
{
}

/// A session that has committed a response has passed the whole exchange
/// through: the outbound request was the inbound one, both transfers ran to
/// the end of their source and delivered every byte, the exchange resolved
/// with a response, and the committed response is the backend's.
pub proof fn law_committed_response_is_faithful(session: SessionModel)
    requires
        session.inv(),
        session.outcome is Some,
        session.outcome->0 is Response,
    ensures
        session.outbound == Some(session.inbound),
        session.request_relay.phase == RelayPhase::Finished,
        session.request_relay.delivered == session.request_relay.consumed,
        session.exchange is Some,
        session.exchange->0.state == ExchangeState::ResolvedWithResponse,
        session.backend == Some(session.outcome->0->Response_0),
        session.response_relay.phase == RelayPhase::Finished,
        session.response_relay.delivered == session.response_relay.consumed,
{
    assert(session.request_relay.delivered =~= session.request_relay.delivered
        + session.request_relay.pending);
    assert(session.response_relay.delivered =~= session.response_relay.delivered
        + session.response_relay.pending);
}

/// A session goes through its phases in their order and never back. An
/// accepted input leaves the phase as it is only while a body is relayed. It
/// leads to the next phase or to the end; the one phase that can be left out
/// is the dispatch, where the request was submitted while its body was still
/// being relayed.
pub proof fn law_phases_in_order(session: SessionModel, input: SessionInput)
    requires
        session.inv(),
        session.accepts(input),
    ensures
        rank(session.step(input).phase) >= rank(session.phase),
        session.step(input).phase == session.phase ==> session.phase
            == SessionPhase::RelayingRequest || session.phase == SessionPhase::RelayingResponse,
        session.step(input).phase == SessionPhase::Closed || rank(session.step(input).phase)
            <= rank(session.phase) + 1 || (session.phase == SessionPhase::RelayingRequest
            && session.exchange is Some && session.step(input).phase
            == SessionPhase::AwaitingCompletion),
{
}

/// Whether `input` reports that nothing has happened: a read that returned
/// no bytes and no end, or a write of which the sink accepted nothing.
pub open spec fn idle(input: SessionInput) -> bool {
    match input {
        SessionInput::Relay(RelayInput::Chunk { bytes, end }) => bytes.len() == 0 && !end,
        SessionInput::Relay(RelayInput::Written { accepted }) => accepted == 0,
        _ => false,
    }
}

/// How much a session has done: the rank of its phase, one for a submitted
/// request, and one for every byte that a relay has taken from its source or
/// handed to its sink.
pub open spec fn done(session: SessionModel) -> int {
    rank(session.phase) + (if session.exchange is Some {
        1int
    } else {
        0int
    }) + session.request_relay.consumed.len() + session.request_relay.delivered.len()
        + session.response_relay.consumed.len() + session.response_relay.delivered.len()
}

/// A session does not stall: every input that it takes brings it on, but for
/// one that reports that nothing has happened, and that one changes nothing.
/// Bodies of finite length are therefore relayed in a bounded number of
/// reads and writes that move at least one byte.
pub proof fn law_every_step_moves_on(session: SessionModel, input: SessionInput)
    requires
        session.inv(),
        session.accepts(input),
    ensures
        !idle(input) ==> done(session.step(input)) > done(session),
        idle(input) ==> session.step(input) == session,
{
    match input {
        SessionInput::Relay(RelayInput::Chunk { bytes, end }) => {
            if bytes.len() == 0 && !end {
                assert(session.request_relay.consumed + bytes =~= session.request_relay.consumed);
                assert(session.response_relay.consumed + bytes
                    =~= session.response_relay.consumed);
                assert(session.request_relay.pending =~= bytes);
                assert(session.response_relay.pending =~= bytes);
            }
        },
        SessionInput::Relay(RelayInput::Written { accepted }) => {
            if accepted == 0 {
                assert(session.request_relay.pending.skip(0) =~= session.request_relay.pending);
                assert(session.response_relay.pending.skip(0)
                    =~= session.response_relay.pending);
                assert(session.request_relay.delivered + session.request_relay.pending.take(0)
                    =~= session.request_relay.delivered);
                assert(session.response_relay.delivered + session.response_relay.pending.take(0)
                    =~= session.response_relay.delivered);
            }
        },
        _ => {},
    }
}

/// The sink for the body of the outbound request is attached before the
/// request is dispatched: a session takes the result of a dispatch only once
/// it has built the outbound request and its sink has been opened, and only
/// if it has no exchange yet.
pub proof fn law_dispatch_needs_attached_sink(session: SessionModel, input: SessionInput)
    requires
        session.inv(),
        input is Dispatched || input is DispatchFailed,
    ensures
        session.accepts(input) == session.may_dispatch(),
        session.may_dispatch() ==> session.outbound == Some(session.inbound) && rank(
            session.phase,
        ) >= rank(SessionPhase::RelayingRequest) && session.exchange is None,
{
}

/// A dispatch does not wait for the request relay: from the moment the sink
/// is attached, the request can be submitted whatever the relay has moved so
/// far. The relay is left as it is and goes on; the wait for completion
/// starts when it has finished.
pub proof fn law_dispatch_does_not_wait_for_relay(session: SessionModel, handle: u32)
    requires
        session.inv(),
        session.phase == SessionPhase::RelayingRequest,
        session.exchange is None,
    ensures
        session.accepts(SessionInput::Dispatched(handle)),
        session.step(SessionInput::Dispatched(handle)) == (SessionModel {
            exchange: Some(ExchangeModel { handle, state: ExchangeState::Pending }),
            ..session
        }),
        session.step(SessionInput::Dispatched(handle)).action() == session.action(),
{
}

/// Left to itself, a session asks for the dispatch when the request relay has
/// finished: a session that waits for the dispatch has relayed the whole
/// request body and has no exchange yet.
pub proof fn law_dispatch_is_asked_after_request_relay(session: SessionModel)
    requires
        session.inv(),
        session.action() == SessionAction::Dispatch,
    ensures
        session.outbound == Some(session.inbound),
        session.request_relay.phase == RelayPhase::Finished,
        session.request_relay.delivered == session.request_relay.consumed,
        session.exchange is None,
        session.backend is None,
{
    assert(session.request_relay.delivered =~= session.request_relay.delivered
        + session.request_relay.pending);
}

/// The wait for completion starts only when the whole request body has been
/// relayed and the request has been submitted.
pub proof fn law_wait_follows_relay_and_dispatch(session: SessionModel)
    requires
        session.inv(),
        session.action() is AwaitCompletion,
    ensures
        session.request_relay.phase == RelayPhase::Finished,
        session.request_relay.delivered == session.request_relay.consumed,
        session.exchange is Some,
        session.exchange->0.state == ExchangeState::Pending,
        session.action() == SessionAction::AwaitCompletion(session.exchange->0.handle),
{
    assert(session.request_relay.delivered =~= session.request_relay.delivered
        + session.request_relay.pending);
}

/// The outcome of an exchange is retrieved only after its readiness signal:
/// a session that asks for the retrieval holds an exchange that is ready and
/// unresolved, and one that asks to wait holds one that is pending.
pub proof fn law_retrieval_follows_signal(session: SessionModel)
    requires
        session.inv(),
    ensures
        session.action() is RetrieveOutcome ==> session.exchange is Some
            && session.exchange->0.state == ExchangeState::Ready,
        session.action() is AwaitCompletion ==> session.exchange is Some
            && session.exchange->0.state == ExchangeState::Pending,
{
}

/// A session has one exchange: once the request is submitted, the exchange
/// keeps its handle to the end, and its state goes from pending to ready and
/// from ready to resolved, never back and never twice.
pub proof fn law_one_exchange_per_session(session: SessionModel, input: SessionInput)
    requires
        session.inv(),
        session.exchange is Some,
    ensures
        session.step(input).exchange is Some,
        session.step(input).exchange->0.handle == session.exchange->0.handle,
        session.step(input).exchange->0.state != session.exchange->0.state ==> {
            ||| session.exchange->0.state == ExchangeState::Pending && session.step(
                input,
            ).exchange->0.state == ExchangeState::Ready && input is Signaled
            ||| session.exchange->0.state == ExchangeState::Ready && session.step(
                input,
            ).exchange->0.state == ExchangeState::ResolvedWithResponse && input is Responded
            ||| session.exchange->0.state == ExchangeState::Ready && session.step(
                input,
            ).exchange->0.state == ExchangeState::ResolvedWithError && input is Broken
        },
{
}

/// The number of steps of a run at which the committed outcome changes.
pub open spec fn commits(session: SessionModel, inputs: Seq<SessionInput>) -> nat
    decreases inputs.len(),
{
    if inputs.len() == 0 {
        0
    } else {
        let before = session.run(inputs.drop_last());
        commits(session, inputs.drop_last()) + if before.step(inputs.last()).outcome
            != before.outcome {
            1nat
        } else {
            0nat
        }
    }
}

/// A closed session takes no further input: whatever the driver reports, the
/// session and its committed outcome stay as they are.
pub proof fn law_closed_is_final(session: SessionModel, inputs: Seq<SessionInput>)
    requires
        session.phase == SessionPhase::Closed,
    ensures
        session.run(inputs) == session,
        commits(session, inputs) == 0,
    decreases inputs.len(),
{
    if inputs.len() > 0 {
        law_closed_is_final(session, inputs.drop_last());
    }
}

/// A session commits exactly once. Over any run from the start, the outcome
/// changes at one step if the run ends closed and at none if it does not; a
/// closed session holds one outcome, a response or a failure, and an open one
/// holds none.
pub proof fn law_commit_exactly_once(inbound: RequestView, inputs: Seq<SessionInput>)
    ensures
        commits(SessionModel::init(inbound), inputs) == if SessionModel::init(inbound).run(
            inputs,
        ).phase == SessionPhase::Closed {
            1nat
        } else {
            0nat
        },
        (SessionModel::init(inbound).run(inputs).outcome is Some) == (SessionModel::init(
            inbound,
        ).run(inputs).phase == SessionPhase::Closed),
    decreases inputs.len(),
{
    let start = SessionModel::init(inbound);
    SessionModel::lemma_init_inv(inbound);
    start.lemma_run_inv(inputs);
    if inputs.len() > 0 {
        let front = inputs.drop_last();
        law_commit_exactly_once(inbound, front);
        start.lemma_run_inv(front);
        let before = start.run(front);
        before.lemma_step_inv(inputs.last());
    }
}

/// The failure that `input` stands for when it reaches `session`, if it
/// stands for one: an unavailable body or sink, a refused dispatch, an
/// exchange that resolved with an error, a failed read or write on either
/// leg, or a sink that claims more than it was offered.
pub open spec fn injected(session: SessionModel, input: SessionInput) -> Option<SessionError> {
    if !session.accepts(input) {
        None
    } else {
        match (session.phase, input) {
            (SessionPhase::AcquiringRequestBody, SessionInput::BodyUnavailable) => Some(
                SessionError::Adapter(AdapterError::RequestBodyUnavailable),
            ),
            (SessionPhase::OpeningRequestSink, SessionInput::SinkUnavailable) => Some(
                SessionError::Adapter(AdapterError::RequestSinkUnavailable),
            ),
            (SessionPhase::RelayingRequest, SessionInput::Relay(r)) => match relay_fault(
                session.request_relay,
                r,
            ) {
                Some(fault) => Some(
                    SessionError::Relay(RelayError { leg: RelayLeg::Request, fault }),
                ),
                None => None,
            },
            (SessionPhase::RelayingRequest, SessionInput::DispatchFailed)
            | (SessionPhase::Dispatching, SessionInput::DispatchFailed) => Some(
                SessionError::Dispatch(DispatchError::Refused),
            ),
            (SessionPhase::RetrievingOutcome, SessionInput::Broken(error)) => Some(
                SessionError::Exchange(error),
            ),
            (SessionPhase::AcquiringResponseBody, SessionInput::BodyUnavailable) => Some(
                SessionError::Adapter(AdapterError::ResponseBodyUnavailable),
            ),
            (SessionPhase::OpeningResponseSink, SessionInput::SinkUnavailable) => Some(
                SessionError::Adapter(AdapterError::ResponseSinkUnavailable),
            ),
            (SessionPhase::RelayingResponse, SessionInput::Relay(r)) => match relay_fault(
                session.response_relay,
                r,
            ) {
                Some(fault) => Some(
                    SessionError::Relay(RelayError { leg: RelayLeg::Response, fault }),
                ),
                None => None,
            },
            _ => None,
        }
    }
}

/// The fault that `input` stands for when it reaches `relay`, if any.
pub open spec fn relay_fault(relay: RelayModel, input: RelayInput) -> Option<RelayFault> {
    match input {
        RelayInput::ReadFailed => Some(RelayFault::Read),
        RelayInput::WriteFailed => Some(RelayFault::Write),
        RelayInput::Written { accepted } => if accepted > relay.pending.len() {
            Some(RelayFault::Overrun)
        } else {
            None
        },
        RelayInput::Chunk { .. } => None,
    }
}

/// A failure at any step closes the session at once with that failure
/// committed: the session then waits for nothing but the delivery, holds no
/// response as its outcome, and has built nothing that a later step would
/// have built. And a session fails in no other way: an accepted input that
/// stands for no failure leaves it open or commits a response.
pub proof fn law_failure_is_committed(session: SessionModel, input: SessionInput)
    requires
        session.inv(),
    ensures
        injected(session, input) matches Some(error) ==> {
            let next = session.step(input);
            &&& next.phase == SessionPhase::Closed
            &&& next.action() == SessionAction::Deliver
            &&& next.outcome == Some(OutcomeView::Failure(error))
            &&& next.outbound == session.outbound
            &&& next.backend == session.backend
            &&& next.response == session.response
        },
        injected(session, input) is None ==> !(session.step(input).outcome is Some
            && session.step(input).outcome->0 is Failure) || session.phase
            == SessionPhase::Closed,
{
}

/// A session whose dispatch failed has never had an exchange, a backend
/// response or a response for the caller.
pub proof fn law_failed_dispatch_builds_no_response(session: SessionModel)
    requires
        session.inv(),
        session.outcome matches Some(OutcomeView::Failure(SessionError::Dispatch(_))),
    ensures
        session.exchange is None,
        session.backend is None,
        session.response is None,
        session.response_relay == RelayModel::init(),
{
}

/// Two sessions and the inputs of both, interleaved: each entry of a schedule
/// names the session it is for (`true` for the second) and the input.
pub open spec fn run_both(
    first: SessionModel,
    second: SessionModel,
    schedule: Seq<(bool, SessionInput)>,
) -> (SessionModel, SessionModel)
    decreases schedule.len(),
{
    if schedule.len() == 0 {
        (first, second)
    } else {
        let before = run_both(first, second, schedule.drop_last());
        if schedule.last().0 {
            (before.0, before.1.step(schedule.last().1))
        } else {
            (before.0.step(schedule.last().1), before.1)
        }
    }
}

/// The inputs of a schedule that are for one of the two sessions, in order.
pub open spec fn lane(schedule: Seq<(bool, SessionInput)>, second: bool) -> Seq<SessionInput>
    decreases schedule.len(),
{
    if schedule.len() == 0 {
        Seq::empty()
    } else if schedule.last().0 == second {
        lane(schedule.drop_last(), second).push(schedule.last().1)
    } else {
        lane(schedule.drop_last(), second)
    }
}

/// Sessions that run at the same time do not touch one another: however the
/// inputs of two sessions are interleaved, each session ends as it would have
/// ended alone on its own inputs.
pub proof fn law_sessions_are_independent(
    first: SessionModel,
    second: SessionModel,
    schedule: Seq<(bool, SessionInput)>,
)
    ensures
        run_both(first, second, schedule) == (
            first.run(lane(schedule, false)),
            second.run(lane(schedule, true)),
        ),
    decreases schedule.len(),
{
    if schedule.len() > 0 {
        let front = schedule.drop_last();
        law_sessions_are_independent(first, second, front);
        let input = schedule.last().1;
        if schedule.last().0 {
            assert(lane(schedule, true).drop_last() == lane(front, true));
        } else {
            assert(lane(schedule, false).drop_last() == lane(front, false));
        }
    }
}

} // verus!
