//! The pending exchange: the handle of one outbound request that has been
//! submitted, and the state of the wait for its completion.
//!
//! The wait is cooperative. The driver registers interest in the handle and
//! suspends until the readiness signal fires; only then is the outcome
//! retrieved, and only once. To retrieve before the signal, or twice, is a
//! design violation, which the contracts here rule out.

use vstd::prelude::*;

verus! {

/// How far the wait for one exchange has come.
#[derive(Clone, Copy, Debug, PartialEq, Eq, Structural)]
pub enum ExchangeState {
    /// Submitted; the readiness signal has not fired.
    Pending,
    /// The signal has fired; the outcome has not been retrieved.
    Ready,
    /// The outcome was retrieved, and it was a response.
    ResolvedWithResponse,
    /// The outcome was retrieved, and it was an error.
    ResolvedWithError,
}

/// What a [`PendingExchange`] stands for.
pub struct ExchangeModel {
    pub handle: u32,
    pub state: ExchangeState,
}

/// One outstanding outbound request.
#[derive(Debug, PartialEq, Eq)]
pub struct PendingExchange {
    handle: u32,
    state: ExchangeState,
}

impl View for PendingExchange {
    type V = ExchangeModel;

    closed spec fn view(&self) -> ExchangeModel {
        ExchangeModel { handle: self.handle, state: self.state }
    }
}

/// What an optional exchange stands for.
pub open spec fn exchange_of(exchange: Option<PendingExchange>) -> Option<ExchangeModel> {
    match exchange {
        Some(x) => Some(x@),
        None => None,
    }
}

/// What an optional reference to an exchange stands for.
pub open spec fn exchange_at(exchange: Option<&PendingExchange>) -> Option<ExchangeModel> {
    match exchange {
        Some(x) => Some(x@),
        None => None,
    }
}

impl PendingExchange {
    /// The exchange that a dispatch has just returned under `handle`.
    pub fn submitted(handle: u32) -> (exchange: PendingExchange)
        ensures
            exchange@ == (ExchangeModel { handle, state: ExchangeState::Pending }),
    {
        PendingExchange { handle, state: ExchangeState::Pending }
    }

    /// The handle under which the environment knows the exchange.
    pub fn handle(&self) -> (handle: u32)
        ensures
            handle == self@.handle,
    {
        self.handle
    }

    /// How far the wait has come.
    pub fn state(&self) -> (state: ExchangeState)
        ensures
            state == self@.state,
    {
        self.state
    }

    /// Whether the outcome can be retrieved now.
    pub fn is_ready(&self) -> (ready: bool)
        ensures
            ready == (self@.state == ExchangeState::Ready),
    {
        match self.state {
            ExchangeState::Ready => true,
            _ => false,
        }
    }

    /// Whether the outcome has been retrieved.
    pub fn is_resolved(&self) -> (resolved: bool)
        ensures
            resolved == (self@.state == ExchangeState::ResolvedWithResponse || self@.state
                == ExchangeState::ResolvedWithError),
    {
        match self.state {
            ExchangeState::ResolvedWithResponse => true,
            ExchangeState::ResolvedWithError => true,
            _ => false,
        }
    }

    /// Records that the readiness signal has fired.
    pub fn signal(&mut self)
        requires
            old(self)@.state == ExchangeState::Pending,
        ensures
            final(self)@ == (ExchangeModel { state: ExchangeState::Ready, ..old(self)@ }),
    {
        self.state = ExchangeState::Ready;
    }

    /// Records the one retrieval of the outcome: a response if `with_response`,
    /// an error if not.
    pub fn resolve(&mut self, with_response: bool)
        requires
            old(self)@.state == ExchangeState::Ready,
        ensures
            final(self)@ == (ExchangeModel {
                state: if with_response {
                    ExchangeState::ResolvedWithResponse
                } else {
                    ExchangeState::ResolvedWithError
                },
                ..old(self)@
            }),
    {
        self.state = if with_response {
            ExchangeState::ResolvedWithResponse
        } else {
            ExchangeState::ResolvedWithError
        };
    }
}

} // verus!
