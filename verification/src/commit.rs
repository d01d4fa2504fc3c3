//! The commit point: the one place through which a session hands its outcome
//! to the caller. It takes one outcome and refuses every other.

use crate::descriptor::{ResponseDescriptor, ResponseView};
use crate::error::{ProtocolError, SessionError};
use vstd::prelude::*;

verus! {

/// How a session ended: with the response for the caller, or with a failure.
#[derive(Debug, PartialEq, Eq)]
pub enum Outcome {
    Response(ResponseDescriptor),
    Failure(SessionError),
}

/// What an [`Outcome`] stands for.
pub enum OutcomeView {
    Response(ResponseView),
    Failure(SessionError),
}

impl View for Outcome {
    type V = OutcomeView;

    open spec fn view(&self) -> OutcomeView {
        match self {
            Outcome::Response(response) => OutcomeView::Response(response@),
            Outcome::Failure(error) => OutcomeView::Failure(*error),
        }
    }
}

impl Clone for Outcome {
    /// A fresh outcome that stands for the same.
    fn clone(&self) -> (copy: Outcome)
        ensures
            copy@ == self@,
    {
        match self {
            Outcome::Response(response) => Outcome::Response(response.clone()),
            Outcome::Failure(error) => Outcome::Failure(*error),
        }
    }
}

/// What an optional outcome stands for.
pub open spec fn outcome_of(outcome: Option<Outcome>) -> Option<OutcomeView> {
    match outcome {
        Some(o) => Some(o@),
        None => None,
    }
}

/// What an optional reference to an outcome stands for.
pub open spec fn outcome_at(outcome: Option<&Outcome>) -> Option<OutcomeView> {
    match outcome {
        Some(o) => Some(o@),
        None => None,
    }
}

/// A slot for one outcome.
#[derive(Debug, PartialEq, Eq)]
pub struct CommitPoint {
    slot: Option<Outcome>,
}

impl View for CommitPoint {
    type V = Option<OutcomeView>;

    closed spec fn view(&self) -> Option<OutcomeView> {
        outcome_of(self.slot)
    }
}

impl CommitPoint {
    /// A commit point that holds nothing yet.
    pub fn new() -> (point: CommitPoint)
        ensures
            point@ is None,
    {
        CommitPoint { slot: None }
    }

    /// Whether an outcome has been committed.
    pub fn is_committed(&self) -> (committed: bool)
        ensures
            committed == self@ is Some,
    {
        self.slot.is_some()
    }

    /// The committed outcome, if there is one.
    pub fn outcome(&self) -> (outcome: Option<&Outcome>)
        ensures
            outcome_at(outcome) == self@,
    {
        self.slot.as_ref()
    }

    /// Commits `outcome` if nothing was committed before. A second commit is
    /// refused, and the first outcome stays.
    pub fn commit(&mut self, outcome: Outcome) -> (result: Result<(), ProtocolError>)
        ensures
            old(self)@ is None ==> result is Ok && final(self)@ == Some(outcome@),
            old(self)@ is Some ==> result == Err::<(), ProtocolError>(
                ProtocolError::AlreadyCommitted,
            ) && final(self)@ == old(self)@,
    {
        if self.slot.is_some() {
            Err(ProtocolError::AlreadyCommitted)
        } else {
            self.slot = Some(outcome);
            Ok(())
        }
    }

    /// Gives the committed outcome up, if there is one.
    pub fn into_outcome(self) -> (outcome: Option<Outcome>)
        ensures
            outcome_of(outcome) == self@,
    {
        self.slot
    }
}

} // verus!
