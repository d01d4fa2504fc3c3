//! The body relay: a one-directional, single-pass transfer of bytes from a
//! source stream to a sink stream.
//!
//! The relay performs no I/O. Its phase says which operation its driver owes
//! it: a read from the source while it is [`RelayPhase::Reading`], a write of
//! [`BodyRelay::pending`] to the sink while it is [`RelayPhase::Writing`]. The
//! driver reports the result as a [`RelayEvent`]. The relay holds one chunk at
//! most, and keeps what a sink has not yet accepted of it.

use crate::error::{ProtocolError, RelayFault};
use vstd::prelude::*;

verus! {

/// Where a relay stands.
#[derive(Clone, Copy, Debug, PartialEq, Eq, Structural)]
pub enum RelayPhase {
    /// Waiting for the next chunk of the source.
    Reading,
    /// Waiting for the sink to accept what is pending.
    Writing,
    /// The source has ended and the sink has accepted everything.
    Finished,
    /// The transfer was given up.
    Failed(RelayFault),
}

/// What a driver reports to a relay.
#[derive(Debug, PartialEq, Eq)]
pub enum RelayEvent {
    /// A read returned `bytes`; `end` tells that the source has no more.
    Chunk { bytes: Vec<u8>, end: bool },
    /// A read failed.
    ReadFailed,
    /// A write was accepted for the first `accepted` of the pending bytes.
    Written { accepted: u64 },
    /// A write failed.
    WriteFailed,
}

/// What a [`RelayEvent`] stands for.
pub enum RelayInput {
    Chunk { bytes: Seq<u8>, end: bool },
    ReadFailed,
    Written { accepted: nat },
    WriteFailed,
}

impl View for RelayEvent {
    type V = RelayInput;

    open spec fn view(&self) -> RelayInput {
        match self {
            RelayEvent::Chunk { bytes, end } => RelayInput::Chunk { bytes: bytes@, end: *end },
            RelayEvent::ReadFailed => RelayInput::ReadFailed,
            RelayEvent::Written { accepted } => RelayInput::Written { accepted: *accepted as nat },
            RelayEvent::WriteFailed => RelayInput::WriteFailed,
        }
    }
}

/// A relay as a mathematical value: its phase, the bytes it holds, and the
/// history of both streams.
pub struct RelayModel {
    pub phase: RelayPhase,
    /// Taken from the source and not yet accepted by the sink.
    pub pending: Seq<u8>,
    /// Whether the source has signalled its end.
    pub source_ended: bool,
    /// Every byte that the source has handed over, in order.
    pub consumed: Seq<u8>,
    /// Every byte that the sink has accepted, in order.
    pub delivered: Seq<u8>,
}

impl RelayModel {
    /// A relay before its first read.
    pub open spec fn init() -> RelayModel {
        RelayModel {
            phase: RelayPhase::Reading,
            pending: Seq::empty(),
            source_ended: false,
            consumed: Seq::empty(),
            delivered: Seq::empty(),
        }
    }

    /// Whether `input` answers the operation that the relay is waiting for.
    pub open spec fn accepts(self, input: RelayInput) -> bool {
        match self.phase {
            RelayPhase::Reading => input is Chunk || input is ReadFailed,
            RelayPhase::Writing => input is Written || input is WriteFailed,
            RelayPhase::Finished => false,
            RelayPhase::Failed(_) => false,
        }
    }

    /// The relay after `input`. An input that is not accepted changes nothing.
    pub open spec fn step(self, input: RelayInput) -> RelayModel {
        if !self.accepts(input) {
            self
        } else {
            match input {
                RelayInput::Chunk { bytes, end } => RelayModel {
                    phase: if bytes.len() > 0 {
                        RelayPhase::Writing
                    } else if end {
                        RelayPhase::Finished
                    } else {
                        RelayPhase::Reading
                    },
                    pending: bytes,
                    source_ended: end,
                    consumed: self.consumed + bytes,
                    delivered: self.delivered,
                },
                RelayInput::ReadFailed => RelayModel {
                    phase: RelayPhase::Failed(RelayFault::Read),
                    ..self
                },
                RelayInput::Written { accepted } => if accepted > self.pending.len() {
                    RelayModel { phase: RelayPhase::Failed(RelayFault::Overrun), ..self }
                } else {
                    RelayModel {
                        phase: if accepted < self.pending.len() {
                            RelayPhase::Writing
                        } else if self.source_ended {
                            RelayPhase::Finished
                        } else {
                            RelayPhase::Reading
                        },
                        pending: self.pending.skip(accepted as int),
                        delivered: self.delivered + self.pending.take(accepted as int),
                        ..self
                    }
                },
                RelayInput::WriteFailed => RelayModel {
                    phase: RelayPhase::Failed(RelayFault::Write),
                    ..self
                },
            }
        }
    }

    /// The relay after a sequence of inputs, taken in order.
    pub open spec fn run(self, inputs: Seq<RelayInput>) -> RelayModel
        decreases inputs.len(),
    {
        if inputs.len() == 0 {
            self
        } else {
            self.run(inputs.drop_last()).step(inputs.last())
        }
    }

    /// What holds of every relay: the sink has accepted a prefix of what the
    /// source handed over, the rest is pending, and the phase fits both.
    pub open spec fn inv(self) -> bool {
        &&& self.consumed == self.delivered + self.pending
        &&& self.phase == RelayPhase::Reading ==> self.pending.len() == 0 && !self.source_ended
        &&& self.phase == RelayPhase::Writing ==> self.pending.len() > 0
        &&& self.phase == RelayPhase::Finished ==> self.pending.len() == 0 && self.source_ended
    }

    /// Whether the relay waits for an operation of its driver.
    pub open spec fn active(self) -> bool {
        self.phase == RelayPhase::Reading || self.phase == RelayPhase::Writing
    }

    /// The invariant holds at the start.
    pub proof fn lemma_init_inv()
        ensures
            RelayModel::init().inv(),
    {
        assert(RelayModel::init().consumed =~= RelayModel::init().delivered
            + RelayModel::init().pending);
    }

    /// Every step keeps the invariant.
    pub proof fn lemma_step_inv(self, input: RelayInput)
        requires
            self.inv(),
        ensures
            self.step(input).inv(),
    {
        let next = self.step(input);
        if self.accepts(input) {
            match input {
                RelayInput::Chunk { bytes, end } => {
                    assert(self.pending =~= Seq::<u8>::empty());
                    assert(next.consumed =~= next.delivered + next.pending);
                },
                RelayInput::Written { accepted } => {
                    if accepted <= self.pending.len() {
                        assert(self.pending =~= self.pending.take(accepted as int)
                            + self.pending.skip(accepted as int));
                        assert(next.consumed =~= next.delivered + next.pending);
                    }
                },
                _ => {},
            }
        }
    }

    /// Every run keeps the invariant.
    pub proof fn lemma_run_inv(self, inputs: Seq<RelayInput>)
        requires
            self.inv(),
        ensures
            self.run(inputs).inv(),
        decreases inputs.len(),
    {
        if inputs.len() > 0 {
            self.lemma_run_inv(inputs.drop_last());
            self.run(inputs.drop_last()).lemma_step_inv(inputs.last());
        }
    }
}

/// A body relay. It starts out reading, and ends finished or failed.
pub struct BodyRelay {
    phase: RelayPhase,
    chunk: Vec<u8>,
    sent: usize,
    source_ended: bool,
    consumed: Ghost<Seq<u8>>,
    delivered: Ghost<Seq<u8>>,
}

impl View for BodyRelay {
    type V = RelayModel;

    closed spec fn view(&self) -> RelayModel {
        RelayModel {
            phase: self.phase,
            pending: self.chunk@.skip(self.sent as int),
            source_ended: self.source_ended,
            consumed: self.consumed@,
            delivered: self.delivered@,
        }
    }
}

impl BodyRelay {
    #[verifier::type_invariant]
    spec fn well_formed(self) -> bool {
        &&& self.sent <= self.chunk@.len()
        &&& self@.inv()
    }

    /// A relay before its first read.
    pub fn new() -> (relay: BodyRelay)
        ensures
            relay@ == RelayModel::init(),
    {
        let relay = BodyRelay {
            phase: RelayPhase::Reading,
            chunk: Vec::new(),
            sent: 0,
            source_ended: false,
            consumed: Ghost(Seq::empty()),
            delivered: Ghost(Seq::empty()),
        };
        proof {
            RelayModel::lemma_init_inv();
            assert(relay@.pending =~= Seq::<u8>::empty());
        }
        relay
    }

    /// Where the relay stands.
    pub fn phase(&self) -> (phase: RelayPhase)
        ensures
            phase == self@.phase,
            self@.inv(),
    {
        proof {
            use_type_invariant(self);
        }
        self.phase
    }

    /// The bytes that the sink has yet to accept, in the order in which the
    /// source gave them. Empty unless the relay is writing or has failed.
    pub fn pending(&self) -> (bytes: &[u8])
        ensures
            bytes@ == self@.pending,
    {
        proof {
            use_type_invariant(self);
        }
        vstd::slice::slice_subrange(self.chunk.as_slice(), self.sent, self.chunk.len())
    }

    /// Whether `event` answers the operation that the relay is waiting for.
    pub fn accepts(&self, event: &RelayEvent) -> (accepted: bool)
        ensures
            accepted == self@.accepts(event@),
    {
        match self.phase {
            RelayPhase::Reading => match event {
                RelayEvent::Chunk { .. } => true,
                RelayEvent::ReadFailed => true,
                _ => false,
            },
            RelayPhase::Writing => match event {
                RelayEvent::Written { .. } => true,
                RelayEvent::WriteFailed => true,
                _ => false,
            },
            _ => false,
        }
    }

    fn stepped(self, event: RelayEvent) -> (next: BodyRelay)
        requires
            self@.accepts(event@),
        ensures
            next@ == self@.step(event@),
    {
        proof {
            use_type_invariant(&self);
            self@.lemma_step_inv(event@);
        }
        match event {
            RelayEvent::Chunk { bytes, end } => {
                let phase = if bytes.len() > 0 {
                    RelayPhase::Writing
                } else if end {
                    RelayPhase::Finished
                } else {
                    RelayPhase::Reading
                };
                let ghost consumed = self.consumed@ + bytes@;
                assert(bytes@.skip(0) =~= bytes@);
                BodyRelay {
                    phase,
                    chunk: bytes,
                    sent: 0,
                    source_ended: end,
                    consumed: Ghost(consumed),
                    delivered: self.delivered,
                }
            },
            RelayEvent::ReadFailed => BodyRelay {
                phase: RelayPhase::Failed(RelayFault::Read),
                ..self
            },
            RelayEvent::Written { accepted } => {
                let rest: usize = self.chunk.len() - self.sent;
                if accepted > rest as u64 {
                    BodyRelay { phase: RelayPhase::Failed(RelayFault::Overrun), ..self }
                } else {
                    let taken: usize = accepted as usize;
                    let phase = if taken < rest {
                        RelayPhase::Writing
                    } else if self.source_ended {
                        RelayPhase::Finished
                    } else {
                        RelayPhase::Reading
                    };
                    let ghost delivered = self.delivered@ + self@.pending.take(taken as int);
                    assert(self.chunk@.skip(self.sent + taken) =~= self@.pending.skip(taken as int));
                    BodyRelay {
                        phase,
                        sent: self.sent + taken,
                        delivered: Ghost(delivered),
                        ..self
                    }
                }
            },
            RelayEvent::WriteFailed => BodyRelay {
                phase: RelayPhase::Failed(RelayFault::Write),
                ..self
            },
        }
    }

    /// Takes the result of the operation that the relay was waiting for and
    /// returns the new phase. An event that does not answer that operation is
    /// refused, and the relay stays as it was.
    pub fn advance(&mut self, event: RelayEvent) -> (result: Result<RelayPhase, ProtocolError>)
        ensures
            final(self)@ == old(self)@.step(event@),
            final(self)@.inv(),
            old(self)@.accepts(event@) ==> result == Ok::<RelayPhase, ProtocolError>(
                final(self)@.phase,
            ),
            !old(self)@.accepts(event@) ==> result == Err::<RelayPhase, ProtocolError>(
                ProtocolError::UnexpectedEvent,
            ),
    {
        proof {
            use_type_invariant(&*self);
        }
        if !self.accepts(&event) {
            return Err(ProtocolError::UnexpectedEvent);
        }
        // The step consumes the relay; a fresh one stands in for it meanwhile.
        let mut taken = BodyRelay::new();
        core::mem::swap(self, &mut taken);
        let next = taken.stepped(event);
        proof {
            use_type_invariant(&next);
        }
        let phase = next.phase;
        *self = next;
        Ok(phase)
    }
}

} // verus!
