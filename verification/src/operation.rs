//! The life of one operation: the order in which a source is opened, a
//! destination is written and both are closed again.

use vstd::prelude::*;

verus! {

/// Where an operation stands.
#[derive(Clone, Copy, Debug, PartialEq, Eq, Structural)]
pub enum OperationState {
    /// Nothing is open.
    Closed,
    /// The source is open.
    Opened,
    /// The destination is open and has all its streams.
    DestinationOpened,
    /// The destination's header is written.
    HeaderWritten,
    /// Packets are being relayed.
    Relaying,
    /// The destination's trailer is written: the file is complete.
    TrailerWritten,
}

/// What an operation does to get from one state to the next.
#[derive(Clone, Copy, Debug, PartialEq, Eq, Structural)]
pub enum OperationStep {
    OpenSource,
    OpenDestination,
    WriteHeader,
    StartRelay,
    WriteTrailer,
    Close,
}

impl OperationState {
    /// The one step that may be taken in this state.
    pub open spec fn due(self) -> OperationStep {
        match self {
            OperationState::Closed => OperationStep::OpenSource,
            OperationState::Opened => OperationStep::OpenDestination,
            OperationState::DestinationOpened => OperationStep::WriteHeader,
            OperationState::HeaderWritten => OperationStep::StartRelay,
            OperationState::Relaying => OperationStep::WriteTrailer,
            OperationState::TrailerWritten => OperationStep::Close,
        }
    }

    /// The state that follows when the due step succeeds.
    pub open spec fn successor(self) -> OperationState {
        match self {
            OperationState::Closed => OperationState::Opened,
            OperationState::Opened => OperationState::DestinationOpened,
            OperationState::DestinationOpened => OperationState::HeaderWritten,
            OperationState::HeaderWritten => OperationState::Relaying,
            OperationState::Relaying => OperationState::TrailerWritten,
            OperationState::TrailerWritten => OperationState::Closed,
        }
    }

    /// The state after the due step: its successor when the step
    /// succeeded; when it failed, the operation is over and everything is
    /// closed.
    pub open spec fn after(self, succeeded: bool) -> OperationState {
        if succeeded {
            self.successor()
        } else {
            OperationState::Closed
        }
    }

    /// The step to take next.
    pub fn next_step(&self) -> (step: OperationStep)
        ensures
            step == self.due(),
    {
        match self {
            OperationState::Closed => OperationStep::OpenSource,
            OperationState::Opened => OperationStep::OpenDestination,
            OperationState::DestinationOpened => OperationStep::WriteHeader,
            OperationState::HeaderWritten => OperationStep::StartRelay,
            OperationState::Relaying => OperationStep::WriteTrailer,
            OperationState::TrailerWritten => OperationStep::Close,
        }
    }

    /// Whether `step` may be taken in this state.
    pub fn permits(&self, step: OperationStep) -> (yes: bool)
        ensures
            yes == (step == self.due()),
    {
        self.next_step() == step
    }

    /// Whether packets may be written to the destination in this state.
    pub fn accepts_packets(&self) -> (yes: bool)
        ensures
            yes == (*self == OperationState::Relaying),
    {
        match self {
            OperationState::Relaying => true,
            _ => false,
        }
    }

    /// Takes `step`, which must be the one due, and gives the state that
    /// follows from its outcome. A step out of order is a programming
    /// error.
    pub fn advance(self, step: OperationStep, succeeded: bool) -> (next: OperationState)
        requires
            step == self.due(),
        ensures
            next == self.after(succeeded),
    {
        if !succeeded {
            return OperationState::Closed;
        }
        match self {
            OperationState::Closed => OperationState::Opened,
            OperationState::Opened => OperationState::DestinationOpened,
            OperationState::DestinationOpened => OperationState::HeaderWritten,
            OperationState::HeaderWritten => OperationState::Relaying,
            OperationState::Relaying => OperationState::TrailerWritten,
            OperationState::TrailerWritten => OperationState::Closed,
        }
    }
}

/// An operation that meets no failure takes each of the six steps once, in
/// one order, and ends where it began, with everything closed.
pub proof fn lemma_operation_is_one_cycle()
    ensures
        OperationState::Closed.successor() == OperationState::Opened,
        OperationState::Closed.successor().successor().successor().successor().successor().successor()
            == OperationState::Closed,
        forall|a: OperationState, b: OperationState| #[trigger] a.due() == #[trigger] b.due() ==> a == b,
        forall|a: OperationState, b: OperationState|
            #[trigger] a.successor() == #[trigger] b.successor() ==> a == b,
{
}

/// Packets are written only between the header and the trailer: the state
/// that accepts them is entered from `HeaderWritten` alone and left for
/// `TrailerWritten` alone.
pub proof fn lemma_packets_lie_between_header_and_trailer(state: OperationState)
    ensures
        state.successor() == OperationState::Relaying <==> state == OperationState::HeaderWritten,
        state == OperationState::Relaying ==> state.successor() == OperationState::TrailerWritten,
{
}

} // verus!
