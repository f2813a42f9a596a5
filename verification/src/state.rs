//! The boot state that survives a reset.
use vstd::prelude::*;

verus! {

/// The number of an image slot. How many slots there are is the board's matter.
#[derive(Clone, Copy, Debug, PartialEq, Eq, Structural)]
pub struct Slot(pub u8);

/// How far the image in the target slot has come.
#[derive(Clone, Copy, Debug, PartialEq, Eq, Structural)]
pub enum Status {
    /// The target has been selected, and was not started yet.
    Initial,
    /// The target has been started, and has not confirmed itself yet.
    Attempting,
    /// The target could not be started, or did not confirm itself.
    Failed,
    /// The target has been started and has confirmed itself.
    Confirmed,
}

/// Which slot to boot, where to fall back to, and how the target has fared.
#[derive(Clone, Copy, Debug, PartialEq, Eq, Structural)]
pub struct State {
    /// How far the target has come.
    pub status: Status,
    /// The slot that is meant to be booted.
    pub target: Slot,
    /// The slot that is booted where the target does not work out.
    pub backup: Slot,
}

impl State {
    /// A state made of its three parts.
    pub fn new(status: Status, target: Slot, backup: Slot) -> (state: Self)
        ensures
            state == (State { status, target, backup }),
            state.status == status,
            state.target == target,
            state.backup == backup,
    {
        State { status, target, backup }
    }

    /// The same slots under another status.
    pub open spec fn spec_with_status(self, status: Status) -> Self {
        State { status, ..self }
    }

    /// The same slots under another status.
    #[verifier::when_used_as_spec(spec_with_status)]
    pub fn with_status(self, status: Status) -> (state: Self)
        ensures
            state == self.with_status(status),
            state.status == status,
            state.target == self.target,
            state.backup == self.backup,
    {
        State { status, target: self.target, backup: self.backup }
    }
}

/// Another status changes nothing but the status, and the last one given counts.
pub proof fn law_only_the_status_changes(state: State, first: Status, second: Status)
    ensures
        state.with_status(first).status == first,
        state.with_status(first).target == state.target,
        state.with_status(first).backup == state.backup,
        state.with_status(state.status) == state,
        state.with_status(first).with_status(second) == state.with_status(second),
{
}

} // verus!
