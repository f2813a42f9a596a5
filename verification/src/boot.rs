//! The boot sequence: what to store, what to boot, and when to give up.
use crate::error::BootError;
#[allow(unused_imports)]
use crate::plan::optional;
use crate::policy::{load_state, BootStatePolicy};
#[allow(unused_imports)]
use crate::policy::loads;
use crate::state::{Slot, State, Status};
use vstd::prelude::*;

verus! {

/// Intent which denotes which [`Slot`] should be booted.
#[derive(Clone, Copy, Debug, PartialEq, Eq, Structural)]
pub enum BootIntent {
    /// The slot that is meant to be booted.
    Target,
    /// The slot to fall back to.
    Backup,
}

/// What the loader asks its board to do next.
#[derive(Clone, Copy, Debug, PartialEq, Eq, Structural)]
pub enum BootAction {
    /// Make this state the latest one in the journal.
    Store(State),
    /// Check the image in this slot, and start it.
    Boot(Slot),
    /// Give up booting into an application.
    Abort,
    /// Stop at once, since the state could not be stored.
    Panic,
}

/// What became of an action that came back.
#[derive(Clone, Copy, Debug, PartialEq, Eq, Structural)]
pub enum BootEvent {
    /// The state is in the journal.
    Stored,
    /// The journal could not be updated.
    StoreFailed,
    /// The image was not started.
    BootFailed(BootError),
}

/// Whether `event` can come of `action`. An image that starts does not come back, and
/// neither does giving up.
pub open spec fn answers(event: BootEvent, action: BootAction) -> bool {
    match action {
        BootAction::Store(_) => event is Stored || event is StoreFailed,
        BootAction::Boot(_) => event is BootFailed,
        BootAction::Abort => false,
        BootAction::Panic => false,
    }
}

/// The status under which the first image is booted.
///
/// A target that is new is marked as being attempted, so that it can confirm itself. One
/// that is still being attempted was started before and has not confirmed itself: it has
/// failed. The two other statuses stay.
pub open spec fn status_at_boot(status: Status) -> Status {
    match status {
        Status::Initial => Status::Attempting,
        Status::Attempting => Status::Failed,
        Status::Failed => Status::Failed,
        Status::Confirmed => Status::Confirmed,
    }
}

/// The slot that an intent stands for.
pub open spec fn slot_of(state: State, intent: BootIntent) -> Slot {
    match intent {
        BootIntent::Target => state.target,
        BootIntent::Backup => state.backup,
    }
}

/// What is intended by a loader that finds `status`: the backup once the target has been
/// attempted in vain, the target otherwise.
pub open spec fn intent_of(status: Status) -> BootIntent {
    if status is Attempting || status is Failed {
        BootIntent::Backup
    } else {
        BootIntent::Target
    }
}

/// The state as it is when the first image is booted.
pub open spec fn state_at_boot(state: State) -> State {
    state.with_status(status_at_boot(state.status))
}

/// The slot that is booted first.
pub open spec fn first_slot(state: State) -> Slot {
    slot_of(state, intent_of(state.status))
}

/// What is left to do once booting `tried` has failed and that is on record: the backup,
/// where that is another slot, and then nothing but to give up.
pub open spec fn fallback_plan(state: State, tried: Slot) -> Seq<BootAction> {
    optional(tried != state.backup, BootAction::Boot(state.backup)) + seq![BootAction::Abort]
}

/// What is left to do once booting `tried` has failed: the failure is put on record where
/// it is not already.
pub open spec fn failure_plan(state: State, tried: Slot) -> Seq<BootAction> {
    optional(
        state.status != Status::Failed,
        BootAction::Store(state.with_status(Status::Failed)),
    ) + fallback_plan(state, tried)
}

/// All that a loader does from `state` where everything can be stored and nothing boots.
/// Where an image does boot, the sequence ends there.
pub open spec fn boot_plan(state: State) -> Seq<BootAction> {
    optional(state_at_boot(state) != state, BootAction::Store(state_at_boot(state))) + seq![
        BootAction::Boot(first_slot(state)),
    ] + failure_plan(state_at_boot(state), first_slot(state))
}

/// Where a boot sequence stands.
#[derive(Clone, Copy, Debug, PartialEq, Eq, Structural)]
enum Stage {
    /// The state is being stored, before the first boot.
    Marking(BootIntent),
    /// The first slot is being booted.
    Booting(Slot),
    /// The failure of the first slot is being stored.
    Recording(Slot),
    /// The backup is being booted after another slot.
    FallingBack,
    /// Nothing could be booted.
    GivenUp,
    /// The state could not be stored.
    Halted,
}

/// A boot sequence on its way. It says what to do, and is told what came of it.
#[derive(Debug)]
pub struct BootSequence {
    state: State,
    stage: Stage,
}

impl BootSequence {
    /// The state as the sequence last set it.
    pub closed spec fn spec_state(&self) -> State {
        self.state
    }

    /// The action that is to be done now.
    pub closed spec fn spec_action(&self) -> BootAction {
        match self.stage {
            Stage::Marking(_) => BootAction::Store(self.state),
            Stage::Booting(slot) => BootAction::Boot(slot),
            Stage::Recording(_) => BootAction::Store(self.state),
            Stage::FallingBack => BootAction::Boot(self.state.backup),
            Stage::GivenUp => BootAction::Abort,
            Stage::Halted => BootAction::Panic,
        }
    }

    /// The actions that come after the present one, where everything can be stored and
    /// nothing boots.
    pub closed spec fn remaining(&self) -> Seq<BootAction> {
        match self.stage {
            Stage::Marking(intent) => seq![BootAction::Boot(slot_of(self.state, intent))]
                + failure_plan(self.state, slot_of(self.state, intent)),
            Stage::Booting(slot) => failure_plan(self.state, slot),
            Stage::Recording(slot) => fallback_plan(self.state, slot),
            Stage::FallingBack => seq![BootAction::Abort],
            Stage::GivenUp => Seq::empty(),
            Stage::Halted => Seq::empty(),
        }
    }

    /// Whether the sequence is at the very start of the plan for `state`.
    pub open spec fn begins(&self, state: State) -> bool {
        &&& self.action() == boot_plan(state)[0]
        &&& self.remaining() == boot_plan(state).skip(1)
        &&& self.state() == state_at_boot(state)
    }

    /// Starts the sequence from a given state.
    pub fn from_state(state: State) -> (sequence: Self)
        ensures
            sequence.begins(state),
    {
        let mut sequence = BootSequence { state, stage: Stage::GivenUp };
        match state.status {
            Status::Initial => {
                // Marked as attempted, so that the application can mark it as confirmed.
                sequence.set_status(Status::Attempting);
                sequence.stage = Stage::Marking(BootIntent::Target);
            },
            Status::Attempting => {
                // The target was started before, and failed to confirm itself.
                sequence.set_status(Status::Failed);
                sequence.stage = Stage::Marking(BootIntent::Backup);
            },
            Status::Failed => {
                sequence.stage = Stage::Booting(sequence.slot(BootIntent::Backup));
            },
            Status::Confirmed => {
                sequence.stage = Stage::Booting(sequence.slot(BootIntent::Target));
            },
        }
        assert(sequence.remaining() =~= boot_plan(state).skip(1));
        sequence
    }

    /// Sets a new status. The slots and the stage stay.
    fn set_status(&mut self, status: Status)
        ensures
            final(self).state == old(self).state.with_status(status),
            final(self).stage == old(self).stage,
    {
        self.state = self.state.with_status(status);
    }

    /// The slot that an intent stands for.
    fn slot(&self, intent: BootIntent) -> (slot: Slot)
        ensures
            slot == slot_of(self.state, intent),
    {
        match intent {
            BootIntent::Target => self.state.target,
            BootIntent::Backup => self.state.backup,
        }
    }

    /// The state as the sequence last set it.
    #[verifier::when_used_as_spec(spec_state)]
    pub fn state(&self) -> (state: State)
        ensures
            state == self.state(),
    {
        self.state
    }

    /// The action that is to be done now.
    #[verifier::when_used_as_spec(spec_action)]
    pub fn action(&self) -> (action: BootAction)
        ensures
            action == self.action(),
    {
        match self.stage {
            Stage::Marking(_) => BootAction::Store(self.state),
            Stage::Booting(slot) => BootAction::Boot(slot),
            Stage::Recording(_) => BootAction::Store(self.state),
            Stage::FallingBack => BootAction::Boot(self.state.backup),
            Stage::GivenUp => BootAction::Abort,
            Stage::Halted => BootAction::Panic,
        }
    }

    /// Goes on to the next action, given what came of the present one.
    ///
    /// Once a state could not be stored nothing more is booted.
    pub fn advance(&mut self, event: BootEvent)
        requires
            answers(event, old(self).action()),
        ensures
            follows(*old(self), event, *final(self)),
    {
        match event {
            BootEvent::StoreFailed => {
                self.stage = Stage::Halted;
            },
            BootEvent::Stored => {
                match self.stage {
                    Stage::Marking(intent) => {
                        self.stage = Stage::Booting(self.slot(intent));
                    },
                    Stage::Recording(slot) => {
                        self.fall_back(slot);
                    },
                    _ => {},
                }
            },
            BootEvent::BootFailed(_) => {
                match self.stage {
                    Stage::Booting(slot) => {
                        if self.state.status != Status::Failed {
                            self.set_status(Status::Failed);
                            self.stage = Stage::Recording(slot);
                        } else {
                            self.fall_back(slot);
                        }
                    },
                    _ => {
                        self.stage = Stage::GivenUp;
                    },
                }
            },
        }
        assert(!(event is StoreFailed) ==> self.remaining() =~= old(self).remaining().skip(1));
    }

    /// Turns to the backup, where that is another slot than the one that was tried.
    fn fall_back(&mut self, tried: Slot)
        ensures
            final(self).state == old(self).state,
            final(self).spec_action() == fallback_plan(old(self).state, tried)[0],
            final(self).remaining() == fallback_plan(old(self).state, tried).skip(1),
            final(self).spec_action() is Boot || final(self).spec_action() is Abort,
    {
        if tried != self.state.backup {
            self.stage = Stage::FallingBack;
        } else {
            self.stage = Stage::GivenUp;
        }
        assert(self.remaining() =~= fallback_plan(self.state, tried).skip(1));
    }
}

/// How a sequence goes on from `before` to `after` when told of `event`.
///
/// Where the state could not be stored, nothing more is done. Otherwise the next action of
/// the plan is up, and the state is what it says where it is one to be stored.
pub open spec fn follows(before: BootSequence, event: BootEvent, after: BootSequence) -> bool {
    if event is StoreFailed {
        &&& after.action() == BootAction::Panic
        &&& after.remaining() == Seq::<BootAction>::empty()
        &&& after.state() == before.state()
    } else {
        &&& before.remaining().len() > 0
        &&& after.action() == before.remaining()[0]
        &&& after.remaining() == before.remaining().skip(1)
        &&& after.state() == match after.action() {
            BootAction::Store(state) => state,
            _ => before.state(),
        }
    }
}

/// Starts the boot sequence with what the journal holds and the policy makes of it.
pub fn start<P: BootStatePolicy>(stored: Option<State>) -> (sequence: BootSequence)
    ensures
        exists|state: State| #[trigger] loads::<P>(stored, state) && sequence.begins(state),
{
    let state = load_state::<P>(stored);
    BootSequence::from_state(state)
}

} // verus!
