//! The other side of the boot state: how an application that was booted reads it, and what
//! it asks of the next boot.
use crate::state::{Slot, State, Status};
use vstd::prelude::*;

verus! {

/// The first of an application's two slots.
pub open spec fn slot_a() -> Slot {
    Slot(0)
}

/// The second of an application's two slots.
pub open spec fn slot_b() -> Slot {
    Slot(1)
}

/// What an application knows of itself.
#[derive(Clone, Copy, Debug, PartialEq, Eq, Structural)]
pub struct Running {
    /// The slot it runs from.
    pub slot: Slot,
    /// Whether it has been confirmed.
    pub is_confirmed: bool,
    /// Whether it was booted in place of a target that failed.
    pub is_backup: bool,
}

/// What the state tells the application that was booted under it.
pub open spec fn running_under(state: State) -> Running {
    Running {
        slot: if state.status is Failed {
            state.backup
        } else {
            state.target
        },
        is_confirmed: state.status is Confirmed,
        is_backup: state.status is Failed,
    }
}

/// The slot that is not `slot`: the second where that is the first, the first otherwise.
pub open spec fn other_than(slot: Slot) -> Slot {
    if slot == slot_a() {
        slot_b()
    } else {
        slot_a()
    }
}

/// The state that an application asks for.
///
/// One that is confirmed asks for the other slot to be attempted, with itself as the backup.
/// One that runs as the backup asks for the target to be attempted again. One that is being
/// attempted confirms itself.
pub open spec fn requested_by(state: State) -> State {
    match state.status {
        Status::Confirmed => State {
            status: Status::Initial,
            target: other_than(state.target),
            backup: state.target,
        },
        Status::Failed => state.with_status(Status::Initial),
        Status::Initial | Status::Attempting => state.with_status(Status::Confirmed),
    }
}

/// The state that an application goes by: the stored one, or, where nothing was ever
/// stored, that of a confirmed application in the first slot.
pub fn current_state(stored: Option<State>) -> (state: State)
    ensures
        state == match stored {
            Some(found) => found,
            None => State { status: Status::Confirmed, target: slot_a(), backup: slot_b() },
        },
        stored matches Some(found) ==> state == found,
        stored is None ==> {
            &&& state.status == Status::Confirmed
            &&& state.target == Slot(0)
            &&& state.backup == Slot(1)
        },
{
    match stored {
        Some(found) => found,
        None => State::new(Status::Confirmed, Slot(0), Slot(1)),
    }
}

impl Running {
    /// What the state tells the application that was booted under it.
    pub fn from_state(state: State) -> (running: Self)
        ensures
            running == running_under(state),
            running.is_confirmed <==> state.status == Status::Confirmed,
            running.is_backup <==> state.status == Status::Failed,
            running.is_backup ==> running.slot == state.backup,
            !running.is_backup ==> running.slot == state.target,
    {
        match state.status {
            // The loader never boots under the initial status, so this is a loader's fault.
            Status::Initial => Running {
                slot: state.target,
                is_confirmed: false,
                is_backup: false,
            },
            Status::Attempting => Running {
                slot: state.target,
                is_confirmed: false,
                is_backup: false,
            },
            Status::Failed => Running { slot: state.backup, is_confirmed: false, is_backup: true },
            Status::Confirmed => Running {
                slot: state.target,
                is_confirmed: true,
                is_backup: false,
            },
        }
    }

    /// How often the slot's light blinks in a row: once in the first slot, twice in the
    /// second.
    pub fn blinks(&self) -> (count: u8)
        requires
            self.slot.0 < u8::MAX,
        ensures
            count == self.slot.0 + 1,
    {
        self.slot.0 + 1
    }
}

/// The slot that is not `slot`.
pub fn other_slot(slot: Slot) -> (other: Slot)
    ensures
        other == other_than(slot),
        slot == Slot(0) ==> other == Slot(1),
        slot != Slot(0) ==> other == Slot(0),
{
    if slot == Slot(0) {
        Slot(1)
    } else {
        Slot(0)
    }
}

/// The state that an application asks for.
pub fn requested_state(state: State) -> (requested: State)
    ensures
        requested == requested_by(state),
        state.status == Status::Confirmed ==> {
            &&& requested.status == Status::Initial
            &&& requested.target == if state.target == Slot(0) {
                Slot(1)
            } else {
                Slot(0)
            }
            &&& requested.backup == state.target
        },
        state.status == Status::Failed ==> requested == (State {
            status: Status::Initial,
            ..state
        }),
        state.status == Status::Initial || state.status == Status::Attempting ==> requested == (
        State { status: Status::Confirmed, ..state }),
{
    let running = Running::from_state(state);
    if running.is_confirmed {
        // Swap around.
        State::new(Status::Initial, other_slot(running.slot), running.slot)
    } else if running.is_backup {
        // Try the target again.
        state.with_status(Status::Initial)
    } else {
        // It was being attempted, so it is confirmed.
        state.with_status(Status::Confirmed)
    }
}

} // verus!
