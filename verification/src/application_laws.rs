//! What the loader and an application can rely on from each other.
#[allow(unused_imports)]
use crate::application::{
    other_than, requested_by, running_under, slot_a, slot_b, Running,
};
#[allow(unused_imports)]
use crate::boot::{boot_plan, state_at_boot, BootAction};
#[allow(unused_imports)]
use crate::boot_laws::{latest, law_state_tells_what_is_booted};
#[allow(unused_imports)]
use crate::state::{Slot, State, Status};
use vstd::prelude::*;

verus! {

/// An application that goes by the state in effect when it was booted knows the slot that
/// it runs from, and is never booted under the initial status.
pub proof fn law_application_knows_its_slot(state: State, i: int)
    requires
        0 <= i < boot_plan(state).len(),
    ensures
        boot_plan(state)[i] matches BootAction::Boot(slot) ==> {
            let now = latest(state, boot_plan(state), i as nat);
            &&& running_under(now).slot == slot
            &&& !(now.status is Initial)
        },
{
    law_state_tells_what_is_booted(state, i);
}

/// Whatever its slots, an application takes itself for confirmed exactly where the status
/// is confirmed, and for the backup exactly where it is failed. It takes itself to run from
/// the backup slot in the latter case, and from the target otherwise.
pub proof fn law_application_knows_its_standing(state: State)
    ensures
        running_under(state).is_confirmed <==> state.status == Status::Confirmed,
        running_under(state).is_backup <==> state.status == Status::Failed,
        state.status == Status::Failed ==> running_under(state).slot == state.backup,
        state.status != Status::Failed ==> running_under(state).slot == state.target,
{
}

/// The loader and the application agree on who is confirmed, and who is the backup. The
/// first image of a sequence takes itself for confirmed exactly where the loader began with
/// the confirmed status, for which it stores nothing. It takes itself for the backup exactly
/// where the target had been attempted in vain. The second image always takes itself for the
/// backup.
pub proof fn law_standing_agrees_with_the_loader(state: State, i: int, j: int)
    requires
        0 <= i < boot_plan(state).len(),
        boot_plan(state)[i] is Boot,
        forall|k: int| 0 <= k < i ==> !((#[trigger] boot_plan(state)[k]) is Boot),
        i < j < boot_plan(state).len(),
    ensures
        ({
            let first = running_under(latest(state, boot_plan(state), i as nat));
            &&& first.is_confirmed <==> state.status == Status::Confirmed
            &&& first.is_confirmed ==> i == 0
            &&& first.is_backup <==> state.status == Status::Attempting || state.status
                == Status::Failed
        }),
        boot_plan(state)[j] is Boot ==> {
            let second = running_under(latest(state, boot_plan(state), j as nat));
            second.is_backup && !second.is_confirmed
        },
{
    reveal_with_fuel(latest, 6);
}

/// The two slots of an application are the slots 0 and 1. The other slot is always one of
/// them and never the slot itself, and each is the other of the other.
pub proof fn law_other_slot(slot: Slot)
    ensures
        slot_a() == Slot(0),
        slot_b() == Slot(1),
        other_than(slot) != slot,
        other_than(slot) == Slot(0) || other_than(slot) == Slot(1),
        other_than(slot) == Slot(1) <==> slot == Slot(0),
        slot == Slot(0) || slot == Slot(1) ==> other_than(other_than(slot)) == slot,
{
}

/// What an application asks for, whatever its slots: a confirmed one has the roles of the
/// slots swapped, a backup has the target tried again, and any other is confirmed. None asks
/// to be left in the state that it is in.
pub proof fn law_requests(state: State)
    ensures
        state.status == Status::Confirmed ==> {
            &&& requested_by(state).status == Status::Initial
            &&& requested_by(state).backup == state.target
            &&& requested_by(state).target != state.target
            &&& requested_by(state).target == Slot(1) <==> state.target == Slot(0)
            &&& requested_by(state).target.0 <= 1
        },
        state.status != Status::Confirmed ==> {
            &&& requested_by(state).target == state.target
            &&& requested_by(state).backup == state.backup
        },
        state.status == Status::Failed ==> requested_by(state).status == Status::Initial,
        state.status == Status::Initial || state.status == Status::Attempting ==> requested_by(
            state,
        ).status == Status::Confirmed,
        requested_by(state) != state,
{
}

/// A new target that confirms itself is booted again after a reset, right away. Without
/// the confirmation it would not be: see
/// [`law_unconfirmed_target_gives_way`](crate::boot_laws::law_unconfirmed_target_gives_way).
pub proof fn law_confirmation_is_kept(state: State)
    requires
        state.status is Initial,
    ensures
        ({
            let confirmed = requested_by(state_at_boot(state));
            &&& confirmed == state.with_status(Status::Confirmed)
            &&& boot_plan(confirmed)[0] == BootAction::Boot(state.target)
        }),
{
}

/// A confirmed application can have the other slot attempted. Where that does not boot, the
/// loader comes back to the application's own slot in the same sequence. Where it boots and
/// does not confirm itself, the loader does so after the next reset.
pub proof fn law_swap_can_be_undone(state: State)
    requires
        state.status is Confirmed,
    ensures
        ({
            let swapped = requested_by(state);
            let attempting = swapped.with_status(Status::Attempting);
            let failed = swapped.with_status(Status::Failed);
            let own = running_under(state).slot;
            let other = other_than(own);
            &&& other != own
            &&& boot_plan(swapped) == seq![
                BootAction::Store(attempting),
                BootAction::Boot(other),
                BootAction::Store(failed),
                BootAction::Boot(own),
                BootAction::Abort,
            ]
            &&& boot_plan(attempting) == seq![
                BootAction::Store(failed),
                BootAction::Boot(own),
                BootAction::Abort,
            ]
        }),
{
    let swapped = requested_by(state);
    let attempting = swapped.with_status(Status::Attempting);
    let failed = swapped.with_status(Status::Failed);
    let own = running_under(state).slot;
    let other = other_than(own);
    assert(boot_plan(swapped) =~= seq![
        BootAction::Store(attempting),
        BootAction::Boot(other),
        BootAction::Store(failed),
        BootAction::Boot(own),
        BootAction::Abort,
    ]);
    assert(boot_plan(attempting) =~= seq![
        BootAction::Store(failed),
        BootAction::Boot(own),
        BootAction::Abort,
    ]);
}

/// An application that runs as the backup can have the target attempted again, with itself
/// still the backup.
pub proof fn law_target_can_be_retried(state: State)
    requires
        state.status is Failed,
    ensures
        ({
            let retried = requested_by(state);
            &&& retried.target == state.target
            &&& retried.backup == running_under(state).slot
            &&& boot_plan(retried).take(2) == seq![
                BootAction::Store(state.with_status(Status::Attempting)),
                BootAction::Boot(state.target),
            ]
        }),
{
    assert(boot_plan(requested_by(state)).take(2) =~= seq![
        BootAction::Store(state.with_status(Status::Attempting)),
        BootAction::Boot(state.target),
    ]);
}

} // verus!
