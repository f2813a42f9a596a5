//! What holds of every boot sequence.
#[allow(unused_imports)]
use crate::boot::{
    answers, boot_plan, first_slot, follows, state_at_boot, BootAction, BootEvent, BootSequence,
};
#[allow(unused_imports)]
use crate::error::BootError;
#[allow(unused_imports)]
use crate::state::{Slot, State, Status};
use vstd::prelude::*;

verus! {

/// Whether `run` is what a sequence goes through when told of `events`, one after the
/// other.
pub open spec fn is_run(run: Seq<BootSequence>, events: Seq<BootEvent>) -> bool {
    &&& run.len() == events.len() + 1
    &&& forall|i: int|
        0 <= i < events.len() ==> {
            &&& answers(#[trigger] events[i], run[i].action())
            &&& follows(run[i], events[i], run[i + 1])
        }
}

/// The state in effect before the action at `i`: the last one that was to be stored, or
/// the one that the sequence began with.
pub open spec fn latest(state: State, actions: Seq<BootAction>, i: nat) -> State
    decreases i,
{
    if i == 0 {
        state
    } else {
        match actions[i - 1] {
            BootAction::Store(stored) => stored,
            _ => latest(state, actions, (i - 1) as nat),
        }
    }
}

/// As long as everything can be stored, a sequence does what the plan says, in order, and
/// holds the state that was last to be stored.
pub proof fn law_run_follows_plan(
    state: State,
    run: Seq<BootSequence>,
    events: Seq<BootEvent>,
    i: int,
)
    requires
        is_run(run, events),
        run[0].begins(state),
        0 <= i < run.len(),
        forall|j: int| 0 <= j < i ==> !((#[trigger] events[j]) is StoreFailed),
    ensures
        i < boot_plan(state).len(),
        run[i].action() == boot_plan(state)[i],
        run[i].remaining() == boot_plan(state).skip(i + 1),
        run[i].state() == latest(state, boot_plan(state), (i + 1) as nat),
    decreases i,
{
    let plan = boot_plan(state);
    if i == 0 {
        reveal_with_fuel(latest, 2);
    } else {
        law_run_follows_plan(state, run, events, i - 1);
        assert(!(events[i - 1] is StoreFailed));
        assert(plan.skip(i).skip(1) =~= plan.skip(i + 1));
    }
}

/// Once a state could not be stored the sequence is over: there is no further event, and
/// nothing is booted.
pub proof fn law_nothing_after_failed_store(
    run: Seq<BootSequence>,
    events: Seq<BootEvent>,
    i: int,
)
    requires
        is_run(run, events),
        0 <= i < events.len(),
        events[i] is StoreFailed,
    ensures
        events.len() == i + 1,
        run.last().action() == BootAction::Panic,
        run.last().remaining().len() == 0,
        run.last().state() == run[i].state(),
{
    if i + 1 < events.len() {
        assert(answers(events[i + 1], run[i + 1].action()));
    }
}

/// Whatever comes of an action can be told: both outcomes of storing any state, and every
/// error of booting any slot. Nothing else is asked for, and nothing comes of giving up.
pub proof fn law_every_outcome_can_be_told(state: State, slot: Slot, event: BootEvent)
    ensures
        answers(event, BootAction::Store(state)) <==> event == BootEvent::Stored || event
            == BootEvent::StoreFailed,
        answers(event, BootAction::Boot(slot)) <==> exists|error: BootError|
            event == BootEvent::BootFailed(error),
        !answers(event, BootAction::Abort),
        !answers(event, BootAction::Panic),
{
    if let BootEvent::BootFailed(error) = event {
        assert(event == BootEvent::BootFailed(error));
    }
}

/// What becomes of a new target, from the first action to the last: it is marked as
/// attempted, booted, marked as failed, and the backup is booted where that is another slot.
pub proof fn law_new_target(state: State)
    requires
        state.status == Status::Initial,
    ensures
        ({
            let attempting = State { status: Status::Attempting, ..state };
            let failed = State { status: Status::Failed, ..state };
            &&& state.target != state.backup ==> boot_plan(state) == seq![
                BootAction::Store(attempting),
                BootAction::Boot(state.target),
                BootAction::Store(failed),
                BootAction::Boot(state.backup),
                BootAction::Abort,
            ]
            &&& state.target == state.backup ==> boot_plan(state) == seq![
                BootAction::Store(attempting),
                BootAction::Boot(state.target),
                BootAction::Store(failed),
                BootAction::Abort,
            ]
        }),
{
    let attempting = State { status: Status::Attempting, ..state };
    let failed = State { status: Status::Failed, ..state };
    if state.target != state.backup {
        assert(boot_plan(state) =~= seq![
            BootAction::Store(attempting),
            BootAction::Boot(state.target),
            BootAction::Store(failed),
            BootAction::Boot(state.backup),
            BootAction::Abort,
        ]);
    } else {
        assert(boot_plan(state) =~= seq![
            BootAction::Store(attempting),
            BootAction::Boot(state.target),
            BootAction::Store(failed),
            BootAction::Abort,
        ]);
    }
}

/// What becomes of a confirmed target, from the first action to the last: it is booted,
/// marked as failed, and the backup is booted where that is another slot.
pub proof fn law_confirmed_target(state: State)
    requires
        state.status == Status::Confirmed,
    ensures
        ({
            let failed = State { status: Status::Failed, ..state };
            &&& state.target != state.backup ==> boot_plan(state) == seq![
                BootAction::Boot(state.target),
                BootAction::Store(failed),
                BootAction::Boot(state.backup),
                BootAction::Abort,
            ]
            &&& state.target == state.backup ==> boot_plan(state) == seq![
                BootAction::Boot(state.target),
                BootAction::Store(failed),
                BootAction::Abort,
            ]
        }),
{
    let failed = State { status: Status::Failed, ..state };
    if state.target != state.backup {
        assert(boot_plan(state) =~= seq![
            BootAction::Boot(state.target),
            BootAction::Store(failed),
            BootAction::Boot(state.backup),
            BootAction::Abort,
        ]);
    } else {
        assert(boot_plan(state) =~= seq![
            BootAction::Boot(state.target),
            BootAction::Store(failed),
            BootAction::Abort,
        ]);
    }
}

/// What becomes of a target that was attempted before, from the first action to the last:
/// it is marked as failed where it is not already, and the backup is booted.
pub proof fn law_attempted_target(state: State)
    ensures
        state.status == Status::Attempting ==> boot_plan(state) == seq![
            BootAction::Store(State { status: Status::Failed, ..state }),
            BootAction::Boot(state.backup),
            BootAction::Abort,
        ],
        state.status == Status::Failed ==> boot_plan(state) == seq![
            BootAction::Boot(state.backup),
            BootAction::Abort,
        ],
{
    if state.status == Status::Attempting {
        assert(boot_plan(state) =~= seq![
            BootAction::Store(State { status: Status::Failed, ..state }),
            BootAction::Boot(state.backup),
            BootAction::Abort,
        ]);
    }
    if state.status == Status::Failed {
        assert(boot_plan(state) =~= seq![BootAction::Boot(state.backup), BootAction::Abort]);
    }
}

/// A plan is short. It stores or boots until it ends by giving up, which it does nowhere
/// else.
pub proof fn law_plan_ends(state: State)
    ensures
        2 <= boot_plan(state).len() <= 5,
        boot_plan(state).last() == BootAction::Abort,
        forall|i: int|
            0 <= i < boot_plan(state).len() - 1 ==> {
                ||| (#[trigger] boot_plan(state)[i]) is Store
                ||| boot_plan(state)[i] is Boot
            },
{
}

/// The loader never changes the slots, and never claims that an image is new or has been
/// confirmed. It stores a state only where that is news.
pub proof fn law_only_the_status_is_stored(state: State, i: int)
    requires
        0 <= i < boot_plan(state).len(),
    ensures
        boot_plan(state)[i] matches BootAction::Store(stored) ==> {
            &&& stored.target == state.target
            &&& stored.backup == state.backup
            &&& stored.status is Attempting || stored.status is Failed
            &&& stored != latest(state, boot_plan(state), i as nat)
        },
{
    reveal_with_fuel(latest, 6);
}

/// Whenever an image is booted, the state in effect tells which one: the backup where the
/// status is failed, the target otherwise. It is never booted under the initial status.
pub proof fn law_state_tells_what_is_booted(state: State, i: int)
    requires
        0 <= i < boot_plan(state).len(),
    ensures
        boot_plan(state)[i] matches BootAction::Boot(slot) ==> {
            let now = latest(state, boot_plan(state), i as nat);
            &&& now.target == state.target
            &&& now.backup == state.backup
            &&& !(now.status is Initial)
            &&& slot == if now.status is Failed {
                now.backup
            } else {
                now.target
            }
        },
{
    reveal_with_fuel(latest, 6);
}

/// No slot is booted twice in one sequence.
pub proof fn law_no_slot_twice(state: State, i: int, j: int)
    requires
        0 <= i < j < boot_plan(state).len(),
        boot_plan(state)[i] is Boot,
        boot_plan(state)[j] is Boot,
    ensures
        boot_plan(state)[i] != boot_plan(state)[j],
{
}

/// A second image is booted only as the backup of a target that was new or confirmed, and
/// only under the failed status.
pub proof fn law_second_attempt_is_a_fallback(state: State, i: int, j: int)
    requires
        0 <= i < j < boot_plan(state).len(),
        boot_plan(state)[i] is Boot,
        boot_plan(state)[j] is Boot,
    ensures
        state.status is Initial || state.status is Confirmed,
        state.target != state.backup,
        boot_plan(state)[i] == BootAction::Boot(state.target),
        boot_plan(state)[j] == BootAction::Boot(state.backup),
        latest(state, boot_plan(state), j as nat).status is Failed,
{
    reveal_with_fuel(latest, 6);
}

/// The loader does not give up before the backup has been tried, nor before the target has
/// been, unless that was attempted in vain before.
pub proof fn law_every_candidate_is_tried(state: State)
    ensures
        boot_plan(state).contains(BootAction::Boot(state.backup)),
        state.status is Initial || state.status is Confirmed ==> boot_plan(state).contains(
            BootAction::Boot(state.target),
        ),
{
    let plan = boot_plan(state);
    assert(plan[0] == BootAction::Boot(first_slot(state)) || plan[1] == BootAction::Boot(
        first_slot(state),
    ));
    if first_slot(state) != state.backup {
        assert(plan[plan.len() - 2] == BootAction::Boot(state.backup));
    }
}

/// A loader that has given up leaves the failed status behind.
pub proof fn law_giving_up_is_recorded(state: State)
    ensures
        latest(state, boot_plan(state), boot_plan(state).len()) == state.with_status(
            Status::Failed,
        ),
{
    reveal_with_fuel(latest, 6);
}

/// A target that was attempted and has not been confirmed is not booted again: only the
/// backup is.
pub proof fn law_attempted_once(state: State, i: int)
    requires
        state.status is Attempting || state.status is Failed,
        0 <= i < boot_plan(state).len(),
    ensures
        boot_plan(state)[i] matches BootAction::Boot(slot) ==> slot == state.backup,
{
}

/// A new target gets one chance. It is marked as attempted, and that is stored before it is
/// booted. After a reset it is marked as failed, unless it has confirmed itself, and the
/// backup is booted. From then on the backup is booted after every reset, with nothing more
/// to store.
pub proof fn law_unconfirmed_target_gives_way(state: State)
    requires
        state.status is Initial,
    ensures
        ({
            let attempting = state.with_status(Status::Attempting);
            let failed = state.with_status(Status::Failed);
            &&& boot_plan(state).take(2) == seq![
                BootAction::Store(attempting),
                BootAction::Boot(state.target),
            ]
            &&& boot_plan(attempting) == seq![
                BootAction::Store(failed),
                BootAction::Boot(state.backup),
                BootAction::Abort,
            ]
            &&& boot_plan(failed) == seq![BootAction::Boot(state.backup), BootAction::Abort]
        }),
{
    let attempting = state.with_status(Status::Attempting);
    let failed = state.with_status(Status::Failed);
    assert(boot_plan(state).take(2) =~= seq![
        BootAction::Store(attempting),
        BootAction::Boot(state.target),
    ]);
    assert(boot_plan(attempting) =~= seq![
        BootAction::Store(failed),
        BootAction::Boot(state.backup),
        BootAction::Abort,
    ]);
    assert(boot_plan(failed) =~= seq![BootAction::Boot(state.backup), BootAction::Abort]);
}

/// A confirmed target is booted right away, with nothing to store. Only where it does not
/// boot is it marked as failed.
pub proof fn law_confirmed_target_is_booted(state: State)
    requires
        state.status is Confirmed,
    ensures
        boot_plan(state).take(2) == seq![
            BootAction::Boot(state.target),
            BootAction::Store(state.with_status(Status::Failed)),
        ],
{
    assert(boot_plan(state).take(2) =~= seq![
        BootAction::Boot(state.target),
        BootAction::Store(state.with_status(Status::Failed)),
    ]);
}

} // verus!
