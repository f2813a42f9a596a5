use ec_slimloader::boot::{start, BootAction, BootEvent, BootSequence};
use ec_slimloader::error::BootError;
use ec_slimloader::policy::{accept_state, load_state, BootStatePolicy};
use ec_slimloader::state::{Slot, State, Status};

struct Plain;

impl BootStatePolicy for Plain {}

/// Accepts the slots 1 and 2 only.
struct Strict;

impl BootStatePolicy for Strict {
    fn default_state() -> State {
        State::new(Status::Confirmed, Slot(1), Slot(2))
    }

    fn is_valid_state(state: &State) -> bool {
        let known = |slot: Slot| slot == Slot(1) || slot == Slot(2);
        known(state.target) && known(state.backup)
    }
}

fn state(status: Status) -> State {
    State::new(status, Slot(1), Slot(2))
}

/// Everything that is done where everything can be stored and nothing boots.
fn actions(mut sequence: BootSequence) -> Vec<BootAction> {
    let mut done = Vec::new();
    loop {
        let action = sequence.action();
        done.push(action);
        match action {
            BootAction::Store(stored) => {
                assert_eq!(sequence.state(), stored);
                sequence.advance(BootEvent::Stored)
            }
            BootAction::Boot(_) => sequence.advance(BootEvent::BootFailed(BootError::Markers)),
            BootAction::Abort | BootAction::Panic => return done,
        }
    }
}

#[test]
fn state_keeps_its_slots_under_another_status() {
    let before = State::new(Status::Initial, Slot(3), Slot(5));
    let after = before.with_status(Status::Confirmed);
    assert_eq!(after, State::new(Status::Confirmed, Slot(3), Slot(5)));
    assert_eq!(before.status, Status::Initial);
}

#[test]
fn plain_policy_starts_in_slot_zero() {
    assert_eq!(load_state::<Plain>(None), State::new(Status::Initial, Slot(0), Slot(0)));
    assert_eq!(
        actions(start::<Plain>(None)),
        vec![
            BootAction::Store(State::new(Status::Attempting, Slot(0), Slot(0))),
            BootAction::Boot(Slot(0)),
            BootAction::Store(State::new(Status::Failed, Slot(0), Slot(0))),
            BootAction::Abort,
        ]
    );
}

#[test]
fn plain_policy_accepts_every_state() {
    let stored = State::new(Status::Failed, Slot(200), Slot(7));
    assert!(Plain::is_valid_state(&stored));
    assert_eq!(load_state::<Plain>(Some(stored)), stored);
}

#[test]
fn policy_turns_down_a_stored_state() {
    let good = State::new(Status::Failed, Slot(2), Slot(1));
    let bad = State::new(Status::Failed, Slot(3), Slot(1));
    assert_eq!(load_state::<Strict>(Some(good)), good);
    assert_eq!(load_state::<Strict>(Some(bad)), Strict::default_state());
    assert_eq!(load_state::<Strict>(None), Strict::default_state());
    assert_eq!(start::<Strict>(Some(good)).action(), BootAction::Boot(Slot(1)));
    assert_eq!(start::<Strict>(Some(bad)).state(), Strict::default_state());
}

#[test]
fn stored_state_is_kept_where_valid() {
    let stored = Some(state(Status::Attempting));
    assert_eq!(accept_state(stored, true), stored);
    assert_eq!(accept_state(stored, false), None);
    assert_eq!(accept_state(None, true), None);
    assert_eq!(accept_state(None, false), None);
}

#[test]
fn initial_target_is_attempted_and_falls_back() {
    assert_eq!(
        actions(BootSequence::from_state(state(Status::Initial))),
        vec![
            BootAction::Store(state(Status::Attempting)),
            BootAction::Boot(Slot(1)),
            BootAction::Store(state(Status::Failed)),
            BootAction::Boot(Slot(2)),
            BootAction::Abort,
        ]
    );
}

#[test]
fn attempted_target_has_failed() {
    assert_eq!(
        actions(BootSequence::from_state(state(Status::Attempting))),
        vec![
            BootAction::Store(state(Status::Failed)),
            BootAction::Boot(Slot(2)),
            BootAction::Abort,
        ]
    );
}

#[test]
fn failed_target_is_left_alone() {
    assert_eq!(
        actions(BootSequence::from_state(state(Status::Failed))),
        vec![BootAction::Boot(Slot(2)), BootAction::Abort]
    );
}

#[test]
fn confirmed_target_is_booted_right_away() {
    assert_eq!(
        actions(BootSequence::from_state(state(Status::Confirmed))),
        vec![
            BootAction::Boot(Slot(1)),
            BootAction::Store(state(Status::Failed)),
            BootAction::Boot(Slot(2)),
            BootAction::Abort,
        ]
    );
}

#[test]
fn no_slot_is_tried_twice() {
    let alone = |status| State::new(status, Slot(4), Slot(4));
    assert_eq!(
        actions(BootSequence::from_state(alone(Status::Confirmed))),
        vec![
            BootAction::Boot(Slot(4)),
            BootAction::Store(alone(Status::Failed)),
            BootAction::Abort,
        ]
    );
    assert_eq!(
        actions(BootSequence::from_state(alone(Status::Attempting))),
        vec![
            BootAction::Store(alone(Status::Failed)),
            BootAction::Boot(Slot(4)),
            BootAction::Abort,
        ]
    );
}

#[test]
fn nothing_is_booted_once_a_store_failed() {
    let mut first = BootSequence::from_state(state(Status::Initial));
    first.advance(BootEvent::StoreFailed);
    assert_eq!(first.action(), BootAction::Panic);

    let mut second = BootSequence::from_state(state(Status::Confirmed));
    second.advance(BootEvent::BootFailed(BootError::Authenticate));
    assert_eq!(second.action(), BootAction::Store(state(Status::Failed)));
    second.advance(BootEvent::StoreFailed);
    assert_eq!(second.action(), BootAction::Panic);
}

#[test]
fn unconfirmed_target_gives_way_after_a_reset() {
    let sequence = BootSequence::from_state(state(Status::Initial));
    assert_eq!(sequence.action(), BootAction::Store(state(Status::Attempting)));
    let journal = sequence.state();

    let mut sequence = start::<Plain>(Some(journal));
    sequence.advance(BootEvent::Stored);
    assert_eq!(sequence.action(), BootAction::Boot(Slot(2)));
    let journal = sequence.state();
    assert_eq!(journal, state(Status::Failed));

    let sequence = start::<Plain>(Some(journal));
    assert_eq!(sequence.action(), BootAction::Boot(Slot(2)));
}

#[test]
fn slots_are_never_stored_differently() {
    for status in [Status::Initial, Status::Attempting, Status::Failed, Status::Confirmed] {
        let begun = state(status);
        let mut latest = begun;
        for action in actions(BootSequence::from_state(begun)) {
            match action {
                BootAction::Store(stored) => {
                    assert_ne!(stored, latest);
                    assert_eq!(stored.target, begun.target);
                    assert_eq!(stored.backup, begun.backup);
                    assert!(stored.status == Status::Attempting || stored.status == Status::Failed);
                    latest = stored;
                }
                BootAction::Boot(slot) => {
                    assert_ne!(latest.status, Status::Initial);
                    let failed = latest.status == Status::Failed;
                    assert_eq!(slot, if failed { latest.backup } else { latest.target });
                }
                BootAction::Abort => assert_eq!(latest.status, Status::Failed),
                BootAction::Panic => panic!("everything could be stored"),
            }
        }
    }
}
