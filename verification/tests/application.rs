use ec_slimloader::application::{current_state, other_slot, requested_state, Running};
use ec_slimloader::boot::{BootAction, BootEvent, BootSequence};
use ec_slimloader::error::BootError;
use ec_slimloader::fuses::{
    asks_for_fuses, boot_cfg_fuses, rkth_fuses, BootCfg, BootCfgFuses, RkthFuses,
};
use ec_slimloader::rkh::Rkth;
use ec_slimloader::state::{Slot, State, Status};

#[test]
fn application_without_a_journal_is_confirmed() {
    assert_eq!(current_state(None), State::new(Status::Confirmed, Slot(0), Slot(1)));
    let stored = State::new(Status::Failed, Slot(1), Slot(0));
    assert_eq!(current_state(Some(stored)), stored);
}

#[test]
fn application_reads_its_slot_off_the_state() {
    let running = |status| Running::from_state(State::new(status, Slot(1), Slot(0)));
    let target = Running { slot: Slot(1), is_confirmed: false, is_backup: false };
    assert_eq!(running(Status::Initial), target);
    assert_eq!(running(Status::Attempting), target);
    assert_eq!(running(Status::Confirmed), Running { is_confirmed: true, ..target });
    assert_eq!(
        running(Status::Failed),
        Running { slot: Slot(0), is_confirmed: false, is_backup: true }
    );
}

#[test]
fn slot_is_blinked() {
    let running = |slot| Running { slot, is_confirmed: true, is_backup: false };
    assert_eq!(running(Slot(0)).blinks(), 1);
    assert_eq!(running(Slot(1)).blinks(), 2);
}

#[test]
fn slots_are_swapped() {
    assert_eq!(other_slot(Slot(0)), Slot(1));
    assert_eq!(other_slot(Slot(1)), Slot(0));
    assert_eq!(other_slot(Slot(2)), Slot(0));
}

#[test]
fn application_asks_for_the_next_state() {
    let state = |status| State::new(status, Slot(0), Slot(1));
    assert_eq!(
        requested_state(state(Status::Confirmed)),
        State::new(Status::Initial, Slot(1), Slot(0))
    );
    assert_eq!(requested_state(state(Status::Failed)), state(Status::Initial));
    assert_eq!(requested_state(state(Status::Attempting)), state(Status::Confirmed));
    assert_eq!(requested_state(state(Status::Initial)), state(Status::Confirmed));
}

#[test]
fn confirmed_target_is_booted_again() {
    let initial = State::new(Status::Initial, Slot(1), Slot(0));
    let attempting = BootSequence::from_state(initial).state();
    let confirmed = requested_state(attempting);
    assert_eq!(BootSequence::from_state(confirmed).action(), BootAction::Boot(Slot(1)));
    assert_ne!(BootSequence::from_state(attempting).action(), BootAction::Boot(Slot(1)));
}

#[test]
fn swap_is_undone_where_the_other_slot_fails() {
    let own = State::new(Status::Confirmed, Slot(0), Slot(1));
    let mut sequence = BootSequence::from_state(requested_state(own));
    sequence.advance(BootEvent::Stored);
    assert_eq!(sequence.action(), BootAction::Boot(Slot(1)));
    assert_eq!(Running::from_state(sequence.state()).slot, Slot(1));
    sequence.advance(BootEvent::BootFailed(BootError::TooSmall));
    sequence.advance(BootEvent::Stored);
    assert_eq!(sequence.action(), BootAction::Boot(Slot(0)));
    assert_eq!(Running::from_state(sequence.state()).slot, Slot(0));
    assert!(Running::from_state(sequence.state()).is_backup);
}

#[test]
fn failed_target_is_tried_again() {
    let failed = State::new(Status::Failed, Slot(1), Slot(0));
    let mut sequence = BootSequence::from_state(requested_state(failed));
    sequence.advance(BootEvent::Stored);
    assert_eq!(sequence.action(), BootAction::Boot(Slot(1)));
}

#[test]
fn button_must_be_held_for_more_than_five_seconds() {
    assert!(!asks_for_fuses(0));
    assert!(!asks_for_fuses(5_000_000_000));
    assert!(asks_for_fuses(5_000_000_001));
}

#[test]
fn root_key_fuses_follow_the_shadow_registers() {
    let set = Rkth([3; 32]);
    let zero = Rkth([0; 32]);
    assert_eq!(rkth_fuses(set, set), RkthFuses::UpToDate);
    assert_eq!(rkth_fuses(zero, zero), RkthFuses::UpToDate);
    assert_eq!(rkth_fuses(set, zero), RkthFuses::NotSet);
    assert_eq!(rkth_fuses(zero, set), RkthFuses::Write(set));
}

#[test]
fn boot_configuration_is_written_to_blank_fuses() {
    assert_eq!(boot_cfg_fuses(false), BootCfgFuses::AlreadySet);
    let cfg = BootCfg {
        qspi_b_boot: true,
        disable_isp: true,
        tzm_enable: true,
        secure_boot: true,
        dice_skip: true,
        boot_fail_pin_port: 5,
        boot_fail_pin_num: 7,
    };
    assert_eq!(boot_cfg_fuses(true), BootCfgFuses::Write(cfg));
}
