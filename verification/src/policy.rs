//! What an application may decide about the boot state.
use crate::state::{Slot, State, Status};
use vstd::prelude::*;

verus! {

/// The state of a device that has never been booted: slot 0, without a separate backup.
pub open spec fn factory_state() -> State {
    State { status: Status::Initial, target: Slot(0), backup: Slot(0) }
}

/// A trait for application specific configurations.
pub trait BootStatePolicy {
    /// Get the application specific default boot state.
    fn default_state() -> (state: State)
        default_ensures
            state == factory_state(),
            state.status is Initial,
            state.target == Slot(0),
            state.backup == Slot(0),
    {
        State::new(Status::Initial, Slot(0), Slot(0))
    }

    /// Allows application specific validation of the boot state.
    fn is_valid_state(_state: &State) -> (valid: bool)
        default_ensures
            valid,
    {
        true
    }
}

/// What becomes of the stored state once the policy has spoken: it is kept where there is
/// one and the policy holds it valid.
pub open spec fn accepted(stored: Option<State>, valid: bool) -> Option<State> {
    if valid {
        stored
    } else {
        None
    }
}

/// Keeps the stored state where the policy holds it valid.
pub fn accept_state(stored: Option<State>, valid: bool) -> (kept: Option<State>)
    ensures
        kept == accepted(stored, valid),
        valid ==> kept == stored,
        !valid ==> kept is None,
{
    if valid {
        stored
    } else {
        None
    }
}

/// Whether `state` is what policy `P` makes of the state `stored` in the journal.
///
/// The policy is shown the stored state itself, and is asked for its default only where
/// nothing is stored or it has turned the stored state down.
pub open spec fn loads<P: BootStatePolicy>(stored: Option<State>, state: State) -> bool {
    match stored {
        Some(found) => {
            ||| call_ensures(P::is_valid_state, (&found,), true) && state == found
            ||| call_ensures(P::is_valid_state, (&found,), false) && call_ensures(
                P::default_state,
                (),
                state,
            )
        },
        None => call_ensures(P::default_state, (), state),
    }
}

/// The state of a device that has never been booted is new, is in slot 0, and has no other
/// slot to fall back to.
pub proof fn law_factory_state_is_new()
    ensures
        factory_state().status is Initial,
        factory_state().target == Slot(0),
        factory_state().backup == factory_state().target,
{
}

/// A valid state is kept as it is, an invalid one is not kept, and none is made up.
pub proof fn law_accepted_as_it_is(stored: Option<State>)
    ensures
        accepted(stored, true) == stored,
        accepted(stored, false) is None,
{
}

/// Where nothing is stored, the state to boot from is one that the policy gives as its
/// default, as it is.
pub proof fn law_empty_journal_gives_the_default<P: BootStatePolicy>(state: State)
    requires
        loads::<P>(None, state),
    ensures
        call_ensures(P::default_state, (), state),
{
}

/// The stored state is booted from only where the policy has found it valid, and the
/// policy's default only where it has not. Both are taken as they are, and there is no third
/// state.
pub proof fn law_stored_or_default<P: BootStatePolicy>(found: State, state: State)
    requires
        loads::<P>(Some(found), state),
    ensures
        state == found || call_ensures(P::default_state, (), state),
        state != found ==> call_ensures(P::is_valid_state, (&found,), false),
        !call_ensures(P::default_state, (), state) ==> call_ensures(
            P::is_valid_state,
            (&found,),
            true,
        ),
{
}

/// A stored state that the policy cannot turn down is the one to boot from. One that it
/// cannot accept gives way to the policy's default.
pub proof fn law_policy_decides<P: BootStatePolicy>(found: State, state: State)
    requires
        loads::<P>(Some(found), state),
    ensures
        !call_ensures(P::is_valid_state, (&found,), false) ==> state == found,
        !call_ensures(P::is_valid_state, (&found,), true) ==> call_ensures(
            P::default_state,
            (),
            state,
        ),
{
}

/// Fetches the state to boot from: the stored one where the policy accepts it, the
/// policy's default otherwise.
pub fn load_state<P: BootStatePolicy>(stored: Option<State>) -> (state: State)
    ensures
        loads::<P>(stored, state),
        stored is None ==> call_ensures(P::default_state, (), state),
        stored matches Some(found) ==> {
            ||| call_ensures(P::is_valid_state, (&found,), true) && state == found
            ||| call_ensures(P::is_valid_state, (&found,), false) && call_ensures(
                P::default_state,
                (),
                state,
            )
        },
{
    let valid = match stored {
        Some(found) => P::is_valid_state(&found),
        None => false,
    };
    match accept_state(stored, valid) {
        Some(found) => found,
        None => P::default_state(),
    }
}

} // verus!
