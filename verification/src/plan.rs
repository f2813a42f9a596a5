//! Plans: sequences of actions that are done in order.
use vstd::prelude::*;

verus! {

/// The plan that is `action` alone where `wanted`, and empty otherwise.
pub open spec fn optional<A>(wanted: bool, action: A) -> Seq<A> {
    if wanted {
        seq![action]
    } else {
        Seq::empty()
    }
}

} // verus!
