//! Hand-over of a resource from the setup code to the interrupt handler.
//!
//! Setup offers the resource in a shared slot. The handler claims it into a
//! slot of its own the first time it runs, and from then on is its only
//! holder: the shared slot is empty, and later passes change nothing.

use vstd::prelude::*;

verus! {

/// The two slots after a claim: the handler's slot keeps what it holds, or
/// takes what the shared slot offers and leaves that slot empty.
pub open spec fn claimed<T>(held: Option<T>, shared: Option<T>) -> (Option<T>, Option<T>) {
    if held is Some {
        (held, shared)
    } else {
        (shared, None)
    }
}

/// Moves the offered resource into the handler's slot unless that slot is
/// taken.
pub fn claim<T>(held: &mut Option<T>, shared: &mut Option<T>)
    ensures
        (*final(held), *final(shared)) == claimed(*old(held), *old(shared)),
{
    if held.is_none() {
        *held = shared.take();
    }
}

/// A resource has one holder: where the two slots did not both hold one
/// before a claim, they do not after it, and what was there is still there,
/// in the handler's slot if that was free.
pub proof fn lemma_claim_exclusive<T>(held: Option<T>, shared: Option<T>)
    requires
        held is None || shared is None,
    ensures
        claimed(held, shared).0 is None || claimed(held, shared).1 is None,
        claimed(held, shared).0 == if held is Some {
            held
        } else {
            shared
        },
        claimed(held, shared).1 is None,
{
}

/// Claiming again changes nothing.
pub proof fn lemma_claim_idempotent<T>(held: Option<T>, shared: Option<T>)
    ensures
        claimed(claimed(held, shared).0, claimed(held, shared).1) == claimed(held, shared),
{
}

} // verus!
