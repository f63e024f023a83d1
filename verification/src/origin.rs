//! Origin classification and the access guard: the pure predicate layer
//! that every operation runs before touching any state.

use vstd::prelude::*;

verus! {

/// The authenticated classification of a call's sender: the privileged
/// root authority, an ordinary actor who signed the call, or a call that
/// carries no authentication at all.
#[derive(Clone, Copy, Debug, PartialEq, Eq, Structural)]
pub enum Origin {
    /// The privileged governance/administrative origin.
    Root,
    /// A call signed by the actor with the given identity.
    Signed(u64),
    /// A call with no authentication; rejected by every operation.
    Unauthenticated,
}

/// Every way a call into the pallet can fail. All failures are terminal
/// and synchronous: the call returns the error, changes no state, and
/// emits no event.
#[derive(Clone, Copy, Debug, PartialEq, Eq, Structural)]
pub enum Error {
    /// The caller's origin does not grant the requested operation.
    BadOrigin,
    /// The counter value would exceed the configured maximum.
    CounterValueExceedsMax,
    /// The counter value cannot be decremented below zero.
    CounterValueBelowZero,
    /// Overflow occurred in the counter arithmetic.
    CounterOverflow,
    /// Overflow occurred in an actor's interaction count.
    UserInteractionOverflow,
}

/// Admits only the root origin; rejects everything else with `BadOrigin`.
/// No side effects.
pub fn require_root(origin: Origin) -> (r: Result<(), Error>)
    ensures
        r is Ok <==> origin is Root,
        r is Err ==> r == Err::<(), Error>(Error::BadOrigin),
{
    match origin {
        Origin::Root => Ok(()),
        _ => Err(Error::BadOrigin),
    }
}

/// Admits only a signed origin, yielding the signing actor's identity;
/// rejects everything else with `BadOrigin`. No side effects.
pub fn require_signed(origin: Origin) -> (r: Result<u64, Error>)
    ensures
        r is Ok <==> origin is Signed,
        r matches Ok(who) ==> origin == Origin::Signed(who),
        origin matches Origin::Signed(who) ==> r == Ok::<u64, Error>(who),
        r is Err ==> r == Err::<u64, Error>(Error::BadOrigin),
{
    match origin {
        Origin::Signed(who) => Ok(who),
        _ => Err(Error::BadOrigin),
    }
}

} // verus!
