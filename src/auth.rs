//! The authorization gate: every mutating call names the principal that the
//! host has authenticated, and proceeds only if it is the one required.
use vstd::prelude::*;

verus! {

/// An opaque identity: an account owner, an administrator, a contract.
#[derive(Clone, Copy, Debug, PartialEq, Eq, Structural, Hash)]
pub struct Principal {
    pub id: u64,
}

impl Principal {
    pub fn new(id: u64) -> (r: Principal)
        ensures
            r.id == id,
    {
        Principal { id }
    }
}

/// Whether the authenticated caller `claimed` is the principal `required`.
pub fn authorized(claimed: Principal, required: Principal) -> (r: bool)
    ensures
        r == (claimed == required),
{
    claimed == required
}

} // verus!
