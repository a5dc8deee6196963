//! Caller and account identities, and the authorization guard.
//!
//! An identity is an opaque 32-byte value established by the host's
//! signature-verification substrate before the core runs. The core never
//! authenticates an identity; it only compares identities for equality.

use vstd::prelude::*;

verus! {

/// An opaque, pre-verified 32-byte identity.
#[derive(Clone, Copy, Debug, PartialEq, Eq, Hash)]
pub struct Identity {
    pub bytes: [u8; 32],
}

/// Two identities are the same exactly when their byte sequences agree.
pub open spec fn spec_same_identity(a: Identity, b: Identity) -> bool {
    a.bytes@ == b.bytes@
}

/// Byte-for-byte identity comparison.
pub fn identity_eq(a: &Identity, b: &Identity) -> (r: bool)
    ensures
        r == spec_same_identity(*a, *b),
{
    let mut i: usize = 0;
    while i < 32
        invariant
            i <= 32,
            forall|j: int| 0 <= j < i ==> a.bytes@[j] == b.bytes@[j],
        decreases 32 - i,
    {
        if a.bytes[i] != b.bytes[i] {
            return false;
        }
        i += 1;
    }
    proof {
        assert(a.bytes@ =~= b.bytes@);
    }
    true
}

/// The authorization guard: a caller may touch a record exactly when its
/// identity equals the record's recorded owner. Pure comparison, no side
/// effects.
pub fn authorize(caller_identity: &Identity, record_owner: &Identity) -> (r: bool)
    ensures
        r == spec_same_identity(*caller_identity, *record_owner),
{
    identity_eq(caller_identity, record_owner)
}

} // verus!
