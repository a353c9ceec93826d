//! Entity identities: a process-unique random token, assigned exactly once
//! when an entity is inserted into the aggregate. The parser leaves entities
//! with the nil identity; the aggregate replaces it at insertion and never
//! afterwards.

use vstd::prelude::*;

verus! {

/// A 128-bit identity token, split into two halves.
#[derive(Debug, Clone, Copy, PartialEq, Eq, Structural, Hash)]
pub struct Identity {
    pub hi: u64,
    pub lo: u64,
}

impl Identity {
    /// The nil identity: the placeholder entities carry between parsing and
    /// insertion. It is never assigned to a stored entity.
    pub open spec fn spec_nil() -> Identity {
        Identity { hi: 0, lo: 0 }
    }

    pub open spec fn spec_is_nil(self) -> bool {
        self.hi == 0 && self.lo == 0
    }

    pub fn nil() -> (r: Identity)
        ensures
            r == Identity::spec_nil(),
    {
        Identity { hi: 0, lo: 0 }
    }

    pub fn is_nil(&self) -> (r: bool)
        ensures
            r == self.spec_is_nil(),
    {
        self.hi == 0 && self.lo == 0
    }
}

/// Relies on `uuid::Uuid::new_v4` (and `as_u128` to read the bits): a fresh
/// random version-4 UUID. Its version nibble is always 4, so the token is
/// never nil. Nothing further holds of the value: two calls may return
/// anything. The call draws from the operating system's randomness source
/// and panics if that source fails — an environment fault of the same class
/// as running out of memory, which no `requires` can exclude.
#[verifier::external_body]
pub(crate) fn fresh_identity() -> (r: Identity)
    ensures
        r.hi & 0xF000 == 0x4000,
        !r.spec_is_nil(),
{
    let v: u128 = uuid::Uuid::new_v4().as_u128();
    Identity { hi: (v >> 64) as u64, lo: v as u64 }
}

} // verus!
