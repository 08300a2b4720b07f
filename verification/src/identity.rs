//! Identities of users, authorities and records.

use vstd::prelude::*;

verus! {

/// A 32-byte identity. The all-zero identity marks a record that nobody owns yet.
#[derive(Debug, Clone, Copy, Eq)]
pub struct Identity {
    pub bytes: [u8; 32],
}

impl PartialEq for Identity {
    /// Two identities are equal when all their bytes are.
    fn eq(&self, other: &Identity) -> (same: bool) {
        let mut i: usize = 0;
        while i < 32
            invariant
                i <= 32,
                forall|j: int| 0 <= j < i ==> self.bytes[j] == other.bytes[j],
            decreases 32 - i,
        {
            if self.bytes[i] != other.bytes[i] {
                return false;
            }
            i += 1;
        }
        assert(self.bytes =~= other.bytes);
        true
    }
}

impl vstd::std_specs::cmp::PartialEqSpecImpl for Identity {
    open spec fn obeys_eq_spec() -> bool {
        true
    }

    open spec fn eq_spec(&self, other: &Identity) -> bool {
        *self == *other
    }
}

impl Identity {
    /// All 32 bytes are zero.
    pub open spec fn is_unset(&self) -> bool {
        forall|i: int| 0 <= i < 32 ==> self.bytes[i] == 0
    }

    /// The all-zero identity.
    pub fn unset() -> (id: Identity)
        ensures
            id.is_unset(),
    {
        Identity { bytes: [0u8; 32] }
    }

    /// Whether this is the all-zero identity.
    pub fn check_unset(&self) -> (unset: bool)
        ensures
            unset == self.is_unset(),
    {
        let mut i: usize = 0;
        while i < 32
            invariant
                i <= 32,
                forall|j: int| 0 <= j < i ==> self.bytes[j] == 0,
            decreases 32 - i,
        {
            if self.bytes[i] != 0 {
                return false;
            }
            i += 1;
        }
        true
    }
}

/// There is one unset identity only.
pub proof fn lemma_unset_is_unique(a: Identity, b: Identity)
    requires
        a.is_unset(),
        b.is_unset(),
    ensures
        a == b,
{
    assert(a.bytes =~= b.bytes);
}

} // verus!
