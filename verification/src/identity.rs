//! Identities of the parties and assets that a stream refers to.

use vstd::prelude::*;

verus! {

/// Length of an identity in bytes.
pub const IDENTITY_LEN: usize = 32;

/// An opaque 32-byte handle naming a party, an asset or an account.
///
/// The ledger never looks inside an identity: it only stores identities and
/// compares them.
#[derive(Clone, Copy, Debug, Eq)]
pub struct Identity {
    /// The bytes of the handle.
    pub bytes: [u8; 32],
}

impl Identity {
    /// The identity made of the given bytes.
    pub fn new(bytes: [u8; 32]) -> (id: Identity)
        ensures
            id.bytes == bytes,
    {
        Identity { bytes }
    }

    /// The bytes of this identity.
    pub fn to_bytes(&self) -> (bytes: [u8; 32])
        ensures
            bytes == self.bytes,
    {
        self.bytes
    }

    /// Whether two identities name the same party.
    pub fn same_as(&self, other: &Identity) -> (same: bool)
        ensures
            same == (*self == *other),
    {
        let mut i: usize = 0;
        while i < IDENTITY_LEN
            invariant
                i <= IDENTITY_LEN,
                forall|j: int| 0 <= j < i ==> self.bytes[j] == other.bytes[j],
            decreases IDENTITY_LEN - i,
        {
            if self.bytes[i] != other.bytes[i] {
                return false;
            }
            i += 1;
        }
        assert(self.bytes =~= other.bytes);
        true
    }
}

impl PartialEq for Identity {
    fn eq(&self, other: &Identity) -> (same: bool) {
        self.same_as(other)
    }
}

impl vstd::std_specs::cmp::PartialEqSpecImpl for Identity {
    open spec fn obeys_eq_spec() -> bool {
        true
    }

    open spec fn eq_spec(&self, other: &Identity) -> bool {
        *self == *other
    }
}

impl Default for Identity {
    /// The identity whose bytes are all zero.
    fn default() -> (id: Identity)
        ensures
            forall|i: int| 0 <= i < 32 ==> id.bytes[i] == 0u8,
    {
        Identity { bytes: [0u8; 32] }
    }
}

} // verus!
