//! Identities of the parties that own records.

use vstd::prelude::*;
use vstd::std_specs::cmp::PartialEqSpecImpl;

verus! {

/// Number of bytes in a [`Principal`].
pub const PRINCIPAL_BYTES: usize = 32;

/// The identity of a party: an opaque key of thirty-two bytes.
///
/// Two principals are the same party exactly when their bytes agree.
#[derive(Clone, Copy, Debug, Eq, Hash)]
pub struct Principal {
    pub bytes: [u8; 32],
}

impl Principal {
    /// The principal with the given key bytes.
    pub fn new(bytes: [u8; 32]) -> (p: Principal)
        ensures
            p.bytes == bytes,
    {
        Principal { bytes }
    }

    /// The key bytes of this principal.
    pub fn to_bytes(&self) -> (bytes: [u8; 32])
        ensures
            bytes == self.bytes,
    {
        self.bytes
    }
}

impl PartialEq for Principal {
    fn eq(&self, other: &Principal) -> (same: bool) {
        let mut i: usize = 0;
        while i < PRINCIPAL_BYTES
            invariant
                i <= PRINCIPAL_BYTES,
                forall|j: int| 0 <= j < i ==> self.bytes[j] == other.bytes[j],
            decreases PRINCIPAL_BYTES - i,
        {
            if self.bytes[i] != other.bytes[i] {
                return false;
            }
            i += 1;
        }
        assert(self.bytes =~= other.bytes);
        true
    }
}

impl PartialEqSpecImpl for Principal {
    open spec fn obeys_eq_spec() -> bool {
        true
    }

    open spec fn eq_spec(&self, other: &Principal) -> bool {
        *self == *other
    }
}

} // verus!
