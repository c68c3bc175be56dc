//! The identities under which callers act.

use vstd::prelude::*;

verus! {

/// The number of bytes in an identity.
pub const IDENTITY_BYTES: usize = 32;

/// The identity of a caller: a public key of [`IDENTITY_BYTES`] bytes.
///
/// Its view is the sequence of those bytes, and two identities are the same
/// exactly when their bytes are.
#[derive(Clone, Copy, Debug)]
pub struct Identity {
    bytes: [u8; IDENTITY_BYTES],
}

impl View for Identity {
    type V = Seq<u8>;

    closed spec fn view(&self) -> Seq<u8> {
        self.bytes@
    }
}

impl Identity {
    /// The identity with the given bytes.
    pub fn new(bytes: [u8; IDENTITY_BYTES]) -> (id: Identity)
        ensures
            id@ == bytes@,
    {
        Identity { bytes }
    }

    /// The bytes of this identity.
    pub fn to_bytes(&self) -> (bytes: [u8; IDENTITY_BYTES])
        ensures
            bytes@ == self@,
    {
        self.bytes
    }

    /// Every identity has [`IDENTITY_BYTES`] bytes.
    pub proof fn lemma_length(self)
        ensures
            self@.len() == IDENTITY_BYTES,
    {
    }

    /// An identity is determined by its bytes: two identities with the same
    /// bytes are one identity.
    pub proof fn lemma_determined_by_bytes(self, other: Identity)
        ensures
            self@ == other@ <==> self == other,
    {
        if self@ == other@ {
            assert(self.bytes@ =~= other.bytes@);
            assert(self.bytes == other.bytes);
        }
    }
}

impl PartialEq for Identity {
    /// Compares the two identities byte by byte.
    fn eq(&self, other: &Identity) -> (same: bool) {
        let mut i: usize = 0;
        while i < IDENTITY_BYTES
            invariant
                i <= IDENTITY_BYTES,
                forall|j: int| 0 <= j < i ==> self.bytes@[j] == other.bytes@[j],
            decreases IDENTITY_BYTES - i,
        {
            if self.bytes[i] != other.bytes[i] {
                return false;
            }
            i += 1;
        }
        assert(self@ =~= other@);
        true
    }
}

impl Eq for Identity {

}

impl vstd::std_specs::cmp::PartialEqSpecImpl for Identity {
    open spec fn obeys_eq_spec() -> bool {
        true
    }

    open spec fn eq_spec(&self, other: &Identity) -> bool {
        self@ == other@
    }
}

} // verus!
