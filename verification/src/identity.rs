//! Authorization identities.

use vstd::prelude::*;
use vstd::std_specs::cmp::PartialEqSpecImpl;

verus! {

/// Number of bytes of an identity.
pub const IDENTITY_LEN: usize = 32;

/// An externally verifiable identity, the equivalent of a public key. Two
/// identities are the same when their bytes are.
#[derive(Clone, Copy, Debug)]
pub struct Identity {
    pub bytes: [u8; IDENTITY_LEN],
}

impl View for Identity {
    type V = Seq<u8>;

    open spec fn view(&self) -> Seq<u8> {
        self.bytes@
    }
}

impl Identity {
    /// The identity whose bytes are `bytes`, for a sequence of 32 bytes.
    pub open spec fn spec_from_seq(bytes: Seq<u8>) -> Identity {
        choose|id: Identity| id@ == bytes
    }

    /// An identity is the one that its own bytes spell out.
    pub proof fn lemma_from_seq(self)
        ensures
            Identity::spec_from_seq(self@) == self,
            self@.len() == IDENTITY_LEN,
    {
        let chosen = Identity::spec_from_seq(self@);
        assert(chosen@ == self@);
        assert(chosen.bytes =~= self.bytes);
    }

    /// The identity made of the given bytes.
    pub fn new(bytes: [u8; IDENTITY_LEN]) -> (id: Identity)
        ensures
            id.bytes == bytes,
    {
        Identity { bytes }
    }

    /// The bytes of the identity, in order.
    pub fn to_bytes(&self) -> (bytes: [u8; IDENTITY_LEN])
        ensures
            bytes == self.bytes,
    {
        self.bytes
    }
}

impl PartialEq for Identity {
    fn eq(&self, other: &Identity) -> (same: bool) {
        let mut i: usize = 0;
        while i < IDENTITY_LEN
            invariant
                i <= IDENTITY_LEN,
                forall|j: int| 0 <= j < i ==> self.bytes[j] == other.bytes[j],
            decreases IDENTITY_LEN - i,
        {
            if self.bytes[i] != other.bytes[i] {
                return false;
            }
            i += 1;
        }
        proof {
            assert(self.bytes =~= other.bytes);
        }
        true
    }
}

impl Eq for Identity {

}

impl PartialEqSpecImpl for Identity {
    open spec fn obeys_eq_spec() -> bool {
        true
    }

    open spec fn eq_spec(&self, other: &Identity) -> bool {
        *self == *other
    }
}

} // verus!
