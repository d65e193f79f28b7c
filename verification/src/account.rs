//! What the host hands over with a command: the storage of the record, and
//! what the caller presented.

use crate::identity::Identity;
use vstd::prelude::*;

verus! {

/// The storage of one record: the authority that owns it and its bytes.
#[derive(Clone, Debug, PartialEq, Eq)]
pub struct RecordAccount {
    /// The authority permitted to change the bytes.
    pub owner: Identity,
    /// The stored record.
    pub data: Vec<u8>,
}

/// A record's storage as a mathematical value.
pub struct RecordAccountView {
    pub owner: Identity,
    pub data: Seq<u8>,
}

impl View for RecordAccount {
    type V = RecordAccountView;

    open spec fn view(&self) -> RecordAccountView {
        RecordAccountView { owner: self.owner, data: self.data@ }
    }
}

/// What the caller presented with a command.
#[derive(Clone, Debug, PartialEq, Eq)]
pub struct Context {
    /// The identities for which a valid signing capability was presented.
    pub signers: Vec<Identity>,
    /// The balance available to the funding party of a payment.
    pub available_balance: u64,
}

impl Context {
    /// Whether a valid signing capability was presented for `identity`.
    pub open spec fn spec_is_authorized(&self, identity: Identity) -> bool {
        self.signers@.contains(identity)
    }

    /// Whether a valid signing capability was presented for `identity`.
    pub fn is_authorized(&self, identity: &Identity) -> (yes: bool)
        ensures
            yes == self.spec_is_authorized(*identity),
    {
        let mut i: usize = 0;
        while i < self.signers.len()
            invariant
                i <= self.signers.len(),
                forall|j: int| 0 <= j < i ==> self.signers@[j] != *identity,
            decreases self.signers.len() - i,
        {
            if self.signers[i] == *identity {
                return true;
            }
            i += 1;
        }
        false
    }
}

} // verus!
