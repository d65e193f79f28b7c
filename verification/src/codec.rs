//! The fixed byte layout of an event record.
//!
//! A stored record is 97 bytes, field after field with nothing between:
//!
//! | bytes   | field                           | encoding                 |
//! |---------|---------------------------------|--------------------------|
//! | 0       | `status`                        | one byte, 0 to 3         |
//! | 1..33   | `payee_identity`                | the 32 bytes             |
//! | 33..65  | `creator_identity`              | the 32 bytes             |
//! | 65..73  | `event_id`                      | least significant first  |
//! | 73..81  | `fix_deposit_amount_per_person` | least significant first  |
//! | 81..89  | `total_participator_count`      | least significant first  |
//! | 89..97  | `participate_amount`            | least significant first  |
//!
//! The layout carries no version and no lengths: a buffer of any other size
//! is not a record.

use crate::error::DecodeError;
use crate::identity::Identity;
use crate::state::{AgreementStatus, RentShareAccount};
use crate::wire;
use vstd::bytes::{
    lemma_auto_spec_u64_to_from_le_bytes, spec_u64_from_le_bytes, spec_u64_to_le_bytes,
};
use vstd::prelude::*;
use vstd::slice::slice_subrange;

verus! {

/// Length in bytes of a stored record.
pub const RECORD_LEN: usize = 97;

/// The bytes that store `record`.
pub open spec fn spec_encode(record: RentShareAccount) -> Seq<u8> {
    seq![record.status.spec_code()] + record.payee_identity@ + record.creator_identity@
        + spec_u64_to_le_bytes(record.event_id) + spec_u64_to_le_bytes(
        record.fix_deposit_amount_per_person,
    ) + spec_u64_to_le_bytes(record.total_participator_count) + spec_u64_to_le_bytes(
        record.participate_amount,
    )
}

/// The record that `bytes` store, or why they store none.
pub open spec fn spec_decode(bytes: Seq<u8>) -> Result<RentShareAccount, DecodeError> {
    if bytes.len() != RECORD_LEN {
        Err(DecodeError::SizeMismatch)
    } else {
        match AgreementStatus::spec_from_code(bytes[0]) {
            None => Err(DecodeError::InvalidStatus),
            Some(status) => Ok(
                RentShareAccount {
                    status,
                    payee_identity: Identity::spec_from_seq(bytes.subrange(1, 33)),
                    creator_identity: Identity::spec_from_seq(bytes.subrange(33, 65)),
                    event_id: spec_u64_from_le_bytes(bytes.subrange(65, 73)),
                    fix_deposit_amount_per_person: spec_u64_from_le_bytes(bytes.subrange(73, 81)),
                    total_participator_count: spec_u64_from_le_bytes(bytes.subrange(81, 89)),
                    participate_amount: spec_u64_from_le_bytes(bytes.subrange(89, 97)),
                },
            ),
        }
    }
}

/// Every record is stored in exactly `RECORD_LEN` bytes.
pub proof fn lemma_encode_len(record: RentShareAccount)
    ensures
        spec_encode(record).len() == RECORD_LEN,
{
    lemma_auto_spec_u64_to_from_le_bytes();
}

/// Decoding what a record was encoded to gives the record back.
pub proof fn lemma_decode_encode(record: RentShareAccount)
    ensures
        spec_decode(spec_encode(record)) == Ok::<RentShareAccount, DecodeError>(record),
{
    lemma_auto_spec_u64_to_from_le_bytes();
    let bytes = spec_encode(record);
    assert(bytes[0] == record.status.spec_code());
    assert(bytes.subrange(1, 33) =~= record.payee_identity@);
    assert(bytes.subrange(33, 65) =~= record.creator_identity@);
    assert(bytes.subrange(65, 73) =~= spec_u64_to_le_bytes(record.event_id));
    assert(bytes.subrange(73, 81) =~= spec_u64_to_le_bytes(
        record.fix_deposit_amount_per_person,
    ));
    assert(bytes.subrange(81, 89) =~= spec_u64_to_le_bytes(record.total_participator_count));
    assert(bytes.subrange(89, 97) =~= spec_u64_to_le_bytes(record.participate_amount));
    record.payee_identity.lemma_from_seq();
    record.creator_identity.lemma_from_seq();
}

/// Encoding what bytes were decoded to gives the bytes back, whenever the
/// identities that the bytes spell out exist.
pub proof fn lemma_encode_decode(bytes: Seq<u8>, record: RentShareAccount)
    requires
        spec_decode(bytes) == Ok::<RentShareAccount, DecodeError>(record),
        record.payee_identity@ == bytes.subrange(1, 33),
        record.creator_identity@ == bytes.subrange(33, 65),
    ensures
        spec_encode(record) == bytes,
{
    lemma_auto_spec_u64_to_from_le_bytes();
    assert(spec_u64_to_le_bytes(record.event_id) == bytes.subrange(65, 73));
    assert(spec_u64_to_le_bytes(record.fix_deposit_amount_per_person) == bytes.subrange(73, 81));
    assert(spec_u64_to_le_bytes(record.total_participator_count) == bytes.subrange(81, 89));
    assert(spec_u64_to_le_bytes(record.participate_amount) == bytes.subrange(89, 97));
    assert(spec_encode(record) =~= bytes);
}

impl RentShareAccount {
    /// Stores the record: `RECORD_LEN` bytes in the fixed layout, from which
    /// `decode` reads the same record again. This never fails.
    pub fn encode(&self) -> (out: Vec<u8>)
        ensures
            out@ == spec_encode(*self),
            out@.len() == RECORD_LEN,
            spec_decode(out@) == Ok::<RentShareAccount, DecodeError>(*self),
    {
        let mut out = wire::u8_to_vec(self.status.code()).unwrap();
        let mut payee = wire::bytes32_to_vec(&self.payee_identity.bytes).unwrap();
        let mut creator = wire::bytes32_to_vec(&self.creator_identity.bytes).unwrap();
        let mut event_id = wire::u64_to_vec(self.event_id).unwrap();
        let mut deposit = wire::u64_to_vec(self.fix_deposit_amount_per_person).unwrap();
        let mut target = wire::u64_to_vec(self.total_participator_count).unwrap();
        let mut amount = wire::u64_to_vec(self.participate_amount).unwrap();
        out.append(&mut payee);
        out.append(&mut creator);
        out.append(&mut event_id);
        out.append(&mut deposit);
        out.append(&mut target);
        out.append(&mut amount);
        proof {
            lemma_encode_len(*self);
            lemma_decode_encode(*self);
        }
        out
    }

    /// Reads a stored record. The buffer must be exactly `RECORD_LEN` bytes
    /// long and its first byte must name a status; every other byte is
    /// accepted as it is.
    pub fn decode(bytes: &[u8]) -> (res: Result<RentShareAccount, DecodeError>)
        ensures
            res == spec_decode(bytes@),
            res matches Ok(record) ==> spec_encode(record) == bytes@,
    {
        if bytes.len() != RECORD_LEN {
            return Err(DecodeError::SizeMismatch);
        }
        let code = wire::u8_from_slice(slice_subrange(bytes, 0, 1));
        let payee = wire::bytes32_from_slice(slice_subrange(bytes, 1, 33));
        let creator = wire::bytes32_from_slice(slice_subrange(bytes, 33, 65));
        let event_id = wire::u64_from_slice(slice_subrange(bytes, 65, 73));
        let deposit = wire::u64_from_slice(slice_subrange(bytes, 73, 81));
        let target = wire::u64_from_slice(slice_subrange(bytes, 81, 89));
        let amount = wire::u64_from_slice(slice_subrange(bytes, 89, 97));
        match (code, payee, creator, event_id, deposit, target, amount) {
            (
                Some(code),
                Some(payee),
                Some(creator),
                Some(event_id),
                Some(deposit),
                Some(target),
                Some(amount),
            ) => {
                match AgreementStatus::from_code(code) {
                    None => Err(DecodeError::InvalidStatus),
                    Some(status) => {
                        let record = RentShareAccount {
                            status,
                            payee_identity: Identity::new(payee),
                            creator_identity: Identity::new(creator),
                            event_id,
                            fix_deposit_amount_per_person: deposit,
                            total_participator_count: target,
                            participate_amount: amount,
                        };
                        proof {
                            record.payee_identity.lemma_from_seq();
                            record.creator_identity.lemma_from_seq();
                            lemma_encode_decode(bytes@, record);
                        }
                        Ok(record)
                    },
                }
            },
            _ => Err(DecodeError::SizeMismatch),
        }
    }
}

} // verus!
