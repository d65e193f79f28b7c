//! The borsh calls that put single fields on the wire and take them off it.
//! Nothing here is proved: each contract restates what borsh does for one
//! field type.

use vstd::bytes::{spec_u64_from_le_bytes, spec_u64_to_le_bytes};
use vstd::prelude::*;

verus! {

/// `borsh::to_vec` on a `u8`. Borsh writes the byte itself, and writing into
/// a vector does not fail.
#[verifier::external_body]
pub(crate) fn u8_to_vec(value: u8) -> (out: Option<Vec<u8>>)
    ensures
        out is Some,
        out->0@ == seq![value],
{
    borsh::to_vec(&value).ok()
}

/// `borsh::to_vec` on a `u64`. Borsh writes the eight bytes of the number,
/// least significant first, and writing into a vector does not fail.
#[verifier::external_body]
pub(crate) fn u64_to_vec(value: u64) -> (out: Option<Vec<u8>>)
    ensures
        out is Some,
        out->0@ == spec_u64_to_le_bytes(value),
{
    borsh::to_vec(&value).ok()
}

/// `borsh::to_vec` on an array of 32 bytes. Borsh writes the bytes in order
/// with no length in front, and writing into a vector does not fail.
#[verifier::external_body]
pub(crate) fn bytes32_to_vec(value: &[u8; 32]) -> (out: Option<Vec<u8>>)
    ensures
        out is Some,
        out->0@ == value@,
{
    borsh::to_vec(value).ok()
}

/// `borsh::from_slice` for a `u8`. Borsh accepts exactly one byte and
/// returns it; any other length is an error.
#[verifier::external_body]
pub(crate) fn u8_from_slice(bytes: &[u8]) -> (out: Option<u8>)
    ensures
        bytes@.len() == 1 ==> out == Some(bytes@[0]),
        bytes@.len() != 1 ==> out is None,
{
    borsh::from_slice::<u8>(bytes).ok()
}

/// `borsh::from_slice` for a `u64`. Borsh accepts exactly eight bytes and
/// reads them least significant first; any other length is an error.
#[verifier::external_body]
pub(crate) fn u64_from_slice(bytes: &[u8]) -> (out: Option<u64>)
    ensures
        bytes@.len() == 8 ==> out == Some(spec_u64_from_le_bytes(bytes@)),
        bytes@.len() != 8 ==> out is None,
{
    borsh::from_slice::<u64>(bytes).ok()
}

/// `borsh::from_slice` for an array of 32 bytes. Borsh accepts exactly 32
/// bytes and returns them in order; any other length is an error.
#[verifier::external_body]
pub(crate) fn bytes32_from_slice(bytes: &[u8]) -> (out: Option<[u8; 32]>)
    ensures
        bytes@.len() == 32 ==> out is Some && out->0@ == bytes@,
        bytes@.len() != 32 ==> out is None,
{
    borsh::from_slice::<[u8; 32]>(bytes).ok()
}

} // verus!
