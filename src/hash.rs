//! Keccak-256, computed by `alloy_primitives`.
use vstd::prelude::*;
use crate::types::B256;

verus! {

/// The Keccak-256 digest of a byte string.
pub uninterp spec fn keccak256_of(data: Seq<u8>) -> B256;

/// Relies on `alloy_primitives::keccak256`: the digest depends on the bytes alone.
/// The 32 bytes of the digest are read big-endian into the two halves.
#[verifier::external_body]
pub(crate) fn keccak256(data: &[u8]) -> (r: B256)
    ensures
        r == keccak256_of(data@),
{
    let h = alloy_primitives::keccak256(data);
    let high: [u8; 16] = h.0[..16].try_into().unwrap();
    let low: [u8; 16] = h.0[16..].try_into().unwrap();
    B256 { high: u128::from_be_bytes(high), low: u128::from_be_bytes(low) }
}

} // verus!
