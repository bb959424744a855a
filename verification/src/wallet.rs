//! The wallet identity.

use vstd::prelude::*;
use sha2::{Digest, Sha256};

use crate::constants::COMPRESSED_PUBKEY_LEN;

verus! {

/// SHA-256 of `data`, as `sha2::Sha256` computes it.
pub uninterp spec fn sha256(data: Seq<u8>) -> Seq<u8>;

/// The identity of the wallet first controlled by `compressed_pubkey`: the
/// SHA-256 digest of the compressed key.
///
/// Calls `sha2::Sha256::digest` and converts the 32-byte digest to an array.
/// The contract claims only that the result is `sha256` of the key's bytes;
/// what SHA-256 computes is left to the `sha2` crate.
#[verifier::external_body]
pub fn wallet_id(compressed_pubkey: &[u8; COMPRESSED_PUBKEY_LEN]) -> (id: [u8; 32])
    ensures
        id@ == sha256(compressed_pubkey@),
{
    Sha256::digest(compressed_pubkey).into()
}

} // verus!
