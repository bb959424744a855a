//! The bytes the Secure Enclave signs.
//!
//! ```text
//! offset  size  field
//! 0       16    DOMAIN_TAG          protocol + version, fixed length
//! 16      32    program_id          no replay against another program
//! 48      32    wallet_id           this wallet, not another
//! 80      8     nonce               u64 LE
//! 88      8     expires_at          i64 LE, unix seconds, checked against the clock
//! 96      8     max_relayer_fee     u64 LE, lamports the user approved
//! 104     n     action              the action's encoding, little-endian throughout
//! ```
//!
//! Everything before `action` has a fixed size, so `HEADER_LEN` is a constant
//! and the action always starts at the same offset.

use vstd::prelude::*;
use vstd::bytes::{lemma_auto_spec_u64_to_from_le_bytes, spec_u64_from_le_bytes, spec_u64_to_le_bytes, u64_to_le_bytes};

use crate::action::{action_encoding, lemma_action_encoding_injective, Action};
use crate::bytes::push_bytes;

verus! {

/// Protocol name and version, "enclavekit:v1", padded with zeros to 16 bytes.
pub const DOMAIN_TAG: [u8; 16] = [
    0x65, 0x6e, 0x63, 0x6c, 0x61, 0x76, 0x65, 0x6b, 0x69, 0x74, 0x3a, 0x76, 0x31, 0x00, 0x00, 0x00,
];

/// Size of every field before the action.
pub const HEADER_LEN: usize = 16 + 32 + 32 + 8 + 8 + 8;

pub const PROGRAM_ID_OFFSET: usize = 16;

pub const WALLET_ID_OFFSET: usize = 48;

pub const NONCE_OFFSET: usize = 80;

pub const EXPIRES_AT_OFFSET: usize = 88;

pub const MAX_RELAYER_FEE_OFFSET: usize = 96;

pub const ACTION_OFFSET: usize = HEADER_LEN;

/// The signed message for one action on one wallet.
#[derive(Clone)]
pub struct Preimage<'a> {
    pub program_id: [u8; 32],
    pub wallet_id: [u8; 32],
    pub nonce: u64,
    pub expires_at: i64,
    pub max_relayer_fee: u64,
    pub action: &'a Action,
}

/// The preimage bytes, field by field as the layout above gives them.
pub open spec fn preimage_encoding(
    program_id: [u8; 32],
    wallet_id: [u8; 32],
    nonce: u64,
    expires_at: i64,
    max_relayer_fee: u64,
    action: Action,
) -> Seq<u8> {
    DOMAIN_TAG@ + program_id@ + wallet_id@ + spec_u64_to_le_bytes(nonce) + spec_u64_to_le_bytes(
        expires_at as u64,
    ) + spec_u64_to_le_bytes(max_relayer_fee) + action_encoding(action)
}

impl<'a> Preimage<'a> {
    /// The bytes of this preimage.
    pub open spec fn encoding(&self) -> Seq<u8> {
        preimage_encoding(
            self.program_id,
            self.wallet_id,
            self.nonce,
            self.expires_at,
            self.max_relayer_fee,
            *self.action,
        )
    }

    /// Builds the bytes the enclave signs.
    pub fn to_bytes(&self) -> (r: Vec<u8>)
        ensures
            r@ == self.encoding(),
    {
        let mut out: Vec<u8> = Vec::with_capacity(HEADER_LEN + 128);
        push_bytes(&mut out, DOMAIN_TAG.as_slice());
        push_bytes(&mut out, self.program_id.as_slice());
        push_bytes(&mut out, self.wallet_id.as_slice());
        let nonce = u64_to_le_bytes(self.nonce);
        push_bytes(&mut out, nonce.as_slice());
        let expires_at = u64_to_le_bytes(self.expires_at as u64);
        push_bytes(&mut out, expires_at.as_slice());
        let fee = u64_to_le_bytes(self.max_relayer_fee);
        push_bytes(&mut out, fee.as_slice());
        self.action.serialize(&mut out);
        assert(out@ =~= self.encoding());
        out
    }
}

/// Law: every field sits at the offset the layout gives, and the action
/// fills the rest.
pub proof fn lemma_preimage_layout(
    program_id: [u8; 32],
    wallet_id: [u8; 32],
    nonce: u64,
    expires_at: i64,
    max_relayer_fee: u64,
    action: Action,
)
    ensures
        ({
            let bytes = preimage_encoding(
                program_id,
                wallet_id,
                nonce,
                expires_at,
                max_relayer_fee,
                action,
            );
            &&& bytes.len() == HEADER_LEN + action_encoding(action).len()
            &&& bytes.subrange(0, PROGRAM_ID_OFFSET as int) == DOMAIN_TAG@
            &&& bytes.subrange(PROGRAM_ID_OFFSET as int, WALLET_ID_OFFSET as int) == program_id@
            &&& bytes.subrange(WALLET_ID_OFFSET as int, NONCE_OFFSET as int) == wallet_id@
            &&& bytes.subrange(NONCE_OFFSET as int, EXPIRES_AT_OFFSET as int)
                == spec_u64_to_le_bytes(nonce)
            &&& bytes.subrange(EXPIRES_AT_OFFSET as int, MAX_RELAYER_FEE_OFFSET as int)
                == spec_u64_to_le_bytes(expires_at as u64)
            &&& bytes.subrange(MAX_RELAYER_FEE_OFFSET as int, ACTION_OFFSET as int)
                == spec_u64_to_le_bytes(max_relayer_fee)
            &&& bytes.subrange(ACTION_OFFSET as int, bytes.len() as int) == action_encoding(action)
        }),
{
    lemma_auto_spec_u64_to_from_le_bytes();
    let bytes = preimage_encoding(program_id, wallet_id, nonce, expires_at, max_relayer_fee, action);
    assert(spec_u64_to_le_bytes(nonce).len() == 8);
    assert(spec_u64_to_le_bytes(expires_at as u64).len() == 8);
    assert(spec_u64_to_le_bytes(max_relayer_fee).len() == 8);
    assert(bytes.subrange(0, 16) =~= DOMAIN_TAG@);
    assert(bytes.subrange(16, 48) =~= program_id@);
    assert(bytes.subrange(48, 80) =~= wallet_id@);
    assert(bytes.subrange(80, 88) =~= spec_u64_to_le_bytes(nonce));
    assert(bytes.subrange(88, 96) =~= spec_u64_to_le_bytes(expires_at as u64));
    assert(bytes.subrange(96, 104) =~= spec_u64_to_le_bytes(max_relayer_fee));
    assert(bytes.subrange(104, bytes.len() as int) =~= action_encoding(action));
}

/// Law: the preimage binds every field. Two preimages with the same bytes
/// agree on the program, the wallet, the nonce, the expiry, the fee cap and
/// the action, so changing any of them changes the bytes.
pub proof fn lemma_preimage_injective(p: Preimage, q: Preimage)
    requires
        p.encoding() == q.encoding(),
    ensures
        p.program_id == q.program_id,
        p.wallet_id == q.wallet_id,
        p.nonce == q.nonce,
        p.expires_at == q.expires_at,
        p.max_relayer_fee == q.max_relayer_fee,
        *p.action == *q.action,
{
    lemma_auto_spec_u64_to_from_le_bytes();
    lemma_preimage_layout(p.program_id, p.wallet_id, p.nonce, p.expires_at, p.max_relayer_fee, *p.action);
    lemma_preimage_layout(q.program_id, q.wallet_id, q.nonce, q.expires_at, q.max_relayer_fee, *q.action);
    let b = p.encoding();
    assert(p.program_id =~= q.program_id);
    assert(p.wallet_id =~= q.wallet_id);
    assert(spec_u64_from_le_bytes(spec_u64_to_le_bytes(p.nonce)) == p.nonce);
    assert(spec_u64_from_le_bytes(spec_u64_to_le_bytes(q.nonce)) == q.nonce);
    assert(spec_u64_from_le_bytes(spec_u64_to_le_bytes(p.max_relayer_fee)) == p.max_relayer_fee);
    assert(spec_u64_from_le_bytes(spec_u64_to_le_bytes(q.max_relayer_fee)) == q.max_relayer_fee);
    let pe = p.expires_at;
    let qe = q.expires_at;
    assert(spec_u64_from_le_bytes(spec_u64_to_le_bytes(pe as u64)) == pe as u64);
    assert(spec_u64_from_le_bytes(spec_u64_to_le_bytes(qe as u64)) == qe as u64);
    assert((pe as u64) == (qe as u64) ==> pe == qe) by (bit_vector);
    lemma_action_encoding_injective(*p.action, *q.action);
}

} // verus!
