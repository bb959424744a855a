//! Checking an enclave-signed authorization against the wallet.

use vstd::prelude::*;
use solana_sha256_hasher::hash;

use crate::action::Action;
use crate::bytes::bytes_equal;
use crate::constants::{COMPRESSED_PUBKEY_LEN, PROGRAM_ID};
use crate::error::{EnclaveKitError, HandlerError};
use crate::precompile::{
    load_secp256r1_payload, precompile_failure, precompile_message, precompile_pubkey,
    PrecedingInstruction,
};
use crate::preimage::{preimage_encoding, Preimage};
use crate::state::{is_zero_key, key_is_zero, Guardian, SmartWallet};

verus! {

/// The signed header every enclave-authorised instruction carries.
#[derive(Clone, Copy, PartialEq, Eq, Debug)]
pub struct Authorization {
    pub wallet_id: [u8; 32],
    pub nonce: u64,
    pub expires_at: i64,
    pub max_relayer_fee: u64,
}

/// SHA-256 of `data`, as `solana_sha256_hasher::hash` computes it.
pub uninterp spec fn solana_sha256(data: Seq<u8>) -> Seq<u8>;

/// Calls `solana_sha256_hasher::hash` on the key and returns the digest's
/// bytes. The contract claims only that the digest is `solana_sha256` of the
/// key's bytes.
#[verifier::external_body]
fn hash_key(key: &[u8; COMPRESSED_PUBKEY_LEN]) -> (digest: [u8; 32])
    ensures
        digest@ == solana_sha256(key@),
{
    hash(key).to_bytes()
}

/// The key whose bytes are `bytes`.
pub open spec fn key_of(bytes: Seq<u8>) -> [u8; COMPRESSED_PUBKEY_LEN] {
    choose|key: [u8; COMPRESSED_PUBKEY_LEN]| key@ == bytes
}

proof fn lemma_key_of(key: [u8; COMPRESSED_PUBKEY_LEN])
    ensures
        key_of(key@) == key,
{
    let k = key_of(key@);
    assert(k@ == key@);
    assert(k =~= key);
}

/// The state a wallet starts from on its first authorised action.
pub open spec fn fresh_wallet(
    wallet_id: [u8; 32],
    key: [u8; COMPRESSED_PUBKEY_LEN],
    state_bump: u8,
    vault_bump: u8,
) -> SmartWallet {
    SmartWallet {
        wallet_id,
        active_key: key,
        nonce: 0,
        attested: false,
        rotation: None,
        guardians: [Guardian::Empty, Guardian::Empty, Guardian::Empty],
        state_bump,
        vault_bump,
    }
}

/// What checking `auth` and `action` against `wallet` gives: the wallet as
/// the checks leave it, and the key that signed or the first check that
/// fails.
///
/// A wallet never used takes the signing key as its active key, provided
/// the key hashes to `auth.wallet_id`; it is reset to a fresh wallet before
/// the nonce, expiry and preimage checks, and stays so when one of them
/// fails. On success the nonce is consumed.
pub open spec fn authorization_outcome(
    wallet: SmartWallet,
    instruction: PrecedingInstruction,
    auth: Authorization,
    action: Action,
    state_bump: u8,
    vault_bump: u8,
    now: i64,
) -> (SmartWallet, Result<[u8; COMPRESSED_PUBKEY_LEN], HandlerError>) {
    match precompile_failure(instruction) {
        Some(e) => (wallet, Err(HandlerError::Program(e))),
        None => {
            let key = key_of(precompile_pubkey(instruction));
            let unused = key_is_zero(wallet.active_key);
            if unused && solana_sha256(precompile_pubkey(instruction)) != auth.wallet_id@ {
                (wallet, Err(HandlerError::Program(EnclaveKitError::WalletIdMismatch)))
            } else {
                let w = if unused {
                    fresh_wallet(auth.wallet_id, key, state_bump, vault_bump)
                } else {
                    wallet
                };
                if auth.nonce != w.nonce {
                    (w, Err(HandlerError::Program(EnclaveKitError::NonceMismatch)))
                } else if auth.expires_at <= now {
                    (w, Err(HandlerError::Program(EnclaveKitError::AuthorizationExpired)))
                } else if preimage_encoding(
                    PROGRAM_ID,
                    auth.wallet_id,
                    auth.nonce,
                    auth.expires_at,
                    auth.max_relayer_fee,
                    action,
                ) != precompile_message(instruction) {
                    (w, Err(HandlerError::Program(EnclaveKitError::PreimageMismatch)))
                } else if w.nonce == u64::MAX {
                    (w, Err(HandlerError::ArithmeticOverflow))
                } else {
                    (SmartWallet { nonce: (w.nonce + 1) as u64, ..w }, Ok(key))
                }
            }
        },
    }
}

/// Whether two keys are the same key.
pub fn same_key(a: &[u8; COMPRESSED_PUBKEY_LEN], b: &[u8; COMPRESSED_PUBKEY_LEN]) -> (r: bool)
    ensures
        r == (*a == *b),
{
    let r = bytes_equal(a.as_slice(), b.as_slice());
    proof {
        if r {
            assert(*a =~= *b);
        }
    }
    r
}

/// Checks the enclave's signed authorization of `action` and consumes the
/// wallet's nonce.
///
/// Reads the precompile instruction that precedes this one; on a wallet
/// never used, installs the signing key if it hashes to `auth.wallet_id`;
/// then requires the wallet's nonce, an expiry after `now`, and a signed
/// message equal to the preimage of `auth` and `action`. Returns the key that
/// signed.
pub fn verify_enclave_authorization(
    wallet: &mut SmartWallet,
    instruction: &PrecedingInstruction,
    auth: &Authorization,
    action: &Action,
    state_bump: u8,
    vault_bump: u8,
    now: i64,
) -> (r: Result<[u8; COMPRESSED_PUBKEY_LEN], HandlerError>)
    ensures
        ({
            let (w, result) = authorization_outcome(
                *old(wallet),
                *instruction,
                *auth,
                *action,
                state_bump,
                vault_bump,
                now,
            );
            &&& r == result
            &&& *final(wallet) == w
        }),
{
    let payload = match load_secp256r1_payload(instruction) {
        Ok(payload) => payload,
        Err(e) => {
            return Err(HandlerError::Program(e));
        },
    };
    proof {
        lemma_key_of(payload.pubkey);
    }
    if is_zero_key(&wallet.active_key) {
        let digest = hash_key(&payload.pubkey);
        if !bytes_equal(digest.as_slice(), auth.wallet_id.as_slice()) {
            return Err(HandlerError::Program(EnclaveKitError::WalletIdMismatch));
        }
        *wallet = SmartWallet {
            wallet_id: auth.wallet_id,
            active_key: payload.pubkey,
            nonce: 0,
            attested: false,
            rotation: None,
            guardians: [Guardian::Empty, Guardian::Empty, Guardian::Empty],
            state_bump,
            vault_bump,
        };
    }
    if auth.nonce != wallet.nonce {
        return Err(HandlerError::Program(EnclaveKitError::NonceMismatch));
    }
    if !(auth.expires_at > now) {
        return Err(HandlerError::Program(EnclaveKitError::AuthorizationExpired));
    }
    let expected = Preimage {
        program_id: PROGRAM_ID,
        wallet_id: auth.wallet_id,
        nonce: auth.nonce,
        expires_at: auth.expires_at,
        max_relayer_fee: auth.max_relayer_fee,
        action,
    };
    let expected_bytes = expected.to_bytes();
    if !bytes_equal(expected_bytes.as_slice(), payload.message.as_slice()) {
        return Err(HandlerError::Program(EnclaveKitError::PreimageMismatch));
    }
    if wallet.nonce == u64::MAX {
        return Err(HandlerError::ArithmeticOverflow);
    }
    wallet.nonce = wallet.nonce + 1;
    Ok(payload.pubkey)
}

/// For instructions only the active key may authorise.
pub fn require_active_key(wallet: &SmartWallet, signer: &[u8; COMPRESSED_PUBKEY_LEN]) -> (r: Result<
    (),
    EnclaveKitError,
>)
    ensures
        *signer == wallet.active_key ==> r is Ok,
        *signer != wallet.active_key ==> r == Err::<(), EnclaveKitError>(
            EnclaveKitError::KeyMismatch,
        ),
{
    if !same_key(signer, &wallet.active_key) {
        return Err(EnclaveKitError::KeyMismatch);
    }
    Ok(())
}

/// The lamports a relayer asking `relayer_fee` gets back from the vault:
/// what it asked, never more than the `max_relayer_fee` the enclave signed.
pub open spec fn refund_amount(relayer_fee: u64, max_relayer_fee: u64) -> u64 {
    if relayer_fee <= max_relayer_fee {
        relayer_fee
    } else {
        max_relayer_fee
    }
}

/// The lamports the vault pays the relayer back: its requested fee, never
/// more than the enclave signed.
pub fn refund_relayer(relayer_fee: u64, max_relayer_fee: u64) -> (r: u64)
    ensures
        r == refund_amount(relayer_fee, max_relayer_fee),
        r <= max_relayer_fee,
        r <= relayer_fee,
{
    if relayer_fee <= max_relayer_fee {
        relayer_fee
    } else {
        max_relayer_fee
    }
}

/// Law: an authorization is consumed by its use. Once `auth` has been
/// accepted on `wallet`, presenting it again, on the wallet it left and with
/// the same signed instruction, is refused as a replay, whatever the time,
/// and leaves that wallet as it is.
/// (An all-zero signing key is left out: on such a key the wallet would
/// read as never used again.)
pub proof fn lemma_no_replay(
    wallet: SmartWallet,
    instruction: PrecedingInstruction,
    auth: Authorization,
    action: Action,
    state_bump: u8,
    vault_bump: u8,
    now: i64,
    later: i64,
)
    requires
        !key_is_zero(key_of(precompile_pubkey(instruction))),
    ensures
        ({
            let (after, result) = authorization_outcome(
                wallet,
                instruction,
                auth,
                action,
                state_bump,
                vault_bump,
                now,
            );
            result is Ok ==> authorization_outcome(
                after,
                instruction,
                auth,
                action,
                state_bump,
                vault_bump,
                later,
            ) == (after, Err::<[u8; COMPRESSED_PUBKEY_LEN], HandlerError>(
                HandlerError::Program(EnclaveKitError::NonceMismatch),
            ))
        }),
{
}

/// Law: an accepted authorization moves the wallet's counter on by exactly
/// one, from the nonce it carried, and changes nothing else of a wallet
/// already in use; a refused one leaves a wallet in use as it was.
pub proof fn lemma_authorization_consumes_one_nonce(
    wallet: SmartWallet,
    instruction: PrecedingInstruction,
    auth: Authorization,
    action: Action,
    state_bump: u8,
    vault_bump: u8,
    now: i64,
)
    ensures
        ({
            let (after, result) = authorization_outcome(
                wallet,
                instruction,
                auth,
                action,
                state_bump,
                vault_bump,
                now,
            );
            &&& result is Ok ==> {
                &&& auth.nonce < u64::MAX
                &&& after.nonce == auth.nonce + 1
                &&& !key_is_zero(wallet.active_key) ==> after == (SmartWallet {
                    nonce: after.nonce,
                    ..wallet
                })
            }
            &&& result is Err && !key_is_zero(wallet.active_key) ==> after == wallet
        }),
{
}

/// Any 33 bytes are the bytes of a key.
pub(crate) proof fn lemma_key_of_bytes(bytes: Seq<u8>)
    requires
        bytes.len() == COMPRESSED_PUBKEY_LEN,
    ensures
        key_of(bytes)@ == bytes,
{
    let k: [u8; COMPRESSED_PUBKEY_LEN] = [
        bytes[0], bytes[1], bytes[2], bytes[3], bytes[4], bytes[5], bytes[6], bytes[7], bytes[8],
        bytes[9], bytes[10], bytes[11], bytes[12], bytes[13], bytes[14], bytes[15], bytes[16],
        bytes[17], bytes[18], bytes[19], bytes[20], bytes[21], bytes[22], bytes[23], bytes[24],
        bytes[25], bytes[26], bytes[27], bytes[28], bytes[29], bytes[30], bytes[31], bytes[32],
    ];
    assert(k@ =~= bytes);
}

/// Law: an accepted authorization passed every check, on a wallet new or in
/// use. The precompile instruction is well formed and its key is the key
/// returned; a wallet never used is bound to that key only when the key
/// hashes to the signed `wallet_id`; the signed nonce is the wallet's
/// counter (0 on first use) and is now spent; the authorization has not
/// expired at `now`; and the message the enclave signed is exactly the
/// preimage of `auth` and `action`.
pub proof fn lemma_accepted_authorization_passed_every_check(
    wallet: SmartWallet,
    instruction: PrecedingInstruction,
    auth: Authorization,
    action: Action,
    state_bump: u8,
    vault_bump: u8,
    now: i64,
)
    ensures
        ({
            let (after, result) = authorization_outcome(
                wallet,
                instruction,
                auth,
                action,
                state_bump,
                vault_bump,
                now,
            );
            let unused = key_is_zero(wallet.active_key);
            result matches Ok(key) ==> {
                &&& precompile_failure(instruction) is None
                &&& key@ == precompile_pubkey(instruction)
                &&& unused ==> {
                    &&& solana_sha256(key@) == auth.wallet_id@
                    &&& after.wallet_id == auth.wallet_id
                    &&& after.active_key == key
                }
                &&& !unused ==> after.active_key == wallet.active_key
                &&& auth.nonce == (if unused { 0 } else { wallet.nonce })
                &&& after.nonce == auth.nonce + 1
                &&& auth.expires_at > now
                &&& precompile_message(instruction) == preimage_encoding(
                    PROGRAM_ID,
                    auth.wallet_id,
                    auth.nonce,
                    auth.expires_at,
                    auth.max_relayer_fee,
                    action,
                )
            }
        }),
{
    if precompile_failure(instruction) is None {
        lemma_key_of_bytes(precompile_pubkey(instruction));
    }
}

/// Law: an expired authorization is refused, on a wallet new or in use.
/// Once the precompile, the wallet's identity and the nonce check out, an
/// authorization with `expires_at <= now` is answered `AuthorizationExpired`
/// and its nonce is not spent.
pub proof fn lemma_expired_authorization_refused(
    wallet: SmartWallet,
    instruction: PrecedingInstruction,
    auth: Authorization,
    action: Action,
    state_bump: u8,
    vault_bump: u8,
    now: i64,
)
    requires
        precompile_failure(instruction) is None,
        key_is_zero(wallet.active_key) ==> solana_sha256(precompile_pubkey(instruction))
            == auth.wallet_id@,
        auth.nonce == (if key_is_zero(wallet.active_key) { 0 } else { wallet.nonce }),
        auth.expires_at <= now,
    ensures
        ({
            let (after, result) = authorization_outcome(
                wallet,
                instruction,
                auth,
                action,
                state_bump,
                vault_bump,
                now,
            );
            &&& result == Err::<[u8; COMPRESSED_PUBKEY_LEN], HandlerError>(
                HandlerError::Program(EnclaveKitError::AuthorizationExpired),
            )
            &&& after.nonce == auth.nonce
            &&& !key_is_zero(wallet.active_key) ==> after == wallet
        }),
{
}

/// Law: the first authorised action binds the wallet to the key that
/// signed it: the wallet's identity is the hash of that key, and that key
/// becomes the active key.
pub proof fn lemma_first_use_binds_identity(
    wallet: SmartWallet,
    instruction: PrecedingInstruction,
    auth: Authorization,
    action: Action,
    state_bump: u8,
    vault_bump: u8,
    now: i64,
)
    requires
        key_is_zero(wallet.active_key),
    ensures
        ({
            let (after, result) = authorization_outcome(
                wallet,
                instruction,
                auth,
                action,
                state_bump,
                vault_bump,
                now,
            );
            result matches Ok(key) ==> {
                &&& after.wallet_id == auth.wallet_id
                &&& after.wallet_id@ == solana_sha256(precompile_pubkey(instruction))
                &&& after.active_key == key
            }
        }),
{
}

} // verus!
