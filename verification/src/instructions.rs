//! The program's instructions, as decisions on the wallet's state.
//!
//! Each handler takes the wallet state, the instruction's arguments, the
//! instruction that precedes it in the transaction and the clock, and
//! returns the new state together with the lamports the vault must pay out,
//! or the error it refuses with and the state as its checks left it. The
//! runtime performs the payments, and rolls the state back on an error.

use vstd::prelude::*;

use crate::action::{self, Action};
use crate::authorization::{
    authorization_outcome, key_of, lemma_authorization_consumes_one_nonce, refund_amount,
    refund_relayer, require_active_key,
    same_key, verify_enclave_authorization, Authorization,
};
use crate::constants::{COMPRESSED_PUBKEY_LEN, MAX_GUARDIANS};
use crate::error::{EnclaveKitError, HandlerError};
use crate::precompile::{precompile_pubkey, PrecedingInstruction};
use crate::state::{
    guardian_to_encoding, is_zero_key, key_is_zero, Guardian, PendingRotation, SmartWallet,
};

verus! {

/// Who receives lamports from the vault.
#[derive(Clone, Copy, PartialEq, Eq, Debug, Structural)]
pub enum Payee {
    /// The destination of a `transfer_sol`.
    Recipient,
    /// The relayer that paid the transaction fee.
    Relayer,
}

/// One payment out of the vault, signed with the vault's seeds.
#[derive(Clone, Copy, PartialEq, Eq, Debug, Structural)]
pub struct VaultTransfer {
    pub payee: Payee,
    pub lamports: u64,
}

/// The PDA bumps found for the wallet's state and vault accounts.
#[derive(Clone, Copy, PartialEq, Eq, Debug, Structural)]
pub struct Bumps {
    pub wallet: u8,
    pub vault: u8,
}

/// The refund to the relayer, as the single payment of an instruction.
pub open spec fn refund_only(relayer_fee: u64, max_relayer_fee: u64) -> Seq<VaultTransfer> {
    seq![VaultTransfer { payee: Payee::Relayer, lamports: refund_amount(relayer_fee, max_relayer_fee) }]
}

fn refund_transfers(relayer_fee: u64, max_relayer_fee: u64) -> (r: Vec<VaultTransfer>)
    ensures
        r@ == refund_only(relayer_fee, max_relayer_fee),
{
    let mut transfers: Vec<VaultTransfer> = Vec::new();
    transfers.push(
        VaultTransfer { payee: Payee::Relayer, lamports: refund_relayer(relayer_fee, max_relayer_fee) },
    );
    assert(transfers@ =~= refund_only(relayer_fee, max_relayer_fee));
    transfers
}

// transfer_sol

/// Accounts of `transfer_sol`: the wallet's state and the destination.
pub struct TransferSol {
    pub wallet: SmartWallet,
    /// The destination account, bound by the signed preimage.
    pub to: [u8; 32],
}

/// What `transfer_sol` does: an authorised transfer signed by the active key
/// pays `lamports` to the destination, then refunds the relayer.
pub open spec fn transfer_sol_outcome(
    wallet: SmartWallet,
    to: [u8; 32],
    auth: Authorization,
    lamports: u64,
    relayer_fee: u64,
    bumps: Bumps,
    instruction: PrecedingInstruction,
    now: i64,
) -> (SmartWallet, Result<Seq<VaultTransfer>, HandlerError>) {
    let action = Action::TransferSol { to, lamports };
    let (w, result) = authorization_outcome(
        wallet,
        instruction,
        auth,
        action,
        bumps.wallet,
        bumps.vault,
        now,
    );
    match result {
        Err(e) => (w, Err(e)),
        Ok(signer) => if signer != w.active_key {
            (w, Err(HandlerError::Program(EnclaveKitError::KeyMismatch)))
        } else {
            (
                w,
                Ok(
                    seq![VaultTransfer { payee: Payee::Recipient, lamports }] + refund_only(
                        relayer_fee,
                        auth.max_relayer_fee,
                    ),
                ),
            )
        },
    }
}

impl TransferSol {
    /// Sends `lamports` from the vault to `to`, authorised by the active
    /// key; creates the wallet on first use.
    pub fn transfer(
        &mut self,
        wallet_id: [u8; 32],
        nonce: u64,
        expires_at: i64,
        max_relayer_fee: u64,
        lamports: u64,
        relayer_fee: u64,
        bumps: &Bumps,
        instruction: &PrecedingInstruction,
        now: i64,
    ) -> (r: Result<Vec<VaultTransfer>, HandlerError>)
        ensures
            final(self).to == old(self).to,
            ({
                let (w, result) = transfer_sol_outcome(
                    old(self).wallet,
                    old(self).to,
                    (Authorization { wallet_id, nonce, expires_at, max_relayer_fee }),
                    lamports,
                    relayer_fee,
                    *bumps,
                    *instruction,
                    now,
                );
                &&& final(self).wallet == w
                &&& (match result {
                    Ok(transfers) => r matches Ok(v) && v@ == transfers,
                    Err(e) => r == Err::<Vec<VaultTransfer>, HandlerError>(e),
                })
            }),
    {
        let action = Action::TransferSol { to: self.to, lamports };
        let authorization = Authorization { wallet_id, nonce, expires_at, max_relayer_fee };
        let signer = verify_enclave_authorization(
            &mut self.wallet,
            instruction,
            &authorization,
            &action,
            bumps.wallet,
            bumps.vault,
            now,
        )?;
        if let Err(e) = require_active_key(&self.wallet, &signer) {
            return Err(HandlerError::Program(e));
        }
        let mut transfers: Vec<VaultTransfer> = Vec::new();
        transfers.push(VaultTransfer { payee: Payee::Recipient, lamports });
        transfers.push(
            VaultTransfer {
                payee: Payee::Relayer,
                lamports: refund_relayer(relayer_fee, max_relayer_fee),
            },
        );
        assert(transfers@ =~= seq![VaultTransfer { payee: Payee::Recipient, lamports }]
            + refund_only(relayer_fee, max_relayer_fee));
        Ok(transfers)
    }
}

// set_guardians

/// Accounts of `set_guardians`: the wallet's state.
pub struct SetGuardians {
    pub wallet: SmartWallet,
}

/// The guardian list as the enclave signs it.
pub open spec fn guardians_to_encoding(guardians: [Guardian; MAX_GUARDIANS]) -> [action::Guardian; MAX_GUARDIANS] {
    [
        guardian_to_encoding(guardians[0]),
        guardian_to_encoding(guardians[1]),
        guardian_to_encoding(guardians[2]),
    ]
}

/// Whether the list holds a WebAuthn guardian.
pub open spec fn has_webauthn(guardians: [Guardian; MAX_GUARDIANS]) -> bool {
    exists|i: int| 0 <= i < MAX_GUARDIANS && (#[trigger] guardians[i]) is WebAuthn
}

/// What `set_guardians` does: signed by the active key, it replaces the
/// whole guardian list, clears any pending rotation and refunds the relayer.
pub open spec fn set_guardians_outcome(
    wallet: SmartWallet,
    auth: Authorization,
    guardians: [Guardian; MAX_GUARDIANS],
    relayer_fee: u64,
    bumps: Bumps,
    instruction: PrecedingInstruction,
    now: i64,
) -> (SmartWallet, Result<Seq<VaultTransfer>, HandlerError>) {
    let action = Action::SetGuardians { guardians: guardians_to_encoding(guardians) };
    let (w, result) = authorization_outcome(
        wallet,
        instruction,
        auth,
        action,
        bumps.wallet,
        bumps.vault,
        now,
    );
    match result {
        Err(e) => (w, Err(e)),
        Ok(signer) => if signer != w.active_key {
            (w, Err(HandlerError::Program(EnclaveKitError::KeyMismatch)))
        } else if has_webauthn(guardians) {
            (w, Err(HandlerError::Program(EnclaveKitError::WebAuthnGuardianUnsupported)))
        } else {
            (
                SmartWallet { guardians, rotation: None, ..w },
                Ok(refund_only(relayer_fee, auth.max_relayer_fee)),
            )
        },
    }
}

fn is_webauthn(guardian: &Guardian) -> (r: bool)
    ensures
        r == (*guardian is WebAuthn),
{
    match guardian {
        Guardian::WebAuthn(_) => true,
        _ => false,
    }
}

impl SetGuardians {
    /// Replaces the three guardian slots, authorised by the active key;
    /// creates the wallet on first use.
    pub fn set_guardians(
        &mut self,
        wallet_id: [u8; 32],
        nonce: u64,
        expires_at: i64,
        max_relayer_fee: u64,
        guardians: [Guardian; MAX_GUARDIANS],
        relayer_fee: u64,
        bumps: &Bumps,
        instruction: &PrecedingInstruction,
        now: i64,
    ) -> (r: Result<Vec<VaultTransfer>, HandlerError>)
        ensures
            ({
                let (w, result) = set_guardians_outcome(
                    old(self).wallet,
                    (Authorization { wallet_id, nonce, expires_at, max_relayer_fee }),
                    guardians,
                    relayer_fee,
                    *bumps,
                    *instruction,
                    now,
                );
                &&& final(self).wallet == w
                &&& (match result {
                    Ok(transfers) => r matches Ok(v) && v@ == transfers,
                    Err(e) => r == Err::<Vec<VaultTransfer>, HandlerError>(e),
                })
            }),
    {
        let encoded = [
            action::Guardian::from(guardians[0]),
            action::Guardian::from(guardians[1]),
            action::Guardian::from(guardians[2]),
        ];
        assert(encoded =~= guardians_to_encoding(guardians));
        let action = Action::SetGuardians { guardians: encoded };
        let authorization = Authorization { wallet_id, nonce, expires_at, max_relayer_fee };
        let signer = verify_enclave_authorization(
            &mut self.wallet,
            instruction,
            &authorization,
            &action,
            bumps.wallet,
            bumps.vault,
            now,
        )?;
        if let Err(e) = require_active_key(&self.wallet, &signer) {
            return Err(HandlerError::Program(e));
        }
        if is_webauthn(&guardians[0]) || is_webauthn(&guardians[1]) || is_webauthn(&guardians[2]) {
            return Err(HandlerError::Program(EnclaveKitError::WebAuthnGuardianUnsupported));
        }
        assert(!has_webauthn(guardians)) by {
            assert forall|i: int| 0 <= i < MAX_GUARDIANS implies !(#[trigger] guardians[i] is WebAuthn) by {
                assert(i == 0 || i == 1 || i == 2);
            }
        }
        // The whole list is replaced.
        self.wallet.guardians = guardians;
        self.wallet.rotation = None;
        Ok(refund_transfers(relayer_fee, max_relayer_fee))
    }
}

// propose_rotation

/// Accounts of `propose_rotation`: the wallet's state, which must exist.
pub struct ProposeRotation {
    pub wallet: SmartWallet,
}

/// The first slot that holds `key` as a P-256 guardian.
pub open spec fn guardian_slot(guardians: [Guardian; MAX_GUARDIANS], key: [u8; COMPRESSED_PUBKEY_LEN]) -> Option<u8> {
    if guardians[0] == Guardian::P256(key) {
        Some(0u8)
    } else if guardians[1] == Guardian::P256(key) {
        Some(1u8)
    } else if guardians[2] == Guardian::P256(key) {
        Some(2u8)
    } else {
        None
    }
}

/// Whether another guardian's proposal is pending and still open at `now`:
/// a proposal past its window no longer blocks anyone.
pub open spec fn slot_taken(wallet: SmartWallet, slot: u8, now: i64) -> bool {
    wallet.rotation matches Some(pending) && pending.proposed_by != slot && now
        <= pending.closes_at_spec()
}

/// What `propose_rotation` does. The active key swaps itself for `new_key`
/// at once and drops any pending proposal; a P-256 guardian opens a
/// timelocked proposal, replaces its own, or replaces one whose window has
/// closed. The relayer is refunded.
pub open spec fn propose_rotation_outcome(
    wallet: SmartWallet,
    auth: Authorization,
    new_key: [u8; COMPRESSED_PUBKEY_LEN],
    relayer_fee: u64,
    instruction: PrecedingInstruction,
    now: i64,
) -> (SmartWallet, Result<Seq<VaultTransfer>, HandlerError>) {
    if key_is_zero(new_key) {
        (wallet, Err(HandlerError::Program(EnclaveKitError::InvalidNewKey)))
    } else {
        let action = Action::ProposeRotation { new_key };
        let (w, result) = authorization_outcome(
            wallet,
            instruction,
            auth,
            action,
            wallet.state_bump,
            wallet.vault_bump,
            now,
        );
        match result {
            Err(e) => (w, Err(e)),
            Ok(signer) => {
                let refund = refund_only(relayer_fee, auth.max_relayer_fee);
                if signer == w.active_key {
                    (
                        SmartWallet { active_key: new_key, attested: false, rotation: None, ..w },
                        Ok(refund),
                    )
                } else {
                    match guardian_slot(w.guardians, signer) {
                        None => (w, Err(HandlerError::Program(EnclaveKitError::NotAGuardian))),
                        Some(slot) => if slot_taken(w, slot, now) {
                            (w, Err(HandlerError::Program(EnclaveKitError::RotationSlotTaken)))
                        } else {
                            (
                                SmartWallet {
                                    rotation: Some(
                                        PendingRotation { new_key, proposed_at: now, proposed_by: slot },
                                    ),
                                    ..w
                                },
                                Ok(refund),
                            )
                        },
                    }
                }
            },
        }
    }
}

fn is_p256_guardian(guardian: &Guardian, key: &[u8; COMPRESSED_PUBKEY_LEN]) -> (r: bool)
    ensures
        r == (*guardian == Guardian::P256(*key)),
{
    match guardian {
        Guardian::P256(k) => same_key(k, key),
        _ => false,
    }
}

fn find_guardian_slot(guardians: &[Guardian; MAX_GUARDIANS], key: &[u8; COMPRESSED_PUBKEY_LEN]) -> (r: Option<u8>)
    ensures
        r == guardian_slot(*guardians, *key),
{
    if is_p256_guardian(&guardians[0], key) {
        Some(0)
    } else if is_p256_guardian(&guardians[1], key) {
        Some(1)
    } else if is_p256_guardian(&guardians[2], key) {
        Some(2)
    } else {
        None
    }
}

impl ProposeRotation {
    /// Proposes `new_key` as the wallet's key, signed by the active key or
    /// by a guardian.
    pub fn propose(
        &mut self,
        authorization: Authorization,
        new_key: [u8; COMPRESSED_PUBKEY_LEN],
        relayer_fee: u64,
        instruction: &PrecedingInstruction,
        now: i64,
    ) -> (r: Result<Vec<VaultTransfer>, HandlerError>)
        ensures
            ({
                let (w, result) = propose_rotation_outcome(
                    old(self).wallet,
                    authorization,
                    new_key,
                    relayer_fee,
                    *instruction,
                    now,
                );
                &&& final(self).wallet == w
                &&& (match result {
                    Ok(transfers) => r matches Ok(v) && v@ == transfers,
                    Err(e) => r == Err::<Vec<VaultTransfer>, HandlerError>(e),
                })
            }),
    {
        // An all-zero active key means "never used" to verify_enclave_authorization.
        if is_zero_key(&new_key) {
            return Err(HandlerError::Program(EnclaveKitError::InvalidNewKey));
        }
        let action = Action::ProposeRotation { new_key };
        let (state_bump, vault_bump) = (self.wallet.state_bump, self.wallet.vault_bump);
        let signer = verify_enclave_authorization(
            &mut self.wallet,
            instruction,
            &authorization,
            &action,
            state_bump,
            vault_bump,
            now,
        )?;
        if same_key(&signer, &self.wallet.active_key) {
            // The owner still holds the key: no timelock, the swap is immediate.
            self.wallet.active_key = new_key;
            self.wallet.attested = false;
            self.wallet.rotation = None;
        } else {
            let slot = match find_guardian_slot(&self.wallet.guardians, &signer) {
                Some(slot) => slot,
                None => {
                    return Err(HandlerError::Program(EnclaveKitError::NotAGuardian));
                },
            };
            // A guardian may replace its own proposal, or one whose window
            // has closed, never another's still open.
            if let Some(pending) = self.wallet.rotation {
                if pending.proposed_by != slot && !pending.is_expired(now) {
                    return Err(HandlerError::Program(EnclaveKitError::RotationSlotTaken));
                }
            }
            self.wallet.rotation = Some(
                PendingRotation { new_key, proposed_at: now, proposed_by: slot },
            );
        }
        Ok(refund_transfers(relayer_fee, authorization.max_relayer_fee))
    }
}

// cancel_rotation

/// Accounts of `cancel_rotation`: the wallet's state, which must exist.
pub struct CancelRotation {
    pub wallet: SmartWallet,
}

/// What `cancel_rotation` does: signed by the active key, it drops the
/// pending proposal and refunds the relayer.
pub open spec fn cancel_rotation_outcome(
    wallet: SmartWallet,
    auth: Authorization,
    relayer_fee: u64,
    instruction: PrecedingInstruction,
    now: i64,
) -> (SmartWallet, Result<Seq<VaultTransfer>, HandlerError>) {
    let (w, result) = authorization_outcome(
        wallet,
        instruction,
        auth,
        Action::CancelRotation,
        wallet.state_bump,
        wallet.vault_bump,
        now,
    );
    match result {
        Err(e) => (w, Err(e)),
        Ok(signer) => if signer != w.active_key {
            (w, Err(HandlerError::Program(EnclaveKitError::KeyMismatch)))
        } else if w.rotation is None {
            (w, Err(HandlerError::Program(EnclaveKitError::NoPendingRotation)))
        } else {
            (
                SmartWallet { rotation: None, ..w },
                Ok(refund_only(relayer_fee, auth.max_relayer_fee)),
            )
        },
    }
}

impl CancelRotation {
    /// Drops the pending rotation, authorised by the active key.
    pub fn cancel(
        &mut self,
        authorization: Authorization,
        relayer_fee: u64,
        instruction: &PrecedingInstruction,
        now: i64,
    ) -> (r: Result<Vec<VaultTransfer>, HandlerError>)
        ensures
            ({
                let (w, result) = cancel_rotation_outcome(
                    old(self).wallet,
                    authorization,
                    relayer_fee,
                    *instruction,
                    now,
                );
                &&& final(self).wallet == w
                &&& (match result {
                    Ok(transfers) => r matches Ok(v) && v@ == transfers,
                    Err(e) => r == Err::<Vec<VaultTransfer>, HandlerError>(e),
                })
            }),
    {
        let action = Action::CancelRotation;
        let (state_bump, vault_bump) = (self.wallet.state_bump, self.wallet.vault_bump);
        let signer = verify_enclave_authorization(
            &mut self.wallet,
            instruction,
            &authorization,
            &action,
            state_bump,
            vault_bump,
            now,
        )?;
        if let Err(e) = require_active_key(&self.wallet, &signer) {
            return Err(HandlerError::Program(e));
        }
        if self.wallet.rotation.is_none() {
            return Err(HandlerError::Program(EnclaveKitError::NoPendingRotation));
        }
        self.wallet.rotation = None;
        Ok(refund_transfers(relayer_fee, authorization.max_relayer_fee))
    }
}

// confirm_rotation

/// Accounts of `confirm_rotation`: the wallet's state, which must exist.
pub struct ConfirmRotation {
    pub wallet: SmartWallet,
}

/// What `confirm_rotation` does: anyone may apply the pending proposal once
/// its delay has passed and before its window closes. No signature, no
/// nonce, no refund.
pub open spec fn confirm_rotation_outcome(wallet: SmartWallet, now: i64) -> Result<
    SmartWallet,
    EnclaveKitError,
> {
    match wallet.rotation {
        None => Err(EnclaveKitError::NoPendingRotation),
        Some(pending) => if now < pending.opens_at_spec() {
            Err(EnclaveKitError::RotationTooEarly)
        } else if now > pending.closes_at_spec() {
            Err(EnclaveKitError::RotationExpired)
        } else {
            Ok(
                SmartWallet {
                    active_key: pending.new_key,
                    attested: false,
                    rotation: None,
                    ..wallet
                },
            )
        },
    }
}

impl ConfirmRotation {
    /// Applies the pending rotation at time `now`.
    pub fn confirm(&mut self, now: i64) -> (r: Result<(), EnclaveKitError>)
        ensures
            match confirm_rotation_outcome(old(self).wallet, now) {
                Ok(w) => r is Ok && final(self).wallet == w,
                Err(e) => r == Err::<(), EnclaveKitError>(e) && final(self).wallet == old(
                    self,
                ).wallet,
            },
    {
        let pending = match self.wallet.rotation {
            Some(pending) => pending,
            None => {
                return Err(EnclaveKitError::NoPendingRotation);
            },
        };
        if now < pending.opens_at() {
            return Err(EnclaveKitError::RotationTooEarly);
        }
        if pending.is_expired(now) {
            return Err(EnclaveKitError::RotationExpired);
        }
        self.wallet.active_key = pending.new_key;
        self.wallet.attested = false;
        self.wallet.rotation = None;
        Ok(())
    }
}

// Laws

proof fn lemma_key_bytes_exist(bytes: Seq<u8>)
    requires
        bytes.len() == COMPRESSED_PUBKEY_LEN,
    ensures
        key_of(bytes)@ == bytes,
{
    crate::authorization::lemma_key_of_bytes(bytes);
}

/// Law: once the wallet is in use, only its active key moves lamports to a
/// recipient: a `transfer_sol` is carried out only when the precompile
/// vouches for the active key, and it pays the destination exactly the
/// signed amount and the relayer at most the signed fee cap.
pub proof fn lemma_only_active_key_pays(
    wallet: SmartWallet,
    to: [u8; 32],
    auth: Authorization,
    lamports: u64,
    relayer_fee: u64,
    bumps: Bumps,
    instruction: PrecedingInstruction,
    now: i64,
)
    requires
        !key_is_zero(wallet.active_key),
    ensures
        ({
            let (after, result) = transfer_sol_outcome(
                wallet,
                to,
                auth,
                lamports,
                relayer_fee,
                bumps,
                instruction,
                now,
            );
            result matches Ok(transfers) ==> {
                &&& precompile_pubkey(instruction) == wallet.active_key@
                &&& after.active_key == wallet.active_key
                &&& transfers.len() == 2
                &&& transfers[0] == (VaultTransfer { payee: Payee::Recipient, lamports })
                &&& transfers[1].payee == Payee::Relayer
                &&& transfers[1].lamports <= auth.max_relayer_fee
                &&& transfers[1].lamports <= relayer_fee
            }
        }),
{
    let (after, result) = transfer_sol_outcome(
        wallet,
        to,
        auth,
        lamports,
        relayer_fee,
        bumps,
        instruction,
        now,
    );
    if result is Ok {
        lemma_key_bytes_exist(precompile_pubkey(instruction));
    }
}

/// Law: once the wallet is in use, only its active key manages it: a
/// `set_guardians` or a `cancel_rotation` is carried out only when the
/// precompile vouches for the active key.
pub proof fn lemma_only_active_key_manages_guardians(
    wallet: SmartWallet,
    auth: Authorization,
    guardians: [Guardian; MAX_GUARDIANS],
    relayer_fee: u64,
    bumps: Bumps,
    instruction: PrecedingInstruction,
    now: i64,
)
    requires
        !key_is_zero(wallet.active_key),
    ensures
        set_guardians_outcome(wallet, auth, guardians, relayer_fee, bumps, instruction, now).1 is Ok
            ==> precompile_pubkey(instruction) == wallet.active_key@,
        cancel_rotation_outcome(wallet, auth, relayer_fee, instruction, now).1 is Ok
            ==> precompile_pubkey(instruction) == wallet.active_key@,
{
    if set_guardians_outcome(wallet, auth, guardians, relayer_fee, bumps, instruction, now).1 is Ok
        || cancel_rotation_outcome(wallet, auth, relayer_fee, instruction, now).1 is Ok {
        lemma_key_bytes_exist(precompile_pubkey(instruction));
    }
}

/// The wallet a refusal leaves behind: the one it was given, or, where the
/// refusal came after the authorization was accepted, that wallet with one
/// nonce spent and nothing else changed.
pub open spec fn at_most_nonce_spent(before: SmartWallet, after: SmartWallet) -> bool {
    ||| after == before
    ||| before.nonce < u64::MAX && after == (SmartWallet { nonce: (before.nonce + 1) as u64, ..before })
}

/// Law: a refused instruction changes nothing of a wallet in use but, at
/// most, the nonce its accepted authorization spent. Only on a wallet never
/// used can a refusal come after the wallet was set up from the signing key.
pub proof fn lemma_refusal_leaves_wallet_in_use(
    wallet: SmartWallet,
    auth: Authorization,
    to: [u8; 32],
    lamports: u64,
    guardians: [Guardian; MAX_GUARDIANS],
    new_key: [u8; COMPRESSED_PUBKEY_LEN],
    relayer_fee: u64,
    bumps: Bumps,
    instruction: PrecedingInstruction,
    now: i64,
)
    requires
        !key_is_zero(wallet.active_key),
    ensures
        ({
            let (after, result) = transfer_sol_outcome(
                wallet,
                to,
                auth,
                lamports,
                relayer_fee,
                bumps,
                instruction,
                now,
            );
            result is Err ==> at_most_nonce_spent(wallet, after)
        }),
        ({
            let (after, result) = set_guardians_outcome(
                wallet,
                auth,
                guardians,
                relayer_fee,
                bumps,
                instruction,
                now,
            );
            result is Err ==> at_most_nonce_spent(wallet, after)
        }),
        ({
            let (after, result) = propose_rotation_outcome(
                wallet,
                auth,
                new_key,
                relayer_fee,
                instruction,
                now,
            );
            result is Err ==> at_most_nonce_spent(wallet, after)
        }),
        ({
            let (after, result) = cancel_rotation_outcome(wallet, auth, relayer_fee, instruction, now);
            result is Err ==> at_most_nonce_spent(wallet, after)
        }),
{
    lemma_authorization_consumes_one_nonce(
        wallet,
        instruction,
        auth,
        Action::TransferSol { to, lamports },
        bumps.wallet,
        bumps.vault,
        now,
    );
    lemma_authorization_consumes_one_nonce(
        wallet,
        instruction,
        auth,
        Action::SetGuardians { guardians: guardians_to_encoding(guardians) },
        bumps.wallet,
        bumps.vault,
        now,
    );
    lemma_authorization_consumes_one_nonce(
        wallet,
        instruction,
        auth,
        Action::ProposeRotation { new_key },
        wallet.state_bump,
        wallet.vault_bump,
        now,
    );
    lemma_authorization_consumes_one_nonce(
        wallet,
        instruction,
        auth,
        Action::CancelRotation,
        wallet.state_bump,
        wallet.vault_bump,
        now,
    );
}

/// Law: a wallet keeps its identity. No instruction on a wallet in use,
/// refused or carried out, changes its `wallet_id` or its PDA bumps.
pub proof fn lemma_identity_survives(
    wallet: SmartWallet,
    auth: Authorization,
    to: [u8; 32],
    lamports: u64,
    guardians: [Guardian; MAX_GUARDIANS],
    new_key: [u8; COMPRESSED_PUBKEY_LEN],
    relayer_fee: u64,
    bumps: Bumps,
    instruction: PrecedingInstruction,
    now: i64,
)
    requires
        !key_is_zero(wallet.active_key),
    ensures
        ({
            let after = transfer_sol_outcome(
                wallet,
                to,
                auth,
                lamports,
                relayer_fee,
                bumps,
                instruction,
                now,
            ).0;
            after.wallet_id == wallet.wallet_id && after.state_bump == wallet.state_bump
                && after.vault_bump == wallet.vault_bump
        }),
        ({
            let after = set_guardians_outcome(
                wallet,
                auth,
                guardians,
                relayer_fee,
                bumps,
                instruction,
                now,
            ).0;
            after.wallet_id == wallet.wallet_id && after.state_bump == wallet.state_bump
                && after.vault_bump == wallet.vault_bump
        }),
        ({
            let after = propose_rotation_outcome(wallet, auth, new_key, relayer_fee, instruction, now).0;
            after.wallet_id == wallet.wallet_id && after.state_bump == wallet.state_bump
                && after.vault_bump == wallet.vault_bump
        }),
        ({
            let after = cancel_rotation_outcome(wallet, auth, relayer_fee, instruction, now).0;
            after.wallet_id == wallet.wallet_id && after.state_bump == wallet.state_bump
                && after.vault_bump == wallet.vault_bump
        }),
        confirm_rotation_outcome(wallet, now) matches Ok(after) ==> after.wallet_id
            == wallet.wallet_id && after.state_bump == wallet.state_bump && after.vault_bump
            == wallet.vault_bump,
{
}

/// Law: the guardian list changes only through `set_guardians`. Proposing,
/// cancelling and confirming a rotation leave every slot as it was.
pub proof fn lemma_guardians_change_only_by_set_guardians(
    wallet: SmartWallet,
    auth: Authorization,
    new_key: [u8; COMPRESSED_PUBKEY_LEN],
    relayer_fee: u64,
    instruction: PrecedingInstruction,
    now: i64,
)
    requires
        !key_is_zero(wallet.active_key),
    ensures
        propose_rotation_outcome(wallet, auth, new_key, relayer_fee, instruction, now).0.guardians
            == wallet.guardians,
        cancel_rotation_outcome(wallet, auth, relayer_fee, instruction, now).0.guardians
            == wallet.guardians,
        confirm_rotation_outcome(wallet, now) matches Ok(after) ==> after.guardians
            == wallet.guardians,
{
}

/// The slot of the guardian whose proposal is pending.
pub open spec fn pending_slot(wallet: SmartWallet) -> u8 {
    match wallet.rotation {
        Some(pending) => pending.proposed_by,
        None => 0,
    }
}

/// Law: a guardian never takes over at once. A proposal signed by a key
/// other than the active key leaves the active key in place and only
/// records a pending rotation, stamped with the current time, in the slot
/// of the guardian that signed.
pub proof fn lemma_guardian_proposal_is_timelocked(
    wallet: SmartWallet,
    auth: Authorization,
    new_key: [u8; COMPRESSED_PUBKEY_LEN],
    relayer_fee: u64,
    instruction: PrecedingInstruction,
    now: i64,
)
    requires
        !key_is_zero(wallet.active_key),
        precompile_pubkey(instruction) != wallet.active_key@,
    ensures
        ({
            let (after, result) = propose_rotation_outcome(
                wallet,
                auth,
                new_key,
                relayer_fee,
                instruction,
                now,
            );
            result is Ok ==> {
                &&& after.active_key == wallet.active_key
                &&& after.attested == wallet.attested
                &&& after.rotation matches Some(pending) && pending.new_key == new_key
                    && pending.proposed_at == now
                &&& wallet.guardians[pending_slot(after) as int] == Guardian::P256(
                    key_of(precompile_pubkey(instruction)),
                )
            }
        }),
{
    let (after, result) = propose_rotation_outcome(
        wallet,
        auth,
        new_key,
        relayer_fee,
        instruction,
        now,
    );
    if result is Ok {
        lemma_key_bytes_exist(precompile_pubkey(instruction));
    }
}

/// Law: an open proposal belongs to its guardian. While a pending proposal
/// is within its window, a `propose_rotation` either clears it (the active
/// key rotating) or replaces it with a proposal of the same guardian slot.
pub proof fn lemma_pending_proposal_keeps_its_slot(
    wallet: SmartWallet,
    auth: Authorization,
    new_key: [u8; COMPRESSED_PUBKEY_LEN],
    relayer_fee: u64,
    instruction: PrecedingInstruction,
    now: i64,
)
    requires
        !key_is_zero(wallet.active_key),
        wallet.rotation is Some,
        now <= wallet.rotation->0.closes_at_spec(),
    ensures
        ({
            let (after, result) = propose_rotation_outcome(
                wallet,
                auth,
                new_key,
                relayer_fee,
                instruction,
                now,
            );
            result is Ok ==> (after.rotation is None || pending_slot(after) == pending_slot(wallet))
        }),
{
}

/// Law: a proposal past its window no longer blocks anyone. Once `now` is
/// after its `closes_at`, no `propose_rotation` is refused because of it.
pub proof fn lemma_expired_proposal_blocks_no_one(
    wallet: SmartWallet,
    auth: Authorization,
    new_key: [u8; COMPRESSED_PUBKEY_LEN],
    relayer_fee: u64,
    instruction: PrecedingInstruction,
    now: i64,
)
    requires
        wallet.rotation is Some,
        now > wallet.rotation->0.closes_at_spec(),
    ensures
        propose_rotation_outcome(wallet, auth, new_key, relayer_fee, instruction, now).1
            != Err::<Seq<VaultTransfer>, HandlerError>(
            HandlerError::Program(EnclaveKitError::RotationSlotTaken),
        ),
{
}

/// Law: a key change always resets the attestation. Whenever `propose`
/// or `confirm` changes the active key, the new key starts unattested.
pub proof fn lemma_rotation_resets_attestation(
    wallet: SmartWallet,
    auth: Authorization,
    new_key: [u8; COMPRESSED_PUBKEY_LEN],
    relayer_fee: u64,
    instruction: PrecedingInstruction,
    now: i64,
)
    requires
        !key_is_zero(wallet.active_key),
    ensures
        ({
            let after = propose_rotation_outcome(wallet, auth, new_key, relayer_fee, instruction, now).0;
            after.active_key != wallet.active_key ==> !after.attested
        }),
        confirm_rotation_outcome(wallet, now) matches Ok(after) ==> !after.attested,
{
}

/// Law: the timelock. A pending rotation is confirmed exactly when `now`
/// lies in its window, from `opens_at` to `closes_at` inclusive; before it
/// the answer is `RotationTooEarly`, after it `RotationExpired`.
pub proof fn lemma_confirm_window(wallet: SmartWallet, now: i64)
    requires
        wallet.rotation is Some,
    ensures
        ({
            let pending = wallet.rotation->0;
            &&& confirm_rotation_outcome(wallet, now) is Ok <==> pending.opens_at_spec() <= now
                <= pending.closes_at_spec()
            &&& now < pending.opens_at_spec() ==> confirm_rotation_outcome(wallet, now) == Err::<
                SmartWallet,
                EnclaveKitError,
            >(EnclaveKitError::RotationTooEarly)
            &&& now > pending.closes_at_spec() ==> confirm_rotation_outcome(wallet, now) == Err::<
                SmartWallet,
                EnclaveKitError,
            >(EnclaveKitError::RotationExpired)
        }),
{
}

/// Law: a rotation is confirmed at most once, and confirming consumes no
/// nonce: the key becomes the proposed one, the counter stays, and a
/// second confirmation finds nothing pending.
pub proof fn lemma_confirm_once(wallet: SmartWallet, now: i64, later: i64)
    ensures
        confirm_rotation_outcome(wallet, now) matches Ok(after) ==> {
            &&& after.active_key == wallet.rotation->0.new_key
            &&& after.nonce == wallet.nonce
            &&& confirm_rotation_outcome(after, later) == Err::<SmartWallet, EnclaveKitError>(
                EnclaveKitError::NoPendingRotation,
            )
        },
{
}

/// Law: a signed transfer is carried out at most once. After a
/// `transfer_sol` succeeds, the same request, sent again with the same
/// signed instruction, is refused as a replay and changes nothing.
/// (An all-zero signing key is left out: the wallet would read as never
/// used again.)
pub proof fn lemma_transfer_not_replayable(
    wallet: SmartWallet,
    to: [u8; 32],
    auth: Authorization,
    lamports: u64,
    relayer_fee: u64,
    bumps: Bumps,
    instruction: PrecedingInstruction,
    now: i64,
    later: i64,
)
    requires
        !key_is_zero(key_of(precompile_pubkey(instruction))),
    ensures
        ({
            let (after, result) = transfer_sol_outcome(
                wallet,
                to,
                auth,
                lamports,
                relayer_fee,
                bumps,
                instruction,
                now,
            );
            result is Ok ==> transfer_sol_outcome(
                after,
                to,
                auth,
                lamports,
                relayer_fee,
                bumps,
                instruction,
                later,
            ) == (after, Err::<Seq<VaultTransfer>, HandlerError>(
                HandlerError::Program(EnclaveKitError::NonceMismatch),
            ))
        }),
{
    crate::authorization::lemma_no_replay(
        wallet,
        instruction,
        auth,
        Action::TransferSol { to, lamports },
        bumps.wallet,
        bumps.vault,
        now,
        later,
    );
}

/// Law: every instruction keeps the wallet's invariant, whatever it
/// answers, and a wallet in use stays in use: no instruction leaves an
/// all-zero active key behind, which would let the next signer re-create
/// the wallet.
pub proof fn lemma_instructions_keep_the_invariant(
    wallet: SmartWallet,
    auth: Authorization,
    to: [u8; 32],
    lamports: u64,
    guardians: [Guardian; MAX_GUARDIANS],
    new_key: [u8; COMPRESSED_PUBKEY_LEN],
    relayer_fee: u64,
    bumps: Bumps,
    instruction: PrecedingInstruction,
    now: i64,
)
    requires
        wallet.well_formed(),
    ensures
        ({
            let after = transfer_sol_outcome(
                wallet,
                to,
                auth,
                lamports,
                relayer_fee,
                bumps,
                instruction,
                now,
            ).0;
            after.well_formed() && (!key_is_zero(wallet.active_key) ==> !key_is_zero(
                after.active_key,
            ))
        }),
        ({
            let after = set_guardians_outcome(
                wallet,
                auth,
                guardians,
                relayer_fee,
                bumps,
                instruction,
                now,
            ).0;
            after.well_formed() && (!key_is_zero(wallet.active_key) ==> !key_is_zero(
                after.active_key,
            ))
        }),
        ({
            let after = propose_rotation_outcome(wallet, auth, new_key, relayer_fee, instruction, now).0;
            after.well_formed() && (!key_is_zero(wallet.active_key) ==> !key_is_zero(
                after.active_key,
            ))
        }),
        ({
            let after = cancel_rotation_outcome(wallet, auth, relayer_fee, instruction, now).0;
            after.well_formed() && (!key_is_zero(wallet.active_key) ==> !key_is_zero(
                after.active_key,
            ))
        }),
        confirm_rotation_outcome(wallet, now) matches Ok(after) ==> after.well_formed()
            && !key_is_zero(after.active_key),
{
}

/// Law: a `set_guardians` that succeeds stores exactly the signed list,
/// every slot of it, clears any pending rotation, and was signed by the key
/// that is active on the wallet it leaves; no WebAuthn guardian is ever
/// stored.
pub proof fn lemma_set_guardians_stores_the_signed_list(
    wallet: SmartWallet,
    auth: Authorization,
    guardians: [Guardian; MAX_GUARDIANS],
    relayer_fee: u64,
    bumps: Bumps,
    instruction: PrecedingInstruction,
    now: i64,
)
    ensures
        ({
            let (after, result) = set_guardians_outcome(
                wallet,
                auth,
                guardians,
                relayer_fee,
                bumps,
                instruction,
                now,
            );
            result is Ok ==> {
                &&& after.guardians == guardians
                &&& forall|i: int| 0 <= i < MAX_GUARDIANS ==> after.guardians[i] == guardians[i]
                    && !(guardians[i] is WebAuthn)
                &&& after.rotation is None
                &&& authorization_outcome(
                    wallet,
                    instruction,
                    auth,
                    Action::SetGuardians { guardians: guardians_to_encoding(guardians) },
                    bumps.wallet,
                    bumps.vault,
                    now,
                ).1 == Ok::<[u8; COMPRESSED_PUBKEY_LEN], HandlerError>(after.active_key)
            }
        }),
{
}

/// Law: on a wallet in use, an accepted `set_guardians` signed by the active
/// key with no WebAuthn guardian succeeds: the wallet then holds the signed
/// list, no pending rotation, and the next nonce, and is otherwise as it
/// was; the relayer is refunded.
pub proof fn lemma_set_guardians_by_the_active_key_succeeds(
    wallet: SmartWallet,
    auth: Authorization,
    guardians: [Guardian; MAX_GUARDIANS],
    relayer_fee: u64,
    bumps: Bumps,
    instruction: PrecedingInstruction,
    now: i64,
)
    requires
        !key_is_zero(wallet.active_key),
        authorization_outcome(
            wallet,
            instruction,
            auth,
            Action::SetGuardians { guardians: guardians_to_encoding(guardians) },
            bumps.wallet,
            bumps.vault,
            now,
        ).1 == Ok::<[u8; COMPRESSED_PUBKEY_LEN], HandlerError>(wallet.active_key),
        forall|i: int| 0 <= i < MAX_GUARDIANS ==> !(#[trigger] guardians[i] is WebAuthn),
    ensures
        wallet.nonce < u64::MAX,
        set_guardians_outcome(wallet, auth, guardians, relayer_fee, bumps, instruction, now) == (
        SmartWallet { guardians, rotation: None, nonce: (wallet.nonce + 1) as u64, ..wallet },
        Ok::<Seq<VaultTransfer>, HandlerError>(refund_only(relayer_fee, auth.max_relayer_fee))),
{
    lemma_authorization_consumes_one_nonce(
        wallet,
        instruction,
        auth,
        Action::SetGuardians { guardians: guardians_to_encoding(guardians) },
        bumps.wallet,
        bumps.vault,
        now,
    );
}

/// Law: the guardian slot of a key is the first of the three slots that
/// holds it as a P-256 guardian; there is none only when no slot holds it.
pub proof fn lemma_guardian_slot_is_the_first_holding_the_key(
    guardians: [Guardian; MAX_GUARDIANS],
    key: [u8; COMPRESSED_PUBKEY_LEN],
)
    ensures
        guardian_slot(guardians, key) is None <==> forall|i: int|
            0 <= i < MAX_GUARDIANS ==> guardians[i] != Guardian::P256(key),
        guardian_slot(guardians, key) matches Some(s) ==> {
            &&& s < MAX_GUARDIANS
            &&& guardians[s as int] == Guardian::P256(key)
            &&& forall|j: int| 0 <= j < s ==> guardians[j] != Guardian::P256(key)
        },
{
    if guardian_slot(guardians, key) is None {
        assert forall|i: int| 0 <= i < MAX_GUARDIANS implies guardians[i] != Guardian::P256(key) by {
            assert(i == 0 || i == 1 || i == 2);
        }
    }
}

/// Law: every P-256 guardian can propose. On a wallet in use, an accepted
/// `propose_rotation` signed by a key other than the active key that some
/// slot holds as a P-256 guardian is never answered `NotAGuardian`; with no
/// rotation pending it opens a proposal for `new_key` at `now`, recorded
/// under a slot that holds the signer, and refunds the relayer.
pub proof fn lemma_every_guardian_can_propose(
    wallet: SmartWallet,
    auth: Authorization,
    new_key: [u8; COMPRESSED_PUBKEY_LEN],
    relayer_fee: u64,
    instruction: PrecedingInstruction,
    now: i64,
    signer: [u8; COMPRESSED_PUBKEY_LEN],
    slot: int,
)
    requires
        !key_is_zero(wallet.active_key),
        !key_is_zero(new_key),
        authorization_outcome(
            wallet,
            instruction,
            auth,
            Action::ProposeRotation { new_key },
            wallet.state_bump,
            wallet.vault_bump,
            now,
        ).1 == Ok::<[u8; COMPRESSED_PUBKEY_LEN], HandlerError>(signer),
        signer != wallet.active_key,
        0 <= slot < MAX_GUARDIANS,
        wallet.guardians[slot] == Guardian::P256(signer),
    ensures
        ({
            let (after, result) = propose_rotation_outcome(
                wallet,
                auth,
                new_key,
                relayer_fee,
                instruction,
                now,
            );
            &&& result != Err::<Seq<VaultTransfer>, HandlerError>(
                HandlerError::Program(EnclaveKitError::NotAGuardian),
            )
            &&& wallet.rotation is None ==> {
                &&& result == Ok::<Seq<VaultTransfer>, HandlerError>(
                    refund_only(relayer_fee, auth.max_relayer_fee),
                )
                &&& after.active_key == wallet.active_key
                &&& after.guardians == wallet.guardians
                &&& after.rotation matches Some(pending) && {
                    &&& pending.new_key == new_key
                    &&& pending.proposed_at == now
                    &&& pending.proposed_by <= slot
                    &&& wallet.guardians[pending.proposed_by as int] == Guardian::P256(signer)
                }
            }
        }),
{
    lemma_authorization_consumes_one_nonce(
        wallet,
        instruction,
        auth,
        Action::ProposeRotation { new_key },
        wallet.state_bump,
        wallet.vault_bump,
        now,
    );
    lemma_guardian_slot_is_the_first_holding_the_key(wallet.guardians, signer);
}

/// Law: the active key can always stop a takeover. On a wallet in use with a
/// rotation pending, an accepted `cancel_rotation` signed by the active key
/// succeeds whatever the time, before, inside or after the confirm window:
/// the proposal is dropped, the nonce spent, nothing else changes, and the
/// relayer is refunded.
pub proof fn lemma_active_key_cancels_at_any_time(
    wallet: SmartWallet,
    auth: Authorization,
    relayer_fee: u64,
    instruction: PrecedingInstruction,
    now: i64,
)
    requires
        !key_is_zero(wallet.active_key),
        wallet.rotation is Some,
        authorization_outcome(
            wallet,
            instruction,
            auth,
            Action::CancelRotation,
            wallet.state_bump,
            wallet.vault_bump,
            now,
        ).1 == Ok::<[u8; COMPRESSED_PUBKEY_LEN], HandlerError>(wallet.active_key),
    ensures
        wallet.nonce < u64::MAX,
        cancel_rotation_outcome(wallet, auth, relayer_fee, instruction, now) == (
        SmartWallet { rotation: None, nonce: (wallet.nonce + 1) as u64, ..wallet },
        Ok::<Seq<VaultTransfer>, HandlerError>(refund_only(relayer_fee, auth.max_relayer_fee))),
{
    lemma_authorization_consumes_one_nonce(
        wallet,
        instruction,
        auth,
        Action::CancelRotation,
        wallet.state_bump,
        wallet.vault_bump,
        now,
    );
}

/// Law: on a wallet in use, an accepted `transfer_sol` signed by the
/// active key is carried out: the vault pays the destination exactly the
/// signed amount, then the relayer its fee capped at the signed maximum;
/// the wallet only spends its nonce.
pub proof fn lemma_active_key_transfer_is_carried_out(
    wallet: SmartWallet,
    to: [u8; 32],
    auth: Authorization,
    lamports: u64,
    relayer_fee: u64,
    bumps: Bumps,
    instruction: PrecedingInstruction,
    now: i64,
)
    requires
        !key_is_zero(wallet.active_key),
        authorization_outcome(
            wallet,
            instruction,
            auth,
            Action::TransferSol { to, lamports },
            bumps.wallet,
            bumps.vault,
            now,
        ).1 == Ok::<[u8; COMPRESSED_PUBKEY_LEN], HandlerError>(wallet.active_key),
    ensures
        wallet.nonce < u64::MAX,
        ({
            let (after, result) = transfer_sol_outcome(
                wallet,
                to,
                auth,
                lamports,
                relayer_fee,
                bumps,
                instruction,
                now,
            );
            &&& after == (SmartWallet { nonce: (wallet.nonce + 1) as u64, ..wallet })
            &&& result matches Ok(transfers) && {
                &&& transfers.len() == 2
                &&& transfers[0] == (VaultTransfer { payee: Payee::Recipient, lamports })
                &&& transfers[1].payee == Payee::Relayer
                &&& transfers[1].lamports == (if relayer_fee <= auth.max_relayer_fee {
                    relayer_fee
                } else {
                    auth.max_relayer_fee
                })
            }
        }),
{
    lemma_authorization_consumes_one_nonce(
        wallet,
        instruction,
        auth,
        Action::TransferSol { to, lamports },
        bumps.wallet,
        bumps.vault,
        now,
    );
}

/// Law: the owner rotates at once. On a wallet in use, an accepted
/// `propose_rotation` of a non-zero key signed by the active key makes that
/// key active immediately, unattested, with any pending proposal dropped and
/// the guardians kept; the relayer is refunded.
pub proof fn lemma_active_key_rotates_at_once(
    wallet: SmartWallet,
    auth: Authorization,
    new_key: [u8; COMPRESSED_PUBKEY_LEN],
    relayer_fee: u64,
    instruction: PrecedingInstruction,
    now: i64,
)
    requires
        !key_is_zero(wallet.active_key),
        !key_is_zero(new_key),
        authorization_outcome(
            wallet,
            instruction,
            auth,
            Action::ProposeRotation { new_key },
            wallet.state_bump,
            wallet.vault_bump,
            now,
        ).1 == Ok::<[u8; COMPRESSED_PUBKEY_LEN], HandlerError>(wallet.active_key),
    ensures
        wallet.nonce < u64::MAX,
        propose_rotation_outcome(wallet, auth, new_key, relayer_fee, instruction, now) == (
        SmartWallet {
            active_key: new_key,
            attested: false,
            rotation: None,
            nonce: (wallet.nonce + 1) as u64,
            ..wallet
        },
        Ok::<Seq<VaultTransfer>, HandlerError>(refund_only(relayer_fee, auth.max_relayer_fee))),
{
    lemma_authorization_consumes_one_nonce(
        wallet,
        instruction,
        auth,
        Action::ProposeRotation { new_key },
        wallet.state_bump,
        wallet.vault_bump,
        now,
    );
}

} // verus!
