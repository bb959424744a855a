//! The wallet's on-chain state.

use vstd::prelude::*;

use crate::action;
use crate::constants::{COMPRESSED_PUBKEY_LEN, MAX_GUARDIANS, ROTATION_DELAY, ROTATION_WINDOW};

verus! {

/// The state account of one wallet.
#[derive(Clone, Copy, PartialEq, Eq, Debug)]
pub struct SmartWallet {
    /// SHA256(initial compressed signing pubkey). Stable identity, survives rotations.
    pub wallet_id: [u8; 32],
    /// Compressed SEC1 P-256 key currently allowed to authorise actions.
    pub active_key: [u8; COMPRESSED_PUBKEY_LEN],
    /// Own anti-replay counter, bound into the signed preimage.
    pub nonce: u64,
    /// True once a verifier receipt for `active_key` was accepted. Reset on rotation.
    pub attested: bool,
    /// Guardian-proposed rotation waiting for its timelock.
    pub rotation: Option<PendingRotation>,
    /// Fixed-size list: rent is per byte.
    pub guardians: [Guardian; MAX_GUARDIANS],
    pub state_bump: u8,
    pub vault_bump: u8,
}

/// A key rotation proposed by a guardian, waiting for its timelock.
#[derive(Clone, Copy, PartialEq, Eq, Debug)]
pub struct PendingRotation {
    pub new_key: [u8; COMPRESSED_PUBKEY_LEN],
    pub proposed_at: i64,
    pub proposed_by: u8,
}

/// One guardian slot of a wallet.
#[derive(Clone, Copy, PartialEq, Eq, Debug)]
pub enum Guardian {
    Empty,
    /// Another Apple device the user owns. Verified through the secp256r1 precompile.
    P256([u8; COMPRESSED_PUBKEY_LEN]),
    /// iCloud-synced passkey. Rejected by `set_guardians` in v1.
    WebAuthn([u8; COMPRESSED_PUBKEY_LEN]),
}

/// An all-zero active key marks a wallet that was never used.
pub open spec fn key_is_zero(key: [u8; COMPRESSED_PUBKEY_LEN]) -> bool {
    forall|i: int| 0 <= i < COMPRESSED_PUBKEY_LEN ==> key@[i] == 0
}

/// Whether `key` is all zeros.
pub fn is_zero_key(key: &[u8; COMPRESSED_PUBKEY_LEN]) -> (r: bool)
    ensures
        r == key_is_zero(*key),
{
    let mut i: usize = 0;
    while i < COMPRESSED_PUBKEY_LEN
        invariant
            0 <= i <= COMPRESSED_PUBKEY_LEN,
            forall|j: int| 0 <= j < i ==> key@[j] == 0,
        decreases COMPRESSED_PUBKEY_LEN - i,
    {
        if key[i] != 0 {
            return false;
        }
        i = i + 1;
    }
    true
}

impl SmartWallet {
    /// The wallet's invariant: only a wallet in use has a pending rotation,
    /// and a pending rotation names a non-zero key and the slot of the P-256
    /// guardian that proposed it.
    pub open spec fn well_formed(self) -> bool {
        match self.rotation {
            None => true,
            Some(pending) => {
                &&& !key_is_zero(self.active_key)
                &&& !key_is_zero(pending.new_key)
                &&& pending.proposed_by < MAX_GUARDIANS
                &&& self.guardians[pending.proposed_by as int] is P256
            },
        }
    }
}

/// `x + y`, clamped to the range of `i64`.
pub open spec fn saturating_add_spec(x: i64, y: i64) -> i64 {
    if x + y > i64::MAX {
        i64::MAX
    } else if x + y < i64::MIN {
        i64::MIN
    } else {
        (x + y) as i64
    }
}

/// `x + y`, clamped to the range of `i64`.
pub fn saturating_add(x: i64, y: i64) -> (r: i64)
    ensures
        r == saturating_add_spec(x, y),
{
    if y >= 0 {
        if x > i64::MAX - y {
            i64::MAX
        } else {
            x + y
        }
    } else {
        if x < i64::MIN - y {
            i64::MIN
        } else {
            x + y
        }
    }
}

impl PendingRotation {
    /// First second at which the rotation can be confirmed.
    pub open spec fn opens_at_spec(self) -> i64 {
        saturating_add_spec(self.proposed_at, ROTATION_DELAY)
    }

    /// Last second at which the rotation can be confirmed.
    pub open spec fn closes_at_spec(self) -> i64 {
        saturating_add_spec(self.opens_at_spec(), ROTATION_WINDOW)
    }

    /// First second at which `confirm_rotation` accepts it.
    pub fn opens_at(&self) -> (r: i64)
        ensures
            r == self.opens_at_spec(),
    {
        saturating_add(self.proposed_at, ROTATION_DELAY)
    }

    /// Last second at which `confirm_rotation` accepts it.
    pub fn closes_at(&self) -> (r: i64)
        ensures
            r == self.closes_at_spec(),
    {
        saturating_add(self.opens_at(), ROTATION_WINDOW)
    }

    /// Past its window: nobody confirmed in time, it no longer blocks anyone.
    pub fn is_expired(&self, now: i64) -> (r: bool)
        ensures
            r == (now > self.closes_at_spec()),
    {
        now > self.closes_at()
    }
}

/// Law: the confirmation window never closes before it opens; it opens
/// `ROTATION_DELAY` seconds after the proposal and lasts `ROTATION_WINDOW`
/// seconds, wherever these sums stay within `i64`.
pub proof fn lemma_rotation_window(p: PendingRotation)
    ensures
        p.opens_at_spec() <= p.closes_at_spec(),
        p.proposed_at <= p.opens_at_spec(),
        p.proposed_at + ROTATION_DELAY <= i64::MAX ==> p.opens_at_spec() == p.proposed_at
            + ROTATION_DELAY,
        p.proposed_at + ROTATION_DELAY + ROTATION_WINDOW <= i64::MAX ==> p.closes_at_spec()
            == p.proposed_at + ROTATION_DELAY + ROTATION_WINDOW,
{
}

/// The slot as the enclave signs it.
pub open spec fn guardian_to_encoding(g: Guardian) -> action::Guardian {
    match g {
        Guardian::Empty => action::Guardian::Empty,
        Guardian::P256(key) => action::Guardian::P256(key),
        Guardian::WebAuthn(key) => action::Guardian::WebAuthn(key),
    }
}

/// The preimage is built from the encoding side.
impl From<Guardian> for action::Guardian {
    fn from(guardian: Guardian) -> (r: Self) {
        match guardian {
            Guardian::Empty => action::Guardian::Empty,
            Guardian::P256(key) => action::Guardian::P256(key),
            Guardian::WebAuthn(key) => action::Guardian::WebAuthn(key),
        }
    }
}

impl vstd::std_specs::convert::FromSpecImpl<Guardian> for action::Guardian {
    open spec fn obeys_from_spec() -> bool {
        true
    }

    open spec fn from_spec(guardian: Guardian) -> action::Guardian {
        guardian_to_encoding(guardian)
    }
}

} // verus!
