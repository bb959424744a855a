//! EnclaveKit: a Solana smart wallet controlled by a Secure Enclave P-256 key.
//!
//! The user signs an action with the enclave key. The program checks the
//! signature through the `secp256r1` precompile and executes the action from
//! the wallet's vault. A relayer pays the transaction fee and is refunded from
//! the vault. Guardians can rotate the key after a timelock.
//!
//! - `action`, `preimage`, `wallet`, `constants`: the encoding shared with the
//!   client SDK.
//! - `state`, `precompile`, `authorization`, `instructions`, `error`: the
//!   program's decisions on the wallet's state.

pub mod action;
pub mod authorization;
pub mod bytes;
pub mod constants;
pub mod error;
pub mod instructions;
pub mod precompile;
pub mod preimage;
pub mod state;
pub mod wallet;

pub use constants::{
    COMPRESSED_PUBKEY_LEN, MAX_GUARDIANS, PROGRAM_ID, ROTATION_DELAY, ROTATION_WINDOW, VAULT_SEED,
    WALLET_SEED,
};
pub use instructions::{
    Bumps, CancelRotation, ConfirmRotation, Payee, ProposeRotation, SetGuardians, TransferSol,
    VaultTransfer,
};
pub use state::{Guardian, PendingRotation, SmartWallet};
