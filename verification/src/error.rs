//! The errors the program answers with.

use vstd::prelude::*;

verus! {

/// Why the program refused an instruction.
#[derive(Clone, Copy, PartialEq, Eq, Debug, Structural)]
pub enum EnclaveKitError {
    /// The instruction before this one is not the secp256r1 precompile.
    PrecompileProgramMismatch,
    /// The precompile instruction must not reference any account.
    PrecompileUnexpectedAccounts,
    /// The precompile instruction data is too short.
    PrecompileDataTooShort,
    /// The precompile instruction must carry exactly one signature.
    PrecompileSignatureCountMismatch,
    /// The precompile offsets do not match the expected layout.
    PrecompileLayoutMismatch,
    /// The precompile message size does not match the instruction data length.
    PrecompileMessageSizeMismatch,
    /// SHA-256 of the signing key does not match wallet_id on first use.
    WalletIdMismatch,
    /// The signing key is not the wallet's active key.
    KeyMismatch,
    /// The nonce does not match the wallet counter.
    NonceMismatch,
    /// The signed authorization has expired.
    AuthorizationExpired,
    /// The signed message does not match the instruction arguments.
    PreimageMismatch,
    /// WebAuthn guardians are not supported in v1.
    WebAuthnGuardianUnsupported,
    /// There is no pending rotation.
    NoPendingRotation,
    /// The rotation delay has not elapsed yet.
    RotationTooEarly,
    /// The rotation window has closed.
    RotationExpired,
    /// The new key must not be all zeros.
    InvalidNewKey,
    /// The signing key is neither the active key nor a P-256 guardian.
    NotAGuardian,
    /// Another guardian's proposal is pending.
    RotationSlotTaken,
}

/// Why an instruction handler failed: a refusal of the program, or a
/// counter that would overflow.
#[derive(Clone, Copy, PartialEq, Eq, Debug, Structural)]
pub enum HandlerError {
    Program(EnclaveKitError),
    ArithmeticOverflow,
}

} // verus!
