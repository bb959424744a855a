//! Values the program and the client SDK agree on byte for byte.

use vstd::prelude::*;

verus! {

/// Seed of the state PDA, the bytes of "wallet": `[WALLET_SEED, wallet_id]`.
pub const WALLET_SEED: [u8; 6] = [0x77, 0x61, 0x6c, 0x6c, 0x65, 0x74];

/// Seed of the vault PDA, the bytes of "vault": `[VAULT_SEED, wallet_id]`.
pub const VAULT_SEED: [u8; 5] = [0x76, 0x61, 0x75, 0x6c, 0x74];

/// Compressed SEC1 P-256 public key: 0x02 or 0x03 then the x coordinate.
pub const COMPRESSED_PUBKEY_LEN: usize = 33;

/// Fixed guardian slot count in `SmartWallet` and in `Action::SetGuardians`.
pub const MAX_GUARDIANS: usize = 3;

/// The program's address, `dG4h3aizVEW1bKjzkGsfk6zqcfa2MVn2DjavPniesSY`, as bytes.
pub const PROGRAM_ID: [u8; 32] = [
    9, 73, 241, 14, 88, 150, 67, 230, 230, 155, 1, 35, 116, 90, 81, 81, 191, 156, 135, 197, 88, 34,
    64, 178, 1, 192, 59, 91, 78, 212, 230, 73,
];

/// The secp256r1 precompile, `Secp256r1SigVerify1111111111111111111111111`, as bytes.
///
/// Layout of its instruction data with one signature:
/// - 0       num_signatures (u8) = 1
/// - 1       padding
/// - 2..16   signature offsets, 7 x u16 LE
/// - 16..49  compressed pubkey
/// - 49..113 signature
/// - 113..   message
pub const SECP256R1_PROGRAM_ID: [u8; 32] = [
    6, 146, 13, 236, 47, 234, 113, 181, 183, 35, 129, 77, 116, 45, 169, 3, 28, 131, 231, 95, 219,
    121, 93, 86, 142, 117, 71, 128, 32, 0, 0, 0,
];

/// ECDSA P-256 signature, r || s, low-S.
pub const P256_SIGNATURE_LEN: usize = 64;

/// Where the signature offsets start in the precompile data.
pub const PRECOMPILE_OFFSETS_START: usize = 2;

/// Size of the seven `u16` signature offsets.
pub const PRECOMPILE_OFFSETS_LEN: usize = 14;

/// Where the signed material starts in the precompile data.
pub const PRECOMPILE_DATA_START: usize = PRECOMPILE_OFFSETS_START + PRECOMPILE_OFFSETS_LEN;

/// Each offset comes with an instruction index saying which instruction of
/// the transaction holds the bytes. `u16::MAX` means the precompile
/// instruction itself, the only value accepted.
pub const PRECOMPILE_CURRENT_INSTRUCTION: u16 = 0xffff;

/// Offset 16: the compressed public key.
pub const SECP256R1_PUBKEY_OFFSET: usize = PRECOMPILE_DATA_START;

/// Offset 49 (16 + 33): the signature.
pub const SECP256R1_SIGNATURE_OFFSET: usize = SECP256R1_PUBKEY_OFFSET + COMPRESSED_PUBKEY_LEN;

/// Offset 113 (49 + 64): the message.
pub const SECP256R1_MESSAGE_OFFSET: usize = SECP256R1_SIGNATURE_OFFSET + P256_SIGNATURE_LEN;

/// Seconds a guardian's proposal must wait before it can be confirmed:
/// the time the owner has to cancel it. 72 hours.
pub const ROTATION_DELAY: i64 = 72 * 60 * 60;

/// Seconds the proposal stays confirmable once the delay has passed. 7 days.
pub const ROTATION_WINDOW: i64 = 7 * 24 * 60 * 60;

} // verus!
