//! Reading the secp256r1 precompile instruction that precedes each signed
//! instruction.

use vstd::prelude::*;

use crate::bytes::{bytes_equal, copy_range, read_array33};
use crate::constants::{
    COMPRESSED_PUBKEY_LEN, PRECOMPILE_CURRENT_INSTRUCTION, PRECOMPILE_OFFSETS_LEN,
    PRECOMPILE_OFFSETS_START,
    SECP256R1_MESSAGE_OFFSET, SECP256R1_PROGRAM_ID, SECP256R1_PUBKEY_OFFSET,
    SECP256R1_SIGNATURE_OFFSET,
};
use crate::error::EnclaveKitError;

verus! {

/// What the precompile vouches for: the key that signed, and the message.
pub struct SignedPayload {
    pub pubkey: [u8; COMPRESSED_PUBKEY_LEN],
    pub message: Vec<u8>,
}

/// The instruction placed just before the current one in the transaction,
/// as the instructions sysvar holds it.
pub struct PrecedingInstruction {
    pub program_id: [u8; 32],
    /// How many accounts the instruction references.
    pub num_accounts: usize,
    pub data: Vec<u8>,
}

/// The seven `u16` fields at bytes 2..16 of the precompile data, in order.
struct SignatureOffsets {
    signature_offset: u16,
    signature_instruction_index: u16,
    public_key_offset: u16,
    public_key_instruction_index: u16,
    message_data_offset: u16,
    message_data_size: u16,
    message_instruction_index: u16,
}

/// The `i`-th little-endian `u16` of the offsets block.
pub open spec fn offset_field(data: Seq<u8>, i: int) -> int {
    let at = PRECOMPILE_OFFSETS_START + 2 * i;
    data[at] + 256 * data[at + 1]
}

/// Whether the offsets describe the one layout accepted: key at 16,
/// signature at 49, message at 113, all three in the precompile
/// instruction itself.
pub open spec fn offsets_match_layout(data: Seq<u8>) -> bool {
    &&& offset_field(data, 0) == SECP256R1_SIGNATURE_OFFSET
    &&& offset_field(data, 1) == PRECOMPILE_CURRENT_INSTRUCTION
    &&& offset_field(data, 2) == SECP256R1_PUBKEY_OFFSET
    &&& offset_field(data, 3) == PRECOMPILE_CURRENT_INSTRUCTION
    &&& offset_field(data, 4) == SECP256R1_MESSAGE_OFFSET
    &&& offset_field(data, 6) == PRECOMPILE_CURRENT_INSTRUCTION
}

/// The first check the preceding instruction fails, in the order they are
/// made, or `None` when it is a well-formed precompile instruction.
pub open spec fn precompile_failure(ix: PrecedingInstruction) -> Option<EnclaveKitError> {
    let data = ix.data@;
    if ix.program_id@ != SECP256R1_PROGRAM_ID@ {
        Some(EnclaveKitError::PrecompileProgramMismatch)
    } else if ix.num_accounts != 0 {
        Some(EnclaveKitError::PrecompileUnexpectedAccounts)
    } else if data.len() < SECP256R1_MESSAGE_OFFSET {
        Some(EnclaveKitError::PrecompileDataTooShort)
    } else if data[0] != 1 {
        Some(EnclaveKitError::PrecompileSignatureCountMismatch)
    } else if !offsets_match_layout(data) {
        Some(EnclaveKitError::PrecompileLayoutMismatch)
    } else if SECP256R1_MESSAGE_OFFSET + offset_field(data, 5) != data.len() {
        Some(EnclaveKitError::PrecompileMessageSizeMismatch)
    } else {
        None
    }
}

/// The key bytes of a well-formed precompile instruction.
pub open spec fn precompile_pubkey(ix: PrecedingInstruction) -> Seq<u8> {
    ix.data@.subrange(SECP256R1_PUBKEY_OFFSET as int, SECP256R1_SIGNATURE_OFFSET as int)
}

/// The message bytes of a well-formed precompile instruction.
pub open spec fn precompile_message(ix: PrecedingInstruction) -> Seq<u8> {
    ix.data@.subrange(SECP256R1_MESSAGE_OFFSET as int, ix.data@.len() as int)
}

/// Reads one little-endian `u16` of the offsets block.
fn read_offset_field(data: &[u8], i: usize) -> (r: u16)
    requires
        i < 7,
        data@.len() >= PRECOMPILE_OFFSETS_START + PRECOMPILE_OFFSETS_LEN,
    ensures
        r == offset_field(data@, i as int),
{
    let at = PRECOMPILE_OFFSETS_START + 2 * i;
    (data[at] as u16) + 256 * (data[at + 1] as u16)
}

impl SignatureOffsets {
    fn parse(data: &[u8]) -> (r: Self)
        requires
            data@.len() >= PRECOMPILE_OFFSETS_START + PRECOMPILE_OFFSETS_LEN,
        ensures
            r.signature_offset == offset_field(data@, 0),
            r.signature_instruction_index == offset_field(data@, 1),
            r.public_key_offset == offset_field(data@, 2),
            r.public_key_instruction_index == offset_field(data@, 3),
            r.message_data_offset == offset_field(data@, 4),
            r.message_data_size == offset_field(data@, 5),
            r.message_instruction_index == offset_field(data@, 6),
    {
        SignatureOffsets {
            signature_offset: read_offset_field(data, 0),
            signature_instruction_index: read_offset_field(data, 1),
            public_key_offset: read_offset_field(data, 2),
            public_key_instruction_index: read_offset_field(data, 3),
            message_data_offset: read_offset_field(data, 4),
            message_data_size: read_offset_field(data, 5),
            message_instruction_index: read_offset_field(data, 6),
        }
    }
}

/// Law: the one precompile instruction accepted, byte by byte. It belongs to
/// the secp256r1 program, references no accounts, carries exactly one
/// signature, and its offsets block (seven little-endian `u16`s from byte 2)
/// reads: signature at 49, public key at 16, message at 113 and running to
/// the end of the data, and every instruction index `0xffff`, so that the
/// key, the signature and the message the runtime verified are all in this
/// very instruction. Any other instruction is refused.
pub proof fn lemma_accepted_precompile_layout(ix: PrecedingInstruction)
    ensures
        precompile_failure(ix) is None <==> {
            let d = ix.data@;
            &&& ix.program_id@ == SECP256R1_PROGRAM_ID@
            &&& ix.num_accounts == 0
            &&& d.len() >= 113
            &&& d[0] == 1
            &&& d[2] == 49 && d[3] == 0
            &&& d[4] == 0xff && d[5] == 0xff
            &&& d[6] == 16 && d[7] == 0
            &&& d[8] == 0xff && d[9] == 0xff
            &&& d[10] == 113 && d[11] == 0
            &&& d[12] + 256 * d[13] == d.len() - 113
            &&& d[14] == 0xff && d[15] == 0xff
        },
{
}

/// Checks the secp256r1 precompile instruction placed just before this one.
///
/// Checks, each failing with its own error:
/// 1. the secp256r1 program id and no accounts;
/// 2. at least `SECP256R1_MESSAGE_OFFSET` bytes and exactly one signature;
/// 3. the seven offsets match the fixed layout (16 / 49 / 113) and every
///    instruction index is `u16::MAX`, i.e. "in this instruction";
/// 4. the message ends exactly where the data ends.
///
/// Returns the compressed public key and the raw message. The signature is
/// not returned: the runtime already verified it, the program never needs it.
pub fn load_secp256r1_payload(ix: &PrecedingInstruction) -> (r: Result<
    SignedPayload,
    EnclaveKitError,
>)
    ensures
        precompile_failure(*ix) matches Some(e) ==> r == Err::<SignedPayload, EnclaveKitError>(e),
        precompile_failure(*ix) is None ==> (r matches Ok(payload) && payload.pubkey@
            == precompile_pubkey(*ix) && payload.message@ == precompile_message(*ix)),
{
    if !bytes_equal(ix.program_id.as_slice(), SECP256R1_PROGRAM_ID.as_slice()) {
        return Err(EnclaveKitError::PrecompileProgramMismatch);
    }
    if ix.num_accounts != 0 {
        return Err(EnclaveKitError::PrecompileUnexpectedAccounts);
    }
    let data = ix.data.as_slice();
    if data.len() < SECP256R1_MESSAGE_OFFSET {
        return Err(EnclaveKitError::PrecompileDataTooShort);
    }
    if data[0] != 1 {
        return Err(EnclaveKitError::PrecompileSignatureCountMismatch);
    }
    let offsets = SignatureOffsets::parse(data);
    if !(offsets.signature_offset as usize == SECP256R1_SIGNATURE_OFFSET
        && offsets.public_key_offset as usize == SECP256R1_PUBKEY_OFFSET
        && offsets.message_data_offset as usize == SECP256R1_MESSAGE_OFFSET
        && offsets.signature_instruction_index == PRECOMPILE_CURRENT_INSTRUCTION
        && offsets.public_key_instruction_index == PRECOMPILE_CURRENT_INSTRUCTION
        && offsets.message_instruction_index == PRECOMPILE_CURRENT_INSTRUCTION) {
        return Err(EnclaveKitError::PrecompileLayoutMismatch);
    }
    if SECP256R1_MESSAGE_OFFSET + offsets.message_data_size as usize != data.len() {
        return Err(EnclaveKitError::PrecompileMessageSizeMismatch);
    }
    let pubkey = read_array33(data, SECP256R1_PUBKEY_OFFSET);
    let message = copy_range(data, SECP256R1_MESSAGE_OFFSET, data.len());
    Ok(SignedPayload { pubkey, message })
}

} // verus!
