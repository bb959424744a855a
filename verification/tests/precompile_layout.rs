use enclavekit::constants::SECP256R1_PROGRAM_ID;
use enclavekit::precompile::{load_secp256r1_payload, PrecedingInstruction};
use solana_secp256r1_program::new_secp256r1_instruction_with_signature;

#[test]
fn reads_the_instruction_the_secp256r1_crate_builds() {
    let pubkey = [0x03u8; 33];
    let signature = [0x44u8; 64];
    let message = b"hello enclave";
    let ix = new_secp256r1_instruction_with_signature(message, &signature, &pubkey);
    assert_eq!(ix.program_id.to_bytes(), SECP256R1_PROGRAM_ID);

    let preceding = PrecedingInstruction {
        program_id: ix.program_id.to_bytes(),
        num_accounts: ix.accounts.len(),
        data: ix.data.clone(),
    };
    let payload = load_secp256r1_payload(&preceding).unwrap();
    assert_eq!(payload.pubkey, pubkey);
    assert_eq!(payload.message, message.to_vec());
}
