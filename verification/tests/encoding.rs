use std::str::FromStr;

use anchor_lang::prelude::Pubkey;
use enclavekit::action::{Action, Guardian};
use enclavekit::preimage::{
    Preimage, ACTION_OFFSET, DOMAIN_TAG, EXPIRES_AT_OFFSET, HEADER_LEN, MAX_RELAYER_FEE_OFFSET,
    NONCE_OFFSET, PROGRAM_ID_OFFSET, WALLET_ID_OFFSET,
};
use enclavekit::wallet::wallet_id;

// Actions

#[test]
fn unit_variant_is_its_index_only() {
    assert_eq!(Action::CancelRotation.to_bytes(), [3]);
}

#[test]
fn transfer_sol_is_index_then_fields_in_order() {
    let action = Action::TransferSol {
        to: [0x11; 32],
        lamports: 500_000_000,
    };

    let mut expected = vec![0u8]; // variant index
    expected.extend_from_slice(&[0x11; 32]);
    expected.extend_from_slice(&500_000_000u64.to_le_bytes());

    assert_eq!(action.to_bytes(), expected);
}

#[test]
fn every_variant_round_trips() {
    let actions = [
        Action::TransferSol {
            to: [0x11; 32],
            lamports: 1,
        },
        Action::TransferToken {
            mint: [0x22; 32],
            to: [0x33; 32],
            amount: 2,
        },
        Action::ProposeRotation { new_key: [0x44; 33] },
        Action::CancelRotation,
        Action::SetGuardians {
            guardians: [Guardian::P256([0x55; 33]), Guardian::Empty, Guardian::Empty],
        },
        Action::CloseWallet { rent_to: [0x66; 32] },
    ];

    for (index, action) in actions.iter().enumerate() {
        let bytes = action.to_bytes();
        assert_eq!(bytes[0] as usize, index, "variant index of {action:?}");

        let decoded = Action::try_from_slice(&bytes).unwrap();
        assert_eq!(&decoded, action);
    }
}

#[test]
fn encoding_agrees_with_borsh_on_the_same_fields() {
    // Borsh writes an enum variant as its index byte followed by its fields;
    // the same fields written as a tuple give the same bytes.
    let action = Action::TransferToken {
        mint: [0x22; 32],
        to: [0x33; 32],
        amount: 0x0102_0304_0506_0708,
    };
    let expected = borsh::to_vec(&(1u8, [0x22u8; 32], [0x33u8; 32], 0x0102_0304_0506_0708u64)).unwrap();
    assert_eq!(action.to_bytes(), expected);

    let guardians = Action::SetGuardians {
        guardians: [Guardian::Empty, Guardian::WebAuthn([0x77; 33]), Guardian::P256([0x55; 33])],
    };
    let expected = borsh::to_vec(&(4u8, 0u8, 2u8, [0x77u8; 33], 1u8, [0x55u8; 33])).unwrap();
    assert_eq!(guardians.to_bytes(), expected);
}

#[test]
fn set_guardians_encoding_has_the_length_of_its_slots() {
    let action = Action::SetGuardians {
        guardians: [Guardian::P256([0x55; 33]), Guardian::Empty, Guardian::WebAuthn([0x56; 33])],
    };
    let bytes = action.to_bytes();
    assert_eq!(bytes.len(), 1 + 34 + 1 + 34);
    assert_eq!(bytes[1], 1);
    assert_eq!(bytes[35], 0);
    assert_eq!(bytes[36], 2);
}

#[test]
fn decoding_refuses_what_no_action_encodes() {
    // Unknown variant index.
    assert_eq!(Action::try_from_slice(&[6]), None);
    // Empty input.
    assert_eq!(Action::try_from_slice(&[]), None);
    // A trailing byte after a complete action.
    assert_eq!(Action::try_from_slice(&[3, 0]), None);
    // A field cut short.
    let mut bytes = Action::CloseWallet { rent_to: [0x66; 32] }.to_bytes();
    bytes.pop();
    assert_eq!(Action::try_from_slice(&bytes), None);
    // An unknown guardian variant.
    assert_eq!(Action::try_from_slice(&[4, 0, 3, 0]), None);
    // Too few guardian slots.
    assert_eq!(Action::try_from_slice(&[4, 0, 0]), None);
    // Too many guardian slots.
    assert_eq!(Action::try_from_slice(&[4, 0, 0, 0, 0]), None);
}

#[test]
fn decoding_reads_the_little_endian_amount() {
    let mut bytes = vec![0u8];
    bytes.extend_from_slice(&[0x11; 32]);
    bytes.extend_from_slice(&[0x01, 0x02, 0, 0, 0, 0, 0, 0]);
    assert_eq!(
        Action::try_from_slice(&bytes),
        Some(Action::TransferSol {
            to: [0x11; 32],
            lamports: 0x0201,
        })
    );
}

// Preimages

fn sample_action() -> Action {
    Action::TransferSol {
        to: [0x11; 32],
        lamports: 500_000_000,
    }
}

fn sample<'a>(action: &'a Action) -> Preimage<'a> {
    Preimage {
        program_id: [0xAA; 32],
        wallet_id: [0xBB; 32],
        nonce: 7,
        expires_at: 1_700_000_000,
        max_relayer_fee: 10_000,
        action,
    }
}

#[test]
fn header_offsets_match_layout() {
    let action = sample_action();
    let bytes = sample(&action).to_bytes();

    assert_eq!(&bytes[..16], &DOMAIN_TAG);
    assert_eq!(&bytes[PROGRAM_ID_OFFSET..WALLET_ID_OFFSET], &[0xAA; 32]);
    assert_eq!(&bytes[WALLET_ID_OFFSET..NONCE_OFFSET], &[0xBB; 32]);
    assert_eq!(&bytes[NONCE_OFFSET..EXPIRES_AT_OFFSET], &7u64.to_le_bytes());
    assert_eq!(
        &bytes[EXPIRES_AT_OFFSET..MAX_RELAYER_FEE_OFFSET],
        &1_700_000_000i64.to_le_bytes()
    );
    assert_eq!(
        &bytes[MAX_RELAYER_FEE_OFFSET..ACTION_OFFSET],
        &10_000u64.to_le_bytes()
    );
    assert_eq!(&bytes[ACTION_OFFSET..], &action.to_bytes());
}

#[test]
fn transfer_sol_preimage_has_expected_length() {
    let action = sample_action();
    // TransferSol = 1 (variant tag) + 32 (to) + 8 (lamports)
    assert_eq!(sample(&action).to_bytes().len(), HEADER_LEN + 1 + 32 + 8);
}

#[test]
fn changing_any_field_changes_the_bytes() {
    let action = sample_action();
    let base = sample(&action);
    let reference = base.to_bytes();

    let mut other = base.clone();
    other.nonce += 1;
    assert_ne!(other.to_bytes(), reference);

    let mut other = base.clone();
    other.max_relayer_fee += 1;
    assert_ne!(other.to_bytes(), reference);

    let mut other = base.clone();
    other.wallet_id[0] ^= 1;
    assert_ne!(other.to_bytes(), reference);

    let other_action = Action::TransferSol {
        to: [0x11; 32],
        lamports: 500_000_001,
    };
    assert_ne!(sample(&other_action).to_bytes(), reference);
}

#[test]
fn domain_tag_spells_the_protocol_version() {
    assert_eq!(&DOMAIN_TAG, b"enclavekit:v1\0\0\0");
    assert_eq!(HEADER_LEN, 104);
}

#[test]
fn negative_expiry_is_written_in_twos_complement() {
    let action = Action::CancelRotation;
    let mut preimage = sample(&action);
    preimage.expires_at = -2;
    let bytes = preimage.to_bytes();
    assert_eq!(&bytes[EXPIRES_AT_OFFSET..MAX_RELAYER_FEE_OFFSET], &(-2i64).to_le_bytes());
    assert_eq!(bytes.len(), HEADER_LEN + 1);
}

// Wallet identity

#[test]
fn wallet_id_is_sha256_of_the_compressed_key() {
    // Reference computed outside Rust:
    // python3 -c "import hashlib; print(hashlib.sha256(bytes([2]*33)).hexdigest())"
    let expected: [u8; 32] = [
        0x7f, 0x2f, 0x54, 0xff, 0x94, 0x45, 0x9f, 0x3a, 0xc4, 0xd1, 0x9d, 0x32, 0x19, 0xce,
        0x6e, 0xf0, 0x68, 0x68, 0xeb, 0x8c, 0x72, 0xe6, 0xd8, 0x4c, 0xc3, 0x58, 0xbc, 0x76,
        0x9b, 0x23, 0x11, 0x3a,
    ];
    assert_eq!(wallet_id(&[0x02; 33]), expected);
}

#[test]
fn different_keys_give_different_ids() {
    let a = wallet_id(&[0x02; 33]);
    let mut other_key = [0x02; 33];
    other_key[32] ^= 1;
    assert_ne!(wallet_id(&other_key), a);
}

#[test]
fn wallet_id_is_deterministic() {
    assert_eq!(wallet_id(&[0x03; 33]), wallet_id(&[0x03; 33]));
}

// Addresses

#[test]
fn program_ids_are_the_declared_addresses() {
    let program = Pubkey::from_str("dG4h3aizVEW1bKjzkGsfk6zqcfa2MVn2DjavPniesSY").unwrap();
    assert_eq!(program.to_bytes(), enclavekit::constants::PROGRAM_ID);
    let precompile = Pubkey::from_str("Secp256r1SigVerify1111111111111111111111111").unwrap();
    assert_eq!(precompile.to_bytes(), enclavekit::constants::SECP256R1_PROGRAM_ID);
    assert_eq!(&enclavekit::WALLET_SEED, b"wallet");
    assert_eq!(&enclavekit::VAULT_SEED, b"vault");
}

#[test]
fn state_guardians_sign_as_encoding_guardians() {
    assert_eq!(
        enclavekit::action::Guardian::from(enclavekit::Guardian::Empty),
        enclavekit::action::Guardian::Empty
    );
    assert_eq!(
        enclavekit::action::Guardian::from(enclavekit::Guardian::P256([0x02; 33])),
        enclavekit::action::Guardian::P256([0x02; 33])
    );
    assert_eq!(
        enclavekit::action::Guardian::from(enclavekit::Guardian::WebAuthn([0x03; 33])),
        enclavekit::action::Guardian::WebAuthn([0x03; 33])
    );
}
