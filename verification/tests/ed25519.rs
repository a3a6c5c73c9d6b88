use vrf_oracle::ed25519::{ed25519_instruction, ed25519_instruction_data, verify_ed25519_instruction};
use vrf_oracle::errors::VrfError;
use vrf_oracle::instruction::Instruction;
use vrf_oracle::pubkey::Pubkey;
use vrf_oracle::vrf::signed_message;

fn key() -> Pubkey {
    let mut bytes = [0u8; 32];
    for (i, b) in bytes.iter_mut().enumerate() {
        *b = i as u8;
    }
    Pubkey::new(bytes)
}

fn built(request_id: u64, randomness: &[u8; 32]) -> Instruction {
    ed25519_instruction(&key(), &[0xAA; 64], &signed_message(request_id, randomness))
}

#[test]
fn instruction_data_matches_golden_vector() {
    let randomness = [
        194, 87, 235, 254, 5, 31, 32, 186, 60, 153, 2, 92, 124, 37, 121, 248, 235, 29, 56, 211, 33, 255,
        132, 57, 175, 234, 169, 17, 43, 130, 234, 254,
    ];
    let message = signed_message(42, &randomness);
    let data = ed25519_instruction_data(&key().to_bytes(), &[0xAA; 64], &message);
    let mut golden = vec![1u8, 0, 48, 0, 255, 255, 16, 0, 255, 255, 112, 0, 40, 0, 255, 255];
    golden.extend(0u8..32);
    golden.extend_from_slice(&[0xAA; 64]);
    golden.extend_from_slice(&[42, 0, 0, 0, 0, 0, 0, 0]);
    golden.extend_from_slice(&randomness);
    assert_eq!(data, golden);
    assert_eq!(data.len(), 152);
}

#[test]
fn signed_message_is_embedded_at_declared_offsets() {
    let randomness = [7u8; 32];
    let message = signed_message(u64::MAX, &randomness);
    let data = ed25519_instruction_data(&[1; 32], &[2; 64], &message);
    let at = u16::from_le_bytes([data[10], data[11]]) as usize;
    let len = u16::from_le_bytes([data[12], data[13]]) as usize;
    assert_eq!(len, 40);
    assert_eq!(&data[at..at + len], &message[..]);
    let key_at = u16::from_le_bytes([data[6], data[7]]) as usize;
    assert_eq!(&data[key_at..key_at + 32], &[1u8; 32]);
    let sig_at = u16::from_le_bytes([data[2], data[3]]) as usize;
    assert_eq!(&data[sig_at..sig_at + 64], &[2u8; 64]);
}

#[test]
fn empty_and_long_messages_are_laid_out() {
    let data = ed25519_instruction_data(&[1; 32], &[2; 64], &[]);
    assert_eq!(data.len(), 112);
    assert_eq!(&data[12..14], &[0, 0]);
    let long = vec![5u8; 65535];
    let data = ed25519_instruction_data(&[1; 32], &[2; 64], &long);
    assert_eq!(data.len(), 112 + 65535);
    assert_eq!(&data[12..14], &[0xFF, 0xFF]);
}

#[test]
fn instruction_targets_the_native_program() {
    let ix = built(1, &[3; 32]);
    assert_eq!(ix.program_id, Pubkey::ed25519_program());
    assert_eq!(ix.program_id.to_bytes(), solana_sdk::ed25519_program::id().to_bytes());
    assert!(ix.accounts.is_empty());
}

#[test]
fn coordinator_accepts_what_the_oracle_builds() {
    let ix = built(42, &[3; 32]);
    assert_eq!(verify_ed25519_instruction(Some(&ix), &key(), 42, &[3; 32]), Ok(()));
}

#[test]
fn missing_instruction_is_refused() {
    assert_eq!(
        verify_ed25519_instruction(None, &key(), 42, &[3; 32]),
        Err(VrfError::InvalidEd25519Instruction)
    );
}

#[test]
fn wrong_program_is_refused() {
    let mut ix = built(42, &[3; 32]);
    ix.program_id = Pubkey::compute_budget_program();
    assert_eq!(
        verify_ed25519_instruction(Some(&ix), &key(), 42, &[3; 32]),
        Err(VrfError::InvalidEd25519Program)
    );
}

#[test]
fn short_data_is_refused() {
    let mut ix = built(42, &[3; 32]);
    ix.data.truncate(15);
    assert_eq!(
        verify_ed25519_instruction(Some(&ix), &key(), 42, &[3; 32]),
        Err(VrfError::InvalidEd25519Instruction)
    );
    let mut ix = built(42, &[3; 32]);
    ix.data.truncate(47);
    assert_eq!(
        verify_ed25519_instruction(Some(&ix), &key(), 42, &[3; 32]),
        Err(VrfError::InvalidEd25519Instruction)
    );
    let mut ix = built(42, &[3; 32]);
    ix.data.truncate(151);
    assert_eq!(
        verify_ed25519_instruction(Some(&ix), &key(), 42, &[3; 32]),
        Err(VrfError::InvalidEd25519Instruction)
    );
}

#[test]
fn wrong_signature_count_is_refused() {
    for count in [0u8, 2, 255] {
        let mut ix = built(42, &[3; 32]);
        ix.data[0] = count;
        assert_eq!(
            verify_ed25519_instruction(Some(&ix), &key(), 42, &[3; 32]),
            Err(VrfError::InvalidSignatureCount)
        );
    }
}

#[test]
fn foreign_instruction_indices_are_refused() {
    for at in [4usize, 5, 8, 9, 14, 15] {
        let mut ix = built(42, &[3; 32]);
        ix.data[at] = 0;
        assert_eq!(
            verify_ed25519_instruction(Some(&ix), &key(), 42, &[3; 32]),
            Err(VrfError::InvalidEd25519InstructionIndex)
        );
    }
}

#[test]
fn wrong_key_is_refused() {
    let ix = built(42, &[3; 32]);
    assert_eq!(
        verify_ed25519_instruction(Some(&ix), &Pubkey::new([9; 32]), 42, &[3; 32]),
        Err(VrfError::InvalidEd25519Pubkey)
    );
}

#[test]
fn wrong_message_is_refused() {
    let ix = built(42, &[3; 32]);
    assert_eq!(
        verify_ed25519_instruction(Some(&ix), &key(), 43, &[3; 32]),
        Err(VrfError::InvalidEd25519Message)
    );
    assert_eq!(
        verify_ed25519_instruction(Some(&ix), &key(), 42, &[4; 32]),
        Err(VrfError::InvalidEd25519Message)
    );
    let mut short = built(42, &[3; 32]);
    short.data[12] = 39;
    assert_eq!(
        verify_ed25519_instruction(Some(&short), &key(), 42, &[3; 32]),
        Err(VrfError::InvalidEd25519Message)
    );
}

#[test]
fn error_codes_count_from_6000() {
    assert_eq!(VrfError::RequestNotPending.code(), 6000);
    assert_eq!(VrfError::RequestNotPending.code(), 0x1770);
    assert_eq!(VrfError::Unauthorized.code(), 6007);
    assert_eq!(VrfError::CallbackFailed.code(), 6014);
}
