use base64::Engine;
use solana_sdk::signature::Keypair;
use vrf_oracle::address::find_config_address;
use vrf_oracle::compressed::{
    address_is_resolved, build_fulfill_compressed_instruction, catch_up_compressed_requests,
    fulfill_compressed_discriminator, fulfill_compressed_request, CompressedError,
};
use vrf_oracle::decoder::RandomnessRequestedEvent;
use vrf_oracle::instruction::AccountMeta;
use vrf_oracle::listener::{CompressedFulfillmentRequest, Deduplicator, FulfillmentRequest};
use vrf_oracle::metrics::Metrics;
use vrf_oracle::photon::{
    find_pending_compressed_requests, parse_compressed_account, validity_proof, CompressedAccountInfo,
    CompressedAccountItem, CompressedRandomnessRequest, ParseError, ProofError, ValidityProof,
};
use vrf_oracle::pubkey::Pubkey;

const TAG: [u8; 8] = [149, 31, 244, 154, 189, 164, 84, 79];

fn request(id: u64, status: u8) -> CompressedRandomnessRequest {
    CompressedRandomnessRequest {
        request_id: id,
        requester: Pubkey::new([0xAB; 32]),
        seed: [0x11; 32],
        request_slot: 100,
        status,
        randomness: [0; 32],
    }
}

fn item(id: u64, status: u8) -> CompressedAccountItem {
    let mut data = TAG.to_vec();
    data.extend_from_slice(&request(id, status).to_bytes());
    CompressedAccountItem {
        hash: bs58::encode([0x44u8; 32]).into_string(),
        address: Some(bs58::encode([0x55u8; 32]).into_string()),
        data: base64::engine::general_purpose::STANDARD.encode(data),
        tree: Some(bs58::encode([0x66u8; 32]).into_string()),
        leaf_index: Some(12),
    }
}

fn info(id: u64, status: u8) -> CompressedAccountInfo {
    CompressedAccountInfo {
        request: request(id, status),
        hash: [0x44; 32],
        address: [0x55; 32],
        merkle_tree: Pubkey::new([0x66; 32]),
        leaf_index: 12,
        merkle_tree_index: 0,
        nullifier_queue_index: 0,
        root_index: 0,
    }
}

#[test]
fn compressed_request_has_the_fixed_layout() {
    let bytes = request(0x0102030405060708, 1).to_bytes();
    assert_eq!(bytes.len(), 113);
    assert_eq!(&bytes[0..8], &[8, 7, 6, 5, 4, 3, 2, 1]);
    assert_eq!(&bytes[8..40], &[0xAB; 32]);
    assert_eq!(&bytes[40..72], &[0x11; 32]);
    assert_eq!(&bytes[72..80], &100u64.to_le_bytes());
    assert_eq!(bytes[80], 1);
    assert_eq!(&bytes[81..113], &[0; 32]);
    assert_eq!(CompressedRandomnessRequest::from_bytes(&bytes), Some(request(0x0102030405060708, 1)));
    assert_eq!(CompressedRandomnessRequest::from_bytes(&bytes[..112]), None);
    assert_eq!(CompressedRandomnessRequest::from_bytes(&[]), None);
}

#[test]
fn item_is_read_into_an_account() {
    assert_eq!(parse_compressed_account(&item(7, 0)), Ok(Some(info(7, 0))));
    let mut bare = item(7, 0);
    bare.address = None;
    bare.tree = None;
    bare.leaf_index = None;
    let mut expected = info(7, 0);
    expected.address = [0; 32];
    expected.merkle_tree = Pubkey::zero();
    expected.leaf_index = 0;
    assert_eq!(parse_compressed_account(&bare), Ok(Some(expected)));
}

#[test]
fn foreign_items_are_passed_over() {
    let mut foreign = item(7, 0);
    foreign.data = base64::engine::general_purpose::STANDARD.encode([1u8; 121]);
    assert_eq!(parse_compressed_account(&foreign), Ok(None));
    foreign.data = base64::engine::general_purpose::STANDARD.encode([149u8, 31, 244]);
    assert_eq!(parse_compressed_account(&foreign), Ok(None));
    foreign.data = String::new();
    assert_eq!(parse_compressed_account(&foreign), Ok(None));
}

#[test]
fn unreadable_items_give_each_error() {
    let mut bad = item(7, 0);
    bad.data = "not base64!".to_string();
    assert_eq!(parse_compressed_account(&bad), Err(ParseError::InvalidData));
    let mut bad = item(7, 0);
    let mut short = TAG.to_vec();
    short.extend_from_slice(&[0u8; 112]);
    bad.data = base64::engine::general_purpose::STANDARD.encode(short);
    assert_eq!(parse_compressed_account(&bad), Err(ParseError::DataTooShort));
    let mut bad = item(7, 0);
    bad.hash = "0OIl".to_string();
    assert_eq!(parse_compressed_account(&bad), Err(ParseError::InvalidHashEncoding));
    let mut bad = item(7, 0);
    bad.hash = bs58::encode([0x44u8; 31]).into_string();
    assert_eq!(parse_compressed_account(&bad), Err(ParseError::HashWrongLength));
    let mut bad = item(7, 0);
    bad.address = Some("nope".to_string());
    assert_eq!(parse_compressed_account(&bad), Err(ParseError::InvalidAddress));
    let mut bad = item(7, 0);
    bad.tree = Some(bs58::encode([0x66u8; 33]).into_string());
    assert_eq!(parse_compressed_account(&bad), Err(ParseError::InvalidTree));
}

#[test]
fn only_pending_requests_are_selected() {
    let mut broken = item(3, 0);
    broken.hash = "0".to_string();
    let mut foreign = item(4, 0);
    foreign.data = base64::engine::general_purpose::STANDARD.encode([0u8; 200]);
    let items = vec![item(1, 0), item(2, 1), broken, foreign, item(5, 0)];
    assert_eq!(find_pending_compressed_requests(&items), vec![info(1, 0), info(5, 0)]);
    assert!(find_pending_compressed_requests(&Vec::new()).is_empty());
}

#[test]
fn proof_parts_must_have_their_lengths() {
    let mut b = [0u8; 64];
    for (i, x) in b.iter_mut().enumerate() {
        *x = i as u8;
    }
    assert_eq!(validity_proof(&[1; 32], &b, &[3; 32]), Ok(ValidityProof { a: [1; 32], b, c: [3; 32] }));
    assert_eq!(validity_proof(&[1; 31], &b, &[3; 32]), Err(ProofError::WrongSizeA));
    assert_eq!(validity_proof(&[1; 33], &b[..1], &[]), Err(ProofError::WrongSizeA));
    assert_eq!(validity_proof(&[1; 32], &b[..63], &[3; 32]), Err(ProofError::WrongSizeB));
    assert_eq!(validity_proof(&[1; 32], &b, &[3; 33]), Err(ProofError::WrongSizeC));
}

fn program() -> Pubkey {
    Pubkey::new([0x50; 32])
}

fn parts() -> ValidityProof {
    ValidityProof { a: [0xA1; 32], b: [0xB2; 64], c: [0xC3; 32] }
}

#[test]
fn compressed_instruction_has_the_fixed_layout() {
    let mut account = info(7, 0);
    account.merkle_tree_index = 2;
    account.nullifier_queue_index = 3;
    account.root_index = 0x0405;
    let authority = Pubkey::new([1; 32]);
    let ix = build_fulfill_compressed_instruction(&program(), &authority, 7, &[9; 32], &parts(), &account)
        .unwrap();
    let mut data = fulfill_compressed_discriminator().to_vec();
    data.extend_from_slice(&7u64.to_le_bytes());
    data.extend_from_slice(&[9; 32]);
    data.extend_from_slice(&[0xA1; 32]);
    data.extend_from_slice(&[0xB2; 64]);
    data.extend_from_slice(&[0xC3; 32]);
    data.extend_from_slice(&[2, 3]);
    data.extend_from_slice(&12u32.to_le_bytes());
    data.push(0);
    data.extend_from_slice(&[5, 4]);
    data.extend_from_slice(&request(7, 0).to_bytes());
    data.extend_from_slice(&[0x44; 32]);
    data.extend_from_slice(&[0x55; 32]);
    data.push(2);
    data.extend_from_slice(&[0; 32]);
    assert_eq!(ix.data, data);
    assert_eq!(ix.program_id, program());
    assert_eq!(
        ix.accounts,
        vec![
            AccountMeta::new(authority, true),
            AccountMeta::new_readonly(find_config_address(&program()).unwrap(), false),
            AccountMeta::new_readonly(Pubkey::instructions_sysvar(), false),
            AccountMeta::new(Pubkey::new([0x66; 32]), false),
        ]
    );
}

fn compressed(id: u64, address: [u8; 32]) -> CompressedFulfillmentRequest {
    CompressedFulfillmentRequest {
        event: RandomnessRequestedEvent {
            request_id: id,
            subscription_id: 0,
            consumer_program: Pubkey::zero(),
            requester: Pubkey::new([0xAB; 32]),
            num_words: 0,
            seed: [0x11; 32],
            request_slot: 100,
            callback_compute_limit: 0,
        },
        address,
    }
}

#[test]
fn compressed_fulfillment_checks_address_and_request() {
    let keypair = Keypair::new_from_array([7u8; 32]);
    let unresolved = compressed(7, [0; 32]);
    assert!(!address_is_resolved(&unresolved));
    assert_eq!(
        fulfill_compressed_request(b"s", &keypair, &program(), 0, &unresolved, &info(7, 0), &parts()),
        Err(CompressedError::UnresolvedAddress)
    );
    let resolved = compressed(7, [0x55; 32]);
    assert!(address_is_resolved(&resolved));
    assert_eq!(
        fulfill_compressed_request(b"s", &keypair, &program(), 0, &resolved, &info(8, 0), &parts()),
        Err(CompressedError::WrongRequest)
    );
    let f = fulfill_compressed_request(b"s", &keypair, &program(), 1, &resolved, &info(7, 0), &parts())
        .unwrap();
    assert_eq!(f.instructions.len(), 3);
    assert_eq!(
        f.instructions[2],
        build_fulfill_compressed_instruction(&program(), &f.authority, 7, &f.randomness, &parts(), &info(7, 0))
            .unwrap()
    );
    assert_eq!(&f.instructions[1].data[112..], &f.message[..]);
}

#[test]
fn compressed_catch_up_emits_each_account_once() {
    let mut dedup = Deduplicator::new();
    let mut metrics = Metrics::new();
    let accounts = vec![info(1, 0), info(2, 0), info(1, 0)];
    let out = catch_up_compressed_requests(&accounts, &mut dedup, &mut metrics);
    assert_eq!(
        out,
        vec![
            FulfillmentRequest::Compressed(compressed(1, [0x55; 32])),
            FulfillmentRequest::Compressed(compressed(2, [0x55; 32]))
        ]
    );
    assert_eq!(metrics.compressed_requests_received, 2);
    assert_eq!(metrics.requests_received, 0);
}
