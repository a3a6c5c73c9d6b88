use vrf_oracle::decoder::{
    parse_randomness_requested_event, parse_request_account, RandomnessRequestedEvent,
};
use vrf_oracle::discriminator::account_discriminator;
use vrf_oracle::pubkey::Pubkey;
use vrf_oracle::state::RandomnessRequest;

fn event() -> RandomnessRequestedEvent {
    RandomnessRequestedEvent {
        request_id: 42,
        subscription_id: 7,
        consumer_program: Pubkey::new([0xC0; 32]),
        requester: Pubkey::new([0xAB; 32]),
        num_words: 3,
        seed: [0x11; 32],
        request_slot: 100,
        callback_compute_limit: 200_000,
    }
}

fn request() -> RandomnessRequest {
    RandomnessRequest {
        request_id: 0x0102030405060708,
        subscription_id: 9,
        consumer_program: Pubkey::new([1; 32]),
        requester: Pubkey::new([2; 32]),
        num_words: 1,
        seed: [3; 32],
        request_slot: 55,
        callback_compute_limit: 1000,
        status: 1,
        randomness: [4; 32],
        fulfilled_slot: 56,
        bump: 254,
    }
}

#[test]
fn event_payload_has_the_fixed_layout() {
    let bytes = event().to_bytes();
    assert_eq!(bytes.len(), 128);
    assert_eq!(&bytes[0..8], &42u64.to_le_bytes());
    assert_eq!(&bytes[8..16], &7u64.to_le_bytes());
    assert_eq!(&bytes[16..48], &[0xC0; 32]);
    assert_eq!(&bytes[48..80], &[0xAB; 32]);
    assert_eq!(&bytes[80..84], &3u32.to_le_bytes());
    assert_eq!(&bytes[84..116], &[0x11; 32]);
    assert_eq!(&bytes[116..124], &100u64.to_le_bytes());
    assert_eq!(&bytes[124..128], &200_000u32.to_le_bytes());
}

#[test]
fn event_parses_back() {
    let bytes = event().to_bytes();
    assert_eq!(parse_randomness_requested_event(&bytes), Some(event()));
    let mut longer = bytes.clone();
    longer.extend_from_slice(&[9, 9, 9]);
    assert_eq!(parse_randomness_requested_event(&longer), Some(event()));
}

#[test]
fn short_event_payload_is_refused() {
    let bytes = event().to_bytes();
    assert_eq!(parse_randomness_requested_event(&bytes[..127]), None);
    assert_eq!(parse_randomness_requested_event(&[]), None);
    assert_eq!(parse_randomness_requested_event(&bytes[..80]), None);
}

#[test]
fn extreme_values_survive() {
    let e = RandomnessRequestedEvent {
        request_id: u64::MAX,
        subscription_id: 0,
        consumer_program: Pubkey::new([0xFF; 32]),
        requester: Pubkey::zero(),
        num_words: u32::MAX,
        seed: [0; 32],
        request_slot: u64::MAX - 1,
        callback_compute_limit: 0,
    };
    assert_eq!(parse_randomness_requested_event(&e.to_bytes()), Some(e));
}

#[test]
fn request_account_has_the_fixed_layout() {
    let data = request().to_account_data();
    assert_eq!(data.len(), 178);
    assert_eq!(&data[..8], &account_discriminator("RandomnessRequest"));
    assert_eq!(&data[8..16], &[8, 7, 6, 5, 4, 3, 2, 1]);
    assert_eq!(data[136], 1);
    assert_eq!(&data[137..169], &[4; 32]);
    assert_eq!(&data[169..177], &56u64.to_le_bytes());
    assert_eq!(data[177], 254);
    assert_eq!(&data[8..136], &request().event().to_bytes()[..]);
}

#[test]
fn request_account_parses_back() {
    let data = request().to_account_data();
    assert_eq!(parse_request_account(&data), Some(request()));
    let mut longer = data.clone();
    longer.resize(308, 0);
    assert_eq!(parse_request_account(&longer), Some(request()));
}

#[test]
fn short_request_account_is_refused() {
    let data = request().to_account_data();
    assert_eq!(parse_request_account(&data[..177]), None);
    assert_eq!(parse_request_account(&data[..121]), None);
    assert_eq!(parse_request_account(&[]), None);
}

#[test]
fn request_account_tag_is_skipped_unread() {
    let mut data = request().to_account_data();
    for b in data[..8].iter_mut() {
        *b = 0;
    }
    assert_eq!(parse_request_account(&data), Some(request()));
}
