use vrf_oracle::address::{find_dice_result_address, find_game_config_address};
use vrf_oracle::consumer_accounts::{
    derive_dice_callback_accounts, read_callback_accounts_from_request, resolve_callback_accounts,
};
use vrf_oracle::decoder::RandomnessRequestedEvent;
use vrf_oracle::instruction::AccountMeta;
use vrf_oracle::pubkey::Pubkey;

fn dice() -> Pubkey {
    Pubkey::new([0xD1; 32])
}

fn event(consumer: Pubkey) -> RandomnessRequestedEvent {
    RandomnessRequestedEvent {
        request_id: 42,
        subscription_id: 1,
        consumer_program: consumer,
        requester: Pubkey::new([0xAB; 32]),
        num_words: 1,
        seed: [0x11; 32],
        request_slot: 100,
        callback_compute_limit: 200_000,
    }
}

fn data_with(count: u8, bitmap: u8) -> Vec<u8> {
    let mut data = vec![0u8; 308];
    data[178] = count;
    for slot in 0..4 {
        for b in data[179 + 32 * slot..179 + 32 * slot + 32].iter_mut() {
            *b = 0x60 + slot as u8;
        }
    }
    data[307] = bitmap;
    data
}

#[test]
fn reads_the_table_with_writable_bits() {
    let accounts = read_callback_accounts_from_request(&data_with(3, 0b0000_0101));
    assert_eq!(
        accounts,
        vec![
            AccountMeta { pubkey: Pubkey::new([0x60; 32]), is_signer: false, is_writable: true },
            AccountMeta { pubkey: Pubkey::new([0x61; 32]), is_signer: false, is_writable: false },
            AccountMeta { pubkey: Pubkey::new([0x62; 32]), is_signer: false, is_writable: true },
        ]
    );
}

#[test]
fn count_is_clamped_to_four() {
    let accounts = read_callback_accounts_from_request(&data_with(200, 0b1111_1000));
    assert_eq!(accounts.len(), 4);
    assert!(!accounts[0].is_writable);
    assert!(accounts[3].is_writable);
    assert_eq!(accounts[3].pubkey, Pubkey::new([0x63; 32]));
    assert_eq!(read_callback_accounts_from_request(&data_with(4, 0)).len(), 4);
}

#[test]
fn old_format_and_empty_table_give_no_accounts() {
    assert!(read_callback_accounts_from_request(&data_with(0, 0xFF)).is_empty());
    assert!(read_callback_accounts_from_request(&data_with(3, 0)[..307]).is_empty());
    assert!(read_callback_accounts_from_request(&vec![0u8; 178]).is_empty());
    assert!(read_callback_accounts_from_request(&[]).is_empty());
}

#[test]
fn dice_accounts_are_derived() {
    let accounts = derive_dice_callback_accounts(&dice(), &event(dice())).unwrap();
    assert_eq!(
        accounts,
        vec![
            AccountMeta::new_readonly(find_game_config_address(&dice()).unwrap(), false),
            AccountMeta::new(find_dice_result_address(&dice(), &Pubkey::new([0xAB; 32]), 42).unwrap(), false),
        ]
    );
    assert!(!accounts[0].is_writable);
    assert!(accounts[1].is_writable);
}

#[test]
fn carried_accounts_are_preferred() {
    let data = data_with(1, 1);
    let out = resolve_callback_accounts(&event(dice()), Some(&dice()), Some(&data));
    assert_eq!(out, read_callback_accounts_from_request(&data));
    assert_eq!(out.len(), 1);
}

#[test]
fn dice_derivation_is_the_fallback() {
    let derived = derive_dice_callback_accounts(&dice(), &event(dice())).unwrap();
    assert_eq!(resolve_callback_accounts(&event(dice()), Some(&dice()), None), derived);
    let old = vec![0u8; 178];
    assert_eq!(resolve_callback_accounts(&event(dice()), Some(&dice()), Some(&old)), derived);
}

#[test]
fn unknown_consumer_gets_no_accounts() {
    let other = Pubkey::new([0xEE; 32]);
    assert!(resolve_callback_accounts(&event(other), Some(&dice()), None).is_empty());
    assert!(resolve_callback_accounts(&event(dice()), None, None).is_empty());
    assert!(resolve_callback_accounts(&event(other), None, Some(&data_with(0, 0))).is_empty());
}
