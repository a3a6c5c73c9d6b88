use vrf_oracle::address::find_config_address;
use vrf_oracle::pubkey::Pubkey;
use vrf_oracle::roll_dice::{
    face_of_word, fulfill_random_words, initialize, request_roll, try_fulfill_random_words, DiceRoll,
    DiceRollRequested, DiceRollSettled, GameConfig, RollDiceError,
};

fn coordinator() -> Pubkey {
    Pubkey::new([0x50; 32])
}

fn game() -> GameConfig {
    initialize(coordinator(), 3, Pubkey::new([0xAD; 32]), 254)
}

fn word(first: u64) -> [u8; 32] {
    let mut w = [0xEE; 32];
    w[..8].copy_from_slice(&first.to_le_bytes());
    w
}

#[test]
fn face_is_first_eight_bytes_mod_six_plus_one() {
    assert_eq!(face_of_word(&word(0)), 1);
    assert_eq!(face_of_word(&word(5)), 6);
    assert_eq!(face_of_word(&word(6)), 1);
    assert_eq!(face_of_word(&word(1_000_003)), (1_000_003u64 % 6 + 1) as u8);
    assert_eq!(face_of_word(&word(u64::MAX)), (u64::MAX % 6 + 1) as u8);
    assert_eq!(face_of_word(&[0xFF; 32]), 4);
}

#[test]
fn roll_is_requested_pending() {
    let player = Pubkey::new([0xAB; 32]);
    let (roll, event) = request_roll(player, 42, 9);
    assert_eq!(roll, DiceRoll { player, vrf_request_id: 42, result: 0, bump: 9 });
    assert_eq!(event, DiceRollRequested { player, vrf_request_id: 42 });
    assert_eq!(game().subscription_id, 3);
}

#[test]
fn roll_is_settled_once_by_the_coordinator() {
    let player = Pubkey::new([0xAB; 32]);
    let (mut roll, _) = request_roll(player, 42, 9);
    let signer = find_config_address(&coordinator()).unwrap();
    let words = vec![word(10), word(3)];
    assert_eq!(
        fulfill_random_words(&game(), &Pubkey::new([1; 32]), &mut roll, 42, &words),
        Err(RollDiceError::InvalidCoordinator)
    );
    assert_eq!(roll.result, 0);
    assert_eq!(
        fulfill_random_words(&game(), &signer, &mut roll, 42, &words),
        Ok(DiceRollSettled { player, vrf_request_id: 42, result: 5 })
    );
    assert_eq!(roll.result, 5);
    assert_eq!(
        fulfill_random_words(&game(), &signer, &mut roll, 42, &words),
        Err(RollDiceError::AlreadySettled)
    );
    assert_eq!(roll.result, 5);
    let (mut fresh, _) = request_roll(player, 43, 9);
    assert!(try_fulfill_random_words(&game(), &signer, &mut fresh, 43, &Vec::new()).is_none());
    assert_eq!(fresh.result, 0);
    assert!(try_fulfill_random_words(&game(), &signer, &mut fresh, 43, &words).unwrap().is_ok());
}
