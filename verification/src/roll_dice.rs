//! A dice game that consumes the coordinator's random words.

use vstd::prelude::*;
use crate::address::{address_of, config_seeds, find_config_address};
use crate::bytes::{le_value, read_u64_le};
use crate::pubkey::Pubkey;

verus! {

/// The configuration of the game.
#[derive(Clone, Copy, Debug, PartialEq, Eq)]
pub struct GameConfig {
    /// The coordinator program.
    pub coordinator_program: Pubkey,
    /// The subscription that pays for the requests.
    pub subscription_id: u64,
    /// Who may change the configuration.
    pub admin: Pubkey,
    /// Bump seed of the configuration's address.
    pub bump: u8,
}

/// One roll of the dice: 0 while it waits for its randomness, then 1 to 6.
#[derive(Clone, Copy, Debug, PartialEq, Eq)]
pub struct DiceRoll {
    /// Who rolled.
    pub player: Pubkey,
    /// The request that the roll waits for.
    pub vrf_request_id: u64,
    /// 0 while pending, else the face shown.
    pub result: u8,
    /// Bump seed of the roll's address.
    pub bump: u8,
}

/// Why the game refused an instruction.
#[derive(Clone, Copy, Debug, PartialEq, Eq, Structural)]
pub enum RollDiceError {
    /// The callback was not signed by the coordinator's configuration.
    InvalidCoordinator,
    /// The roll was settled before.
    AlreadySettled,
}

/// A roll was requested.
#[derive(Clone, Copy, Debug, PartialEq, Eq)]
pub struct DiceRollRequested {
    pub player: Pubkey,
    pub vrf_request_id: u64,
}

/// A roll was settled.
#[derive(Clone, Copy, Debug, PartialEq, Eq)]
pub struct DiceRollSettled {
    pub player: Pubkey,
    pub vrf_request_id: u64,
    pub result: u8,
}

/// The face that a random word shows: its first eight bytes, read as a
/// little-endian number, modulo 6, plus 1.
pub open spec fn dice_face(word: Seq<u8>) -> int {
    (le_value(word.subrange(0, 8)) % 6) as int + 1
}

/// Sets up the game.
pub fn initialize(coordinator_program: Pubkey, subscription_id: u64, admin: Pubkey, bump: u8) -> (config: GameConfig)
    ensures
        config == (GameConfig { coordinator_program, subscription_id, admin, bump }),
{
    GameConfig { coordinator_program, subscription_id, admin, bump }
}

/// Notes a roll that waits for the request `request_id`.
pub fn request_roll(player: Pubkey, request_id: u64, bump: u8) -> (requested: (DiceRoll, DiceRollRequested))
    ensures
        requested.0 == (DiceRoll { player, vrf_request_id: request_id, result: 0, bump }),
        requested.1 == (DiceRollRequested { player, vrf_request_id: request_id }),
{
    (
        DiceRoll { player, vrf_request_id: request_id, result: 0, bump },
        DiceRollRequested { player, vrf_request_id: request_id },
    )
}

/// Computes the face that a random word shows.
pub fn face_of_word(word: &[u8; 32]) -> (face: u8)
    ensures
        face == dice_face(word@),
        1 <= face <= 6,
{
    let value = read_u64_le(word.as_slice(), 0);
    (value % 6 + 1) as u8
}

/// What settling a roll with a random word comes to: `InvalidCoordinator`
/// where the signer is not the configuration account of the game's
/// coordinator, `AlreadySettled` where the roll shows a face, else the event
/// with the face of the word.
pub open spec fn settle_result(
    game_config: GameConfig,
    coordinator_config: Pubkey,
    dice: DiceRoll,
    request_id: u64,
    word: Seq<u8>,
) -> Result<DiceRollSettled, RollDiceError> {
    if address_of(config_seeds(), game_config.coordinator_program@) != Some(coordinator_config@) {
        Err(RollDiceError::InvalidCoordinator)
    } else if dice.result != 0 {
        Err(RollDiceError::AlreadySettled)
    } else {
        Ok(DiceRollSettled { player: dice.player, vrf_request_id: request_id, result: dice_face(word) as u8 })
    }
}

/// The roll after settling: it shows the face of the word where settling
/// succeeds, else it is as it was.
pub open spec fn after_settle(game_config: GameConfig, coordinator_config: Pubkey, dice: DiceRoll, word: Seq<u8>) -> DiceRoll {
    if settle_result(game_config, coordinator_config, dice, 0, word) is Ok {
        DiceRoll { result: dice_face(word) as u8, ..dice }
    } else {
        dice
    }
}

/// Settles a roll with the first of the random words. The callback must be
/// signed by the configuration account of the game's coordinator, and the
/// roll must be pending. At least one word must be delivered.
pub fn fulfill_random_words(
    game_config: &GameConfig,
    coordinator_config: &Pubkey,
    dice: &mut DiceRoll,
    request_id: u64,
    random_words: &Vec<[u8; 32]>,
) -> (settled: Result<DiceRollSettled, RollDiceError>)
    requires
        random_words@.len() > 0,
    ensures
        settled == settle_result(*game_config, *coordinator_config, *old(dice), request_id, random_words@[0]@),
        *final(dice) == after_settle(*game_config, *coordinator_config, *old(dice), random_words@[0]@),
{
    let expected = find_config_address(&game_config.coordinator_program);
    let signed = match expected {
        Some(key) => key.equals(coordinator_config),
        None => false,
    };
    if !signed {
        return Err(RollDiceError::InvalidCoordinator);
    }
    if dice.result != 0 {
        return Err(RollDiceError::AlreadySettled);
    }
    let face = face_of_word(&random_words[0]);
    dice.result = face;
    Ok(DiceRollSettled { player: dice.player, vrf_request_id: request_id, result: face })
}

/// Settles the roll where at least one word was delivered; else leaves it
/// as it is and returns `None`.
pub fn try_fulfill_random_words(
    game_config: &GameConfig,
    coordinator_config: &Pubkey,
    dice: &mut DiceRoll,
    request_id: u64,
    random_words: &Vec<[u8; 32]>,
) -> (settled: Option<Result<DiceRollSettled, RollDiceError>>)
    ensures
        random_words@.len() == 0 ==> settled is None && *final(dice) == *old(dice),
        random_words@.len() > 0 ==> settled == Some(
            settle_result(*game_config, *coordinator_config, *old(dice), request_id, random_words@[0]@),
        ) && *final(dice) == after_settle(*game_config, *coordinator_config, *old(dice), random_words@[0]@),
{
    if random_words.len() == 0 {
        None
    } else {
        Some(fulfill_random_words(game_config, coordinator_config, dice, request_id, random_words))
    }
}

} // verus!
