//! The program-derived addresses that the oracle names in its transactions.

use vstd::prelude::*;
use vstd::slice::slice_to_vec;
use vstd::string::StringSliceAdditionalSpecFns;
use crate::bytes::{le_bytes, u64_to_le};
use crate::pubkey::{find_program_address, optional_key_view, program_address, Pubkey};

verus! {

/// The seeds of the coordinator's configuration account.
pub open spec fn config_seeds() -> Seq<Seq<u8>> {
    seq!["coordinator-config".spec_bytes()]
}

/// The seeds of the account of request `request_id`.
pub open spec fn request_seeds(request_id: u64) -> Seq<Seq<u8>> {
    seq!["request".spec_bytes(), le_bytes(request_id as nat, 8)]
}

/// The seeds of the dice consumer's configuration account.
pub open spec fn game_config_seeds() -> Seq<Seq<u8>> {
    seq!["game-config".spec_bytes()]
}

/// The seeds of the dice consumer's result account for a requester and a
/// request.
pub open spec fn dice_result_seeds(requester: Seq<u8>, request_id: u64) -> Seq<Seq<u8>> {
    seq!["dice-result".spec_bytes(), requester, le_bytes(request_id as nat, 8)]
}

/// The address that `seeds` derive under `program_id`, without the bump.
pub open spec fn address_of(seeds: Seq<Seq<u8>>, program_id: Seq<u8>) -> Option<Seq<u8>> {
    match program_address(seeds, program_id) {
        Some((key, _)) => Some(key),
        None => None,
    }
}

/// Derives the address for `seeds` under `program_id`.
fn derive(seeds: &Vec<Vec<u8>>, program_id: &Pubkey) -> (key: Option<Pubkey>)
    ensures
        optional_key_view(key) == address_of(seeds.deep_view(), program_id@),
{
    match find_program_address(seeds, program_id) {
        Some((key, _)) => Some(key),
        None => None,
    }
}

/// The address of the coordinator's configuration account.
pub fn find_config_address(program_id: &Pubkey) -> (key: Option<Pubkey>)
    ensures
        optional_key_view(key) == address_of(config_seeds(), program_id@),
{
    let mut seeds: Vec<Vec<u8>> = Vec::new();
    seeds.push(slice_to_vec("coordinator-config".as_bytes()));
    assert(seeds.deep_view() =~~= config_seeds());
    derive(&seeds, program_id)
}

/// The address of the account of request `request_id`.
pub fn find_request_address(program_id: &Pubkey, request_id: u64) -> (key: Option<Pubkey>)
    ensures
        optional_key_view(key) == address_of(request_seeds(request_id), program_id@),
{
    let mut seeds: Vec<Vec<u8>> = Vec::new();
    seeds.push(slice_to_vec("request".as_bytes()));
    seeds.push(slice_to_vec(u64_to_le(request_id).as_slice()));
    assert(seeds.deep_view() =~~= request_seeds(request_id));
    derive(&seeds, program_id)
}

/// The address of the dice consumer's configuration account.
pub fn find_game_config_address(dice_program_id: &Pubkey) -> (key: Option<Pubkey>)
    ensures
        optional_key_view(key) == address_of(game_config_seeds(), dice_program_id@),
{
    let mut seeds: Vec<Vec<u8>> = Vec::new();
    seeds.push(slice_to_vec("game-config".as_bytes()));
    assert(seeds.deep_view() =~~= game_config_seeds());
    derive(&seeds, dice_program_id)
}

/// The address of the dice consumer's result account for a requester and a
/// request.
pub fn find_dice_result_address(dice_program_id: &Pubkey, requester: &Pubkey, request_id: u64) -> (key: Option<Pubkey>)
    ensures
        optional_key_view(key) == address_of(dice_result_seeds(requester@, request_id), dice_program_id@),
{
    let mut seeds: Vec<Vec<u8>> = Vec::new();
    seeds.push(slice_to_vec("dice-result".as_bytes()));
    seeds.push(slice_to_vec(requester.bytes.as_slice()));
    seeds.push(slice_to_vec(u64_to_le(request_id).as_slice()));
    assert(seeds.deep_view() =~~= dice_result_seeds(requester@, request_id));
    derive(&seeds, dice_program_id)
}

} // verus!
