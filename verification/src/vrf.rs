//! Deterministic randomness derivation and the message the oracle signs.

use vstd::prelude::*;
use crate::bytes::{le_bytes, lemma_le_bytes_len, u64_to_le};
use crate::crypto::{hmac_sha256, hmac_sha256_tag};

verus! {

/// The MAC input for a request: `seed ‖ u64_le(request_slot) ‖ u64_le(request_id)`.
pub open spec fn vrf_input(seed: Seq<u8>, request_slot: u64, request_id: u64) -> Seq<u8> {
    seed + le_bytes(request_slot as nat, 8) + le_bytes(request_id as nat, 8)
}

/// The randomness of a request: the HMAC-SHA256 tag of its MAC input under
/// the oracle's secret.
pub open spec fn randomness_of(secret: Seq<u8>, seed: Seq<u8>, request_slot: u64, request_id: u64) -> Seq<u8> {
    hmac_sha256(secret, vrf_input(seed, request_slot, request_id))
}

/// The message the oracle signs: `u64_le(request_id) ‖ randomness`.
pub open spec fn signed_message_of(request_id: u64, randomness: Seq<u8>) -> Seq<u8> {
    le_bytes(request_id as nat, 8) + randomness
}

/// Builds the MAC input of a request.
pub fn vrf_input_bytes(seed: &[u8; 32], request_slot: u64, request_id: u64) -> (input: Vec<u8>)
    ensures
        input@ == vrf_input(seed@, request_slot, request_id),
        input@.len() == 48,
{
    let mut input: Vec<u8> = Vec::with_capacity(48);
    input.extend_from_slice(seed.as_slice());
    let slot = u64_to_le(request_slot);
    input.extend_from_slice(slot.as_slice());
    let id = u64_to_le(request_id);
    input.extend_from_slice(id.as_slice());
    input
}

/// Computes the 32-byte randomness for a request.
pub fn compute_randomness(hmac_secret: &[u8], seed: &[u8; 32], request_slot: u64, request_id: u64) -> (randomness: [u8; 32])
    ensures
        randomness@ == randomness_of(hmac_secret@, seed@, request_slot, request_id),
{
    let input = vrf_input_bytes(seed, request_slot, request_id);
    hmac_sha256_tag(hmac_secret, input.as_slice())
}

/// Builds the message that the oracle signs for a request.
pub fn signed_message(request_id: u64, randomness: &[u8; 32]) -> (message: Vec<u8>)
    ensures
        message@ == signed_message_of(request_id, randomness@),
        message@.len() == 40,
{
    let mut message: Vec<u8> = Vec::with_capacity(40);
    let id = u64_to_le(request_id);
    message.extend_from_slice(id.as_slice());
    message.extend_from_slice(randomness.as_slice());
    message
}

/// Two computations on the same secret, seed, slot and id give the same 32
/// bytes.
pub proof fn lemma_randomness_is_deterministic(
    secret: Seq<u8>,
    seed: Seq<u8>,
    request_slot: u64,
    request_id: u64,
    first: [u8; 32],
    second: [u8; 32],
)
    requires
        first@ == randomness_of(secret, seed, request_slot, request_id),
        second@ == randomness_of(secret, seed, request_slot, request_id),
    ensures
        first@ == second@,
        first@.len() == 32,
{
}

/// The signed message of any request is 40 bytes: the id's eight, then the
/// randomness.
pub proof fn lemma_signed_message_shape(request_id: u64, randomness: Seq<u8>)
    requires
        randomness.len() == 32,
    ensures
        signed_message_of(request_id, randomness).len() == 40,
        signed_message_of(request_id, randomness).subrange(0, 8) == le_bytes(request_id as nat, 8),
        signed_message_of(request_id, randomness).subrange(8, 40) == randomness,
{
    lemma_le_bytes_len(request_id as nat, 8);
    let m = signed_message_of(request_id, randomness);
    assert(m.subrange(0, 8) =~= le_bytes(request_id as nat, 8));
    assert(m.subrange(8, 40) =~= randomness);
}

} // verus!
