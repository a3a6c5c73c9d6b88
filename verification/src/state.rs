//! The accounts of the coordinator program.

use vstd::prelude::*;
use crate::pubkey::{zero_address, Pubkey};

verus! {

/// Status of a request that waits for the oracle.
pub const STATUS_PENDING: u8 = 0;

/// Status of a request whose randomness was delivered.
pub const STATUS_FULFILLED: u8 = 1;

/// The coordinator's configuration, one per deployment.
#[derive(Clone, Copy, Debug, PartialEq, Eq)]
pub struct CoordinatorConfig {
    /// Who may change the configuration.
    pub admin: Pubkey,
    /// The oracle's public key.
    pub authority: Pubkey,
    /// Fee in lamports for each word requested.
    pub fee_per_word: u64,
    /// Most words one request may ask for.
    pub max_num_words: u32,
    /// The id that the next request gets.
    pub request_counter: u64,
    /// The id that the next subscription gets.
    pub subscription_counter: u64,
    /// Bump seed of the configuration's address.
    pub bump: u8,
}

impl CoordinatorConfig {
    /// Neither the admin nor the authority is the zero address.
    pub open spec fn wf(&self) -> bool {
        &&& self.admin@ != zero_address()
        &&& self.authority@ != zero_address()
    }
}

/// A billing account that pays for requests.
#[derive(Clone, Copy, Debug, PartialEq, Eq)]
pub struct Subscription {
    /// The subscription's id.
    pub id: u64,
    /// Who manages the subscription.
    pub owner: Pubkey,
    /// Lamports left to pay fees with.
    pub balance: u64,
    /// Requests made through the subscription.
    pub req_count: u64,
    /// Consumer programs registered with it.
    pub consumer_count: u32,
    /// Bump seed of the subscription's address.
    pub bump: u8,
}

/// The right of one consumer program to charge one subscription.
#[derive(Clone, Copy, Debug, PartialEq, Eq)]
pub struct ConsumerRegistration {
    /// The subscription charged.
    pub subscription_id: u64,
    /// The consumer program.
    pub program_id: Pubkey,
    /// Version counter of the registration.
    pub nonce: u64,
    /// Bump seed of the registration's address.
    pub bump: u8,
}

/// One request for randomness.
#[derive(Clone, Copy, Debug, PartialEq, Eq)]
pub struct RandomnessRequest {
    /// The request's id.
    pub request_id: u64,
    /// The subscription that pays.
    pub subscription_id: u64,
    /// The program that gets the callback.
    pub consumer_program: Pubkey,
    /// Who made the request and gets the rent back.
    pub requester: Pubkey,
    /// Number of random words asked for.
    pub num_words: u32,
    /// Entropy that the requester chose.
    pub seed: [u8; 32],
    /// Slot in which the request was made.
    pub request_slot: u64,
    /// Compute limit for the callback.
    pub callback_compute_limit: u32,
    /// `STATUS_PENDING` or `STATUS_FULFILLED`.
    pub status: u8,
    /// The oracle's output, zero until fulfilled.
    pub randomness: [u8; 32],
    /// Slot in which the request was fulfilled.
    pub fulfilled_slot: u64,
    /// Bump seed of the request's address.
    pub bump: u8,
}

} // verus!
