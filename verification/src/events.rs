//! The events that the coordinator emits.

use vstd::prelude::*;
use crate::decoder::RandomnessRequestedEvent;
use crate::pubkey::Pubkey;

verus! {

/// A subscription was created.
#[derive(Clone, Copy, Debug, PartialEq, Eq)]
pub struct SubscriptionCreated {
    pub subscription_id: u64,
    pub owner: Pubkey,
}

/// A subscription was funded.
#[derive(Clone, Copy, Debug, PartialEq, Eq)]
pub struct SubscriptionFunded {
    pub subscription_id: u64,
    pub old_balance: u64,
    pub new_balance: u64,
}

/// A subscription was cancelled and its balance refunded.
#[derive(Clone, Copy, Debug, PartialEq, Eq)]
pub struct SubscriptionCancelled {
    pub subscription_id: u64,
    pub owner: Pubkey,
    pub refunded_amount: u64,
}

/// A consumer program was registered with a subscription.
#[derive(Clone, Copy, Debug, PartialEq, Eq)]
pub struct ConsumerAdded {
    pub subscription_id: u64,
    pub consumer_program: Pubkey,
}

/// A consumer program was removed from a subscription.
#[derive(Clone, Copy, Debug, PartialEq, Eq)]
pub struct ConsumerRemoved {
    pub subscription_id: u64,
    pub consumer_program: Pubkey,
}

/// A request was created. The oracle reads this event from the logs.
pub type RandomWordsRequested = RandomnessRequestedEvent;

/// A request was fulfilled and the callback delivered.
#[derive(Clone, Copy, Debug, PartialEq, Eq)]
pub struct RandomWordsFulfilled {
    pub request_id: u64,
    pub randomness: [u8; 32],
    pub consumer_program: Pubkey,
}

} // verus!
