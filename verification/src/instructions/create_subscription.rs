//! Creation of a subscription.

use vstd::prelude::*;
use crate::errors::VrfError;
use crate::events::SubscriptionCreated;
use crate::pubkey::Pubkey;
use crate::state::{CoordinatorConfig, Subscription};

verus! {

/// The subscription that `owner` gets under the configuration `config`:
/// empty, with the id that the subscription counter holds.
pub open spec fn fresh_subscription(config: CoordinatorConfig, owner: Pubkey, bump: u8) -> Subscription {
    Subscription {
        id: config.subscription_counter,
        owner,
        balance: 0,
        req_count: 0,
        consumer_count: 0,
        bump,
    }
}

/// Creates a subscription for `owner` and moves the subscription counter
/// on. Refused with `CounterOverflow` where the counter is at its maximum.
pub fn handler(config: &mut CoordinatorConfig, owner: Pubkey, bump: u8) -> (created: Result<(Subscription, SubscriptionCreated), VrfError>)
    ensures
        old(config).subscription_counter == u64::MAX ==> created == Err::<
            (Subscription, SubscriptionCreated),
            VrfError,
        >(VrfError::CounterOverflow) && *final(config) == *old(config),
        old(config).subscription_counter < u64::MAX ==> created == Ok::<
            (Subscription, SubscriptionCreated),
            VrfError,
        >(
            (
                fresh_subscription(*old(config), owner, bump),
                SubscriptionCreated { subscription_id: old(config).subscription_counter, owner },
            ),
        ) && *final(config) == (CoordinatorConfig {
            subscription_counter: (old(config).subscription_counter + 1) as u64,
            ..*old(config)
        }),
{
    let id = config.subscription_counter;
    let next = match id.checked_add(1) {
        Some(next) => next,
        None => {
            return Err(VrfError::CounterOverflow);
        },
    };
    config.subscription_counter = next;
    Ok(
        (
            Subscription { id, owner, balance: 0, req_count: 0, consumer_count: 0, bump },
            SubscriptionCreated { subscription_id: id, owner },
        ),
    )
}

} // verus!
