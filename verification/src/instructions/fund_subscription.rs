//! Funding of a subscription.

use vstd::prelude::*;
use crate::events::SubscriptionFunded;
use crate::state::Subscription;

verus! {

/// Adds `amount` lamports to the balance of the subscription. The new
/// balance must fit in a `u64`.
pub fn handler(subscription: &mut Subscription, amount: u64) -> (funded: SubscriptionFunded)
    requires
        old(subscription).balance + amount <= u64::MAX,
    ensures
        *final(subscription) == (Subscription {
            balance: (old(subscription).balance + amount) as u64,
            ..*old(subscription)
        }),
        funded == (SubscriptionFunded {
            subscription_id: old(subscription).id,
            old_balance: old(subscription).balance,
            new_balance: (old(subscription).balance + amount) as u64,
        }),
{
    let old_balance = subscription.balance;
    subscription.balance = old_balance + amount;
    SubscriptionFunded { subscription_id: subscription.id, old_balance, new_balance: subscription.balance }
}

/// Funds the subscription where the new balance fits in a `u64`; else
/// leaves it as it is and returns `None`.
pub fn try_fund(subscription: &mut Subscription, amount: u64) -> (funded: Option<SubscriptionFunded>)
    ensures
        old(subscription).balance + amount > u64::MAX ==> funded is None && *final(subscription) == *old(
            subscription,
        ),
        old(subscription).balance + amount <= u64::MAX ==> funded == Some(
            SubscriptionFunded {
                subscription_id: old(subscription).id,
                old_balance: old(subscription).balance,
                new_balance: (old(subscription).balance + amount) as u64,
            },
        ) && *final(subscription) == (Subscription {
            balance: (old(subscription).balance + amount) as u64,
            ..*old(subscription)
        }),
{
    if subscription.balance > u64::MAX - amount {
        None
    } else {
        Some(handler(subscription, amount))
    }
}

} // verus!
