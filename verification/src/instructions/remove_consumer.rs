//! Removal of a consumer program from a subscription.

use vstd::prelude::*;
use crate::errors::VrfError;
use crate::events::ConsumerRemoved;
use crate::pubkey::Pubkey;
use crate::state::Subscription;

verus! {

/// The count of consumers after one left: one less, and 0 where it was 0.
pub open spec fn decremented(consumer_count: u32) -> u32 {
    if consumer_count == 0 {
        0
    } else {
        (consumer_count - 1) as u32
    }
}

/// Removes a consumer program from the subscription. Only the owner may do
/// so. The count of consumers never goes below 0.
pub fn handler(subscription: &mut Subscription, signer: &Pubkey, consumer_program: Pubkey) -> (removed: Result<ConsumerRemoved, VrfError>)
    ensures
        signer@ != old(subscription).owner@ ==> removed == Err::<ConsumerRemoved, VrfError>(
            VrfError::Unauthorized,
        ) && *final(subscription) == *old(subscription),
        signer@ == old(subscription).owner@ ==> removed == Ok::<ConsumerRemoved, VrfError>(
            ConsumerRemoved { subscription_id: old(subscription).id, consumer_program },
        ) && *final(subscription) == (Subscription {
            consumer_count: decremented(old(subscription).consumer_count),
            ..*old(subscription)
        }),
{
    if !signer.equals(&subscription.owner) {
        return Err(VrfError::Unauthorized);
    }
    subscription.consumer_count = subscription.consumer_count.saturating_sub(1);
    Ok(ConsumerRemoved { subscription_id: subscription.id, consumer_program })
}

} // verus!
