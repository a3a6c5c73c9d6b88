//! Cancellation of a subscription.

use vstd::prelude::*;
use crate::errors::VrfError;
use crate::events::SubscriptionCancelled;
use crate::pubkey::Pubkey;
use crate::state::Subscription;

verus! {

/// What a cancellation comes to: `Unauthorized` where the signer is not the
/// owner, `SubscriptionHasConsumers` where a consumer is still registered,
/// else the refund of the whole balance to the owner.
pub open spec fn cancel_result(subscription: Subscription, signer: Pubkey) -> Result<SubscriptionCancelled, VrfError> {
    if signer@ != subscription.owner@ {
        Err(VrfError::Unauthorized)
    } else if subscription.consumer_count != 0 {
        Err(VrfError::SubscriptionHasConsumers)
    } else {
        Ok(
            SubscriptionCancelled {
                subscription_id: subscription.id,
                owner: subscription.owner,
                refunded_amount: subscription.balance,
            },
        )
    }
}

/// Cancels the subscription. On success the account is closed and the event
/// tells what the owner gets back.
pub fn handler(subscription: &Subscription, signer: &Pubkey) -> (cancelled: Result<SubscriptionCancelled, VrfError>)
    ensures
        cancelled == cancel_result(*subscription, *signer),
{
    if !signer.equals(&subscription.owner) {
        return Err(VrfError::Unauthorized);
    }
    if subscription.consumer_count != 0 {
        return Err(VrfError::SubscriptionHasConsumers);
    }
    Ok(
        SubscriptionCancelled {
            subscription_id: subscription.id,
            owner: subscription.owner,
            refunded_amount: subscription.balance,
        },
    )
}

} // verus!
