//! Registration of a consumer program with a subscription.

use vstd::prelude::*;
use crate::errors::VrfError;
use crate::events::ConsumerAdded;
use crate::pubkey::{zero_address, Pubkey};
use crate::state::{ConsumerRegistration, Subscription};

verus! {

/// The registration of `consumer_program` with the subscription.
pub open spec fn fresh_registration(subscription_id: u64, consumer_program: Pubkey, bump: u8) -> ConsumerRegistration {
    ConsumerRegistration { subscription_id, program_id: consumer_program, nonce: 0, bump }
}

/// What a registration comes to: `Unauthorized` where the signer is not the
/// owner, `ZeroAddressNotAllowed` where the program is the zero address,
/// else the registration and its event.
pub open spec fn add_result(subscription: Subscription, signer: Pubkey, consumer_program: Pubkey, bump: u8) -> Result<
    (ConsumerRegistration, ConsumerAdded),
    VrfError,
> {
    if signer@ != subscription.owner@ {
        Err(VrfError::Unauthorized)
    } else if consumer_program@ == zero_address() {
        Err(VrfError::ZeroAddressNotAllowed)
    } else {
        Ok(
            (
                fresh_registration(subscription.id, consumer_program, bump),
                ConsumerAdded { subscription_id: subscription.id, consumer_program },
            ),
        )
    }
}

/// The subscription after a registration: one consumer more where the
/// registration succeeds, else as it was.
pub open spec fn after_add(subscription: Subscription, signer: Pubkey, consumer_program: Pubkey, bump: u8) -> Subscription {
    if add_result(subscription, signer, consumer_program, bump) is Ok {
        Subscription { consumer_count: (subscription.consumer_count + 1) as u32, ..subscription }
    } else {
        subscription
    }
}

/// Registers a consumer program with the subscription and counts it. Only
/// the owner may do so, and the program may not be the zero address. The
/// count of consumers must be below its maximum.
pub fn handler(subscription: &mut Subscription, signer: &Pubkey, consumer_program: Pubkey, bump: u8) -> (added: Result<(ConsumerRegistration, ConsumerAdded), VrfError>)
    requires
        old(subscription).consumer_count < u32::MAX,
    ensures
        added == add_result(*old(subscription), *signer, consumer_program, bump),
        *final(subscription) == after_add(*old(subscription), *signer, consumer_program, bump),
{
    if !signer.equals(&subscription.owner) {
        return Err(VrfError::Unauthorized);
    }
    if consumer_program.is_zero() {
        return Err(VrfError::ZeroAddressNotAllowed);
    }
    subscription.consumer_count = subscription.consumer_count + 1;
    Ok(
        (
            ConsumerRegistration {
                subscription_id: subscription.id,
                program_id: consumer_program,
                nonce: 0,
                bump,
            },
            ConsumerAdded { subscription_id: subscription.id, consumer_program },
        ),
    )
}

/// Registers the consumer where the count of consumers is below its
/// maximum; else leaves the subscription as it is and returns `None`.
pub fn try_add(subscription: &mut Subscription, signer: &Pubkey, consumer_program: Pubkey, bump: u8) -> (added: Option<Result<(ConsumerRegistration, ConsumerAdded), VrfError>>)
    ensures
        old(subscription).consumer_count == u32::MAX ==> added is None && *final(subscription) == *old(
            subscription,
        ),
        old(subscription).consumer_count < u32::MAX ==> added == Some(
            add_result(*old(subscription), *signer, consumer_program, bump),
        ) && *final(subscription) == after_add(*old(subscription), *signer, consumer_program, bump),
{
    if subscription.consumer_count == u32::MAX {
        None
    } else {
        Some(handler(subscription, signer, consumer_program, bump))
    }
}

} // verus!
