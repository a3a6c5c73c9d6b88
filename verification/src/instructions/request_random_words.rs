//! Creation of a request for random words.

use vstd::prelude::*;
use crate::decoder::RandomnessRequestedEvent;
use crate::errors::VrfError;
use crate::pubkey::Pubkey;
use crate::state::{ConsumerRegistration, CoordinatorConfig, RandomnessRequest, Subscription, STATUS_PENDING};

verus! {

/// What a consumer asks for.
#[derive(Clone, Copy, Debug, PartialEq, Eq)]
pub struct RequestArgs {
    /// The program that asks and gets the callback.
    pub consumer_program: Pubkey,
    /// Who pays the rent of the request account.
    pub requester: Pubkey,
    /// Number of random words asked for.
    pub num_words: u32,
    /// Entropy chosen by the requester.
    pub seed: [u8; 32],
    /// Compute limit for the callback.
    pub callback_compute_limit: u32,
    /// The current slot.
    pub slot: u64,
    /// Bump seed of the request's address.
    pub bump: u8,
}

/// The fee for `num_words` words.
pub open spec fn total_fee(config: CoordinatorConfig, num_words: u32) -> int {
    config.fee_per_word as int * num_words as int
}

/// Why a request is refused, if it is. The checks run in this order: the
/// registration is the one of this consumer for this subscription; the
/// number of words is at least 1 and at most the maximum; the fee fits in a
/// `u64`; the subscription can pay it; the request counter can move on.
pub open spec fn request_refusal(
    config: CoordinatorConfig,
    subscription: Subscription,
    registration: ConsumerRegistration,
    args: RequestArgs,
) -> Option<VrfError> {
    if registration.subscription_id != subscription.id || registration.program_id@
        != args.consumer_program@ {
        Some(VrfError::InvalidConsumerProgram)
    } else if args.num_words == 0 || args.num_words > config.max_num_words {
        Some(VrfError::NumWordsTooLarge)
    } else if total_fee(config, args.num_words) > u64::MAX {
        Some(VrfError::CounterOverflow)
    } else if subscription.balance < total_fee(config, args.num_words) {
        Some(VrfError::InsufficientSubscriptionBalance)
    } else if config.request_counter == u64::MAX {
        Some(VrfError::CounterOverflow)
    } else {
        None
    }
}

/// `request` is the account of a new request: pending, with zeroed
/// randomness, under the id that the request counter holds.
pub open spec fn is_fresh_request(
    request: RandomnessRequest,
    config: CoordinatorConfig,
    subscription: Subscription,
    args: RequestArgs,
) -> bool {
    &&& request.request_id == config.request_counter
    &&& request.subscription_id == subscription.id
    &&& request.consumer_program == args.consumer_program
    &&& request.requester == args.requester
    &&& request.num_words == args.num_words
    &&& request.seed == args.seed
    &&& request.request_slot == args.slot
    &&& request.callback_compute_limit == args.callback_compute_limit
    &&& request.status == 0
    &&& request.randomness@ == Seq::new(32, |i: int| 0u8)
    &&& request.fulfilled_slot == 0
    &&& request.bump == args.bump
}

/// The event that announces the new request.
pub open spec fn request_event(config: CoordinatorConfig, subscription: Subscription, args: RequestArgs) -> RandomnessRequestedEvent {
    RandomnessRequestedEvent {
        request_id: config.request_counter,
        subscription_id: subscription.id,
        consumer_program: args.consumer_program,
        requester: args.requester,
        num_words: args.num_words,
        seed: args.seed,
        request_slot: args.slot,
        callback_compute_limit: args.callback_compute_limit,
    }
}

/// `created`, `config_after` and `subscription_after` are what a request
/// comes to. A refused request returns its error and changes nothing. Else
/// the request account and its event are returned, the fee is taken off the
/// balance, the subscription counts one request more, and the request
/// counter moves on by one.
pub open spec fn request_outcome(
    config: CoordinatorConfig,
    subscription: Subscription,
    registration: ConsumerRegistration,
    args: RequestArgs,
    created: Result<(RandomnessRequest, RandomnessRequestedEvent), VrfError>,
    config_after: CoordinatorConfig,
    subscription_after: Subscription,
) -> bool {
    match request_refusal(config, subscription, registration, args) {
        Some(e) => created == Err::<(RandomnessRequest, RandomnessRequestedEvent), VrfError>(e)
            && config_after == config && subscription_after == subscription,
        None => created matches Ok((request, event)) && is_fresh_request(
            request,
            config,
            subscription,
            args,
        ) && event == request_event(config, subscription, args) && config_after == (CoordinatorConfig {
            request_counter: (config.request_counter + 1) as u64,
            ..config
        }) && subscription_after == (Subscription {
            balance: (subscription.balance - total_fee(config, args.num_words)) as u64,
            req_count: (subscription.req_count + 1) as u64,
            ..subscription
        }),
    }
}

/// Creates a request: charges the fee to the subscription, counts the
/// request there, and moves the request counter on. A refused request
/// leaves configuration and subscription as they were. The subscription's
/// count of requests must be below its maximum.
pub fn handler(
    config: &mut CoordinatorConfig,
    subscription: &mut Subscription,
    registration: &ConsumerRegistration,
    args: RequestArgs,
) -> (created: Result<(RandomnessRequest, RandomnessRequestedEvent), VrfError>)
    requires
        old(subscription).req_count < u64::MAX,
    ensures
        request_outcome(
            *old(config),
            *old(subscription),
            *registration,
            args,
            created,
            *final(config),
            *final(subscription),
        ),
{
    if registration.subscription_id != subscription.id || !registration.program_id.equals(
        &args.consumer_program,
    ) {
        return Err(VrfError::InvalidConsumerProgram);
    }
    if args.num_words == 0 || args.num_words > config.max_num_words {
        return Err(VrfError::NumWordsTooLarge);
    }
    let fee = match config.fee_per_word.checked_mul(args.num_words as u64) {
        Some(fee) => fee,
        None => {
            return Err(VrfError::CounterOverflow);
        },
    };
    if subscription.balance < fee {
        return Err(VrfError::InsufficientSubscriptionBalance);
    }
    let request_id = config.request_counter;
    let next = match request_id.checked_add(1) {
        Some(next) => next,
        None => {
            return Err(VrfError::CounterOverflow);
        },
    };
    subscription.balance = subscription.balance - fee;
    subscription.req_count = subscription.req_count + 1;
    config.request_counter = next;
    let request = RandomnessRequest {
        request_id,
        subscription_id: subscription.id,
        consumer_program: args.consumer_program,
        requester: args.requester,
        num_words: args.num_words,
        seed: args.seed,
        request_slot: args.slot,
        callback_compute_limit: args.callback_compute_limit,
        status: STATUS_PENDING,
        randomness: [0u8; 32],
        fulfilled_slot: 0,
        bump: args.bump,
    };
    let event = request.event();
    assert(request.randomness@ =~= Seq::new(32, |i: int| 0u8));
    Ok((request, event))
}

/// Creates the request where the subscription's count of requests is below
/// its maximum; else changes nothing and returns `None`.
pub fn try_request(
    config: &mut CoordinatorConfig,
    subscription: &mut Subscription,
    registration: &ConsumerRegistration,
    args: RequestArgs,
) -> (created: Option<Result<(RandomnessRequest, RandomnessRequestedEvent), VrfError>>)
    ensures
        old(subscription).req_count == u64::MAX ==> created is None && *final(config) == *old(config)
            && *final(subscription) == *old(subscription),
        old(subscription).req_count < u64::MAX ==> (created matches Some(r) && request_outcome(
            *old(config),
            *old(subscription),
            *registration,
            args,
            r,
            *final(config),
            *final(subscription),
        )),
{
    if subscription.req_count == u64::MAX {
        None
    } else {
        Some(handler(config, subscription, registration, args))
    }
}

} // verus!
