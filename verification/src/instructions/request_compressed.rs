//! A direct request kept in a compressed account.

use vstd::prelude::*;
use crate::direct::{DirectArgs, DirectError, VrfConfiguration};
use crate::photon::{compressed_body, CompressedRandomnessRequest, STATUS_PENDING};
use crate::pubkey::{zero_address, Pubkey};

verus! {

/// A compressed request was made.
#[derive(Clone, Copy, Debug, PartialEq, Eq)]
pub struct CompressedRandomnessRequested {
    pub request_id: u64,
    pub requester: Pubkey,
    pub seed: [u8; 32],
    pub request_slot: u64,
}

/// What a compressed request leaves behind.
#[derive(Clone, Debug, PartialEq, Eq)]
pub struct CompressedCreated {
    /// The request.
    pub request: CompressedRandomnessRequest,
    /// The body of the compressed account: the request, encoded.
    pub data: Vec<u8>,
    /// The lamports to move from the requester to the treasury.
    pub fee: u64,
    /// The event emitted.
    pub event: CompressedRandomnessRequested,
}

/// Why a compressed request is refused, if it is: the treasury is not the
/// configured one; the request counter cannot move on.
pub open spec fn compressed_request_refusal(config: VrfConfiguration, args: DirectArgs) -> Option<DirectError> {
    if args.treasury@ != config.treasury@ {
        Some(DirectError::WrongTreasury)
    } else if config.request_counter == u64::MAX {
        Some(DirectError::CounterOverflow)
    } else {
        None
    }
}

/// `created` is what a compressed request leaves behind: a pending request
/// under the id that the counter holds, with zeroed randomness; its
/// encoding; the configured fee; the event with id, requester, seed and
/// slot.
pub open spec fn is_compressed_request(created: CompressedCreated, config: VrfConfiguration, args: DirectArgs) -> bool {
    &&& created.request.request_id == config.request_counter
    &&& created.request.requester == args.requester
    &&& created.request.seed == args.seed
    &&& created.request.request_slot == args.slot
    &&& created.request.status == 0
    &&& created.request.randomness@ == zero_address()
    &&& created.data@ == compressed_body(created.request@)
    &&& created.fee == config.fee
    &&& created.event == (CompressedRandomnessRequested {
        request_id: config.request_counter,
        requester: args.requester,
        seed: args.seed,
        request_slot: args.slot,
    })
}

/// Creates a compressed request and moves the request counter on. A
/// refused request leaves the configuration as it was.
pub fn handler(config: &mut VrfConfiguration, args: DirectArgs) -> (made: Result<CompressedCreated, DirectError>)
    ensures
        match compressed_request_refusal(*old(config), args) {
            Some(e) => made matches Err(err) && err == e && *final(config) == *old(config),
            None => (made matches Ok(created) && is_compressed_request(created, *old(config), args))
                && *final(config) == (VrfConfiguration {
                request_counter: (old(config).request_counter + 1) as u64,
                ..*old(config)
            }),
        },
{
    if !args.treasury.equals(&config.treasury) {
        return Err(DirectError::WrongTreasury);
    }
    let request_id = config.request_counter;
    let next = match request_id.checked_add(1) {
        Some(next) => next,
        None => {
            return Err(DirectError::CounterOverflow);
        },
    };
    config.request_counter = next;
    let request = CompressedRandomnessRequest {
        request_id,
        requester: args.requester,
        seed: args.seed,
        request_slot: args.slot,
        status: STATUS_PENDING,
        randomness: [0u8; 32],
    };
    assert(request.randomness@ =~= zero_address());
    let data = request.to_bytes();
    Ok(
        CompressedCreated {
            request,
            data,
            fee: config.fee,
            event: CompressedRandomnessRequested {
                request_id,
                requester: args.requester,
                seed: args.seed,
                request_slot: args.slot,
            },
        },
    )
}

} // verus!
