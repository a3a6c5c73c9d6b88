//! The requester reads the randomness of a fulfilled direct request.

use vstd::prelude::*;
use crate::direct::{DirectError, DirectRequest, RandomnessConsumed, STATUS_CONSUMED, STATUS_FULFILLED};
use crate::pubkey::Pubkey;

verus! {

/// Why reading is refused, if it is: the signer is not the requester; the
/// request is not fulfilled.
pub open spec fn consume_refusal(request: DirectRequest, signer: Pubkey) -> Option<DirectError> {
    if request.requester@ != signer@ {
        Some(DirectError::Unauthorized)
    } else if request.status != 1 {
        Some(DirectError::RequestNotFulfilled)
    } else {
        None
    }
}

/// Marks a fulfilled direct request as consumed. A refused instruction
/// leaves the request as it was.
pub fn handler(request: &mut DirectRequest, signer: &Pubkey, request_id: u64) -> (done: Result<RandomnessConsumed, DirectError>)
    ensures
        match consume_refusal(*old(request), *signer) {
            Some(e) => done == Err::<RandomnessConsumed, DirectError>(e) && *final(request) == *old(request),
            None => done == Ok::<RandomnessConsumed, DirectError>(
                RandomnessConsumed { request_id, requester: old(request).requester },
            ) && *final(request) == (DirectRequest { status: 2, ..*old(request) }),
        },
{
    if !request.requester.equals(signer) {
        return Err(DirectError::Unauthorized);
    }
    if request.status != STATUS_FULFILLED {
        return Err(DirectError::RequestNotFulfilled);
    }
    request.status = STATUS_CONSUMED;
    Ok(RandomnessConsumed { request_id, requester: request.requester })
}

} // verus!
