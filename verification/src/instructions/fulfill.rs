//! Fulfillment of a direct request: the randomness is written into the
//! request, which stays open for the requester to read.

use vstd::prelude::*;
use crate::direct::{DirectError, DirectRequest, RandomnessFulfilled, VrfConfiguration, STATUS_FULFILLED, STATUS_PENDING};
use crate::ed25519::{proof_check, verify_ed25519_instruction};
use crate::instruction::{Instruction, InstructionView};
use crate::pubkey::Pubkey;

verus! {

/// Why the fulfillment of a direct request is refused, if it is. The checks
/// run in this order: the signer is the configured authority; the request
/// is pending; the instruction handed in proves the randomness.
pub open spec fn direct_fulfill_refusal(
    config: VrfConfiguration,
    request: DirectRequest,
    signer: Pubkey,
    proving: Option<InstructionView>,
    request_id: u64,
    randomness: Seq<u8>,
) -> Option<DirectError> {
    if config.authority@ != signer@ {
        Some(DirectError::Unauthorized)
    } else if request.status != 0 {
        Some(DirectError::RequestNotPending)
    } else {
        match proof_check(proving, config.authority@, request_id, randomness) {
            Err(e) => Some(DirectError::Proof(e)),
            Ok(_) => None,
        }
    }
}

/// Writes the randomness into a pending direct request. A refused
/// fulfillment leaves the request as it was; else the request is fulfilled
/// with the randomness and the slot, and the event names id and randomness.
pub fn handler(
    config: &VrfConfiguration,
    request: &mut DirectRequest,
    signer: &Pubkey,
    proving_instruction: Option<&Instruction>,
    request_id: u64,
    randomness: [u8; 32],
    slot: u64,
) -> (done: Result<RandomnessFulfilled, DirectError>)
    ensures
        match direct_fulfill_refusal(
            *config,
            *old(request),
            *signer,
            match proving_instruction {
                Some(ix) => Some(ix@),
                None => None,
            },
            request_id,
            randomness@,
        ) {
            Some(e) => done == Err::<RandomnessFulfilled, DirectError>(e) && *final(request) == *old(request),
            None => done == Ok::<RandomnessFulfilled, DirectError>(
                RandomnessFulfilled { request_id, randomness },
            ) && *final(request) == (DirectRequest {
                status: 1,
                randomness,
                fulfilled_slot: slot,
                ..*old(request)
            }),
        },
{
    if !config.authority.equals(signer) {
        return Err(DirectError::Unauthorized);
    }
    if request.status != STATUS_PENDING {
        return Err(DirectError::RequestNotPending);
    }
    match verify_ed25519_instruction(proving_instruction, &config.authority, request_id, &randomness) {
        Err(e) => {
            return Err(DirectError::Proof(e));
        },
        Ok(_) => {},
    }
    request.randomness = randomness;
    request.status = STATUS_FULFILLED;
    request.fulfilled_slot = slot;
    Ok(RandomnessFulfilled { request_id, randomness })
}

} // verus!
