//! Fulfillment of a compressed request: the current account is spent and
//! one with the randomness takes its place.

use vstd::prelude::*;
use crate::direct::{DirectError, RandomnessFulfilled, VrfConfiguration};
use crate::ed25519::{proof_check, verify_ed25519_instruction};
use crate::instruction::{Instruction, InstructionView};
use crate::photon::{compressed_body, CompressedRandomnessRequest, CompressedRequestView, STATUS_FULFILLED, STATUS_PENDING};
use crate::pubkey::Pubkey;

verus! {

/// What the fulfillment of a compressed request leaves behind.
#[derive(Clone, Debug, PartialEq, Eq)]
pub struct CompressedFulfilled {
    /// The body of the account that is spent: the current request, encoded.
    pub input_data: Vec<u8>,
    /// The request with the randomness.
    pub updated: CompressedRandomnessRequest,
    /// The body of the account that takes its place.
    pub output_data: Vec<u8>,
    /// The event emitted.
    pub event: RandomnessFulfilled,
}

/// Why the fulfillment of a compressed request is refused, if it is. The
/// checks run in this order: the signer is the configured authority; the
/// instruction handed in proves the randomness; the current account is
/// that of this request; the request is pending.
pub open spec fn compressed_fulfill_refusal(
    config: VrfConfiguration,
    signer: Pubkey,
    proving: Option<InstructionView>,
    request_id: u64,
    randomness: Seq<u8>,
    current: CompressedRequestView,
) -> Option<DirectError> {
    if config.authority@ != signer@ {
        Some(DirectError::Unauthorized)
    } else {
        match proof_check(proving, config.authority@, request_id, randomness) {
            Err(e) => Some(DirectError::Proof(e)),
            Ok(_) => if current.request_id != request_id {
                Some(DirectError::CompressedAccountMismatch)
            } else if current.status != 0 {
                Some(DirectError::RequestNotPending)
            } else {
                None
            },
        }
    }
}

/// The request after fulfillment: fulfilled, with the randomness, all else
/// as it was.
pub open spec fn fulfilled_compressed(current: CompressedRequestView, randomness: Seq<u8>) -> CompressedRequestView {
    CompressedRequestView { status: 1, randomness, ..current }
}

/// Fulfills a pending compressed request.
pub fn handler(
    config: &VrfConfiguration,
    signer: &Pubkey,
    proving_instruction: Option<&Instruction>,
    request_id: u64,
    randomness: [u8; 32],
    current_request: &CompressedRandomnessRequest,
) -> (done: Result<CompressedFulfilled, DirectError>)
    ensures
        match compressed_fulfill_refusal(
            *config,
            *signer,
            match proving_instruction {
                Some(ix) => Some(ix@),
                None => None,
            },
            request_id,
            randomness@,
            current_request@,
        ) {
            Some(e) => done matches Err(err) && err == e,
            None => done matches Ok(effects) && effects.input_data@ == compressed_body(current_request@)
                && effects.updated@ == fulfilled_compressed(current_request@, randomness@)
                && effects.output_data@ == compressed_body(effects.updated@) && effects.event == (
            RandomnessFulfilled { request_id, randomness }),
        },
{
    if !config.authority.equals(signer) {
        return Err(DirectError::Unauthorized);
    }
    match verify_ed25519_instruction(proving_instruction, &config.authority, request_id, &randomness) {
        Err(e) => {
            return Err(DirectError::Proof(e));
        },
        Ok(_) => {},
    }
    if current_request.request_id != request_id {
        return Err(DirectError::CompressedAccountMismatch);
    }
    if current_request.status != STATUS_PENDING {
        return Err(DirectError::RequestNotPending);
    }
    let updated = CompressedRandomnessRequest {
        request_id,
        requester: current_request.requester,
        seed: current_request.seed,
        request_slot: current_request.request_slot,
        status: STATUS_FULFILLED,
        randomness,
    };
    let input_data = current_request.to_bytes();
    let output_data = updated.to_bytes();
    Ok(
        CompressedFulfilled {
            input_data,
            updated,
            output_data,
            event: RandomnessFulfilled { request_id, randomness },
        },
    )
}

} // verus!
