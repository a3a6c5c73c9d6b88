//! The requester closes a consumed direct request and gets the rent back.

use vstd::prelude::*;
use crate::direct::{DirectError, DirectRequest, RequestClosed, STATUS_CONSUMED};
use crate::pubkey::Pubkey;

verus! {

/// What closing comes to: `Unauthorized` where the signer is not the
/// requester, `RequestNotConsumed` where the request is not consumed, else
/// the event with the id and the signer.
pub open spec fn close_result(request: DirectRequest, signer: Pubkey, request_id: u64) -> Result<RequestClosed, DirectError> {
    if request.requester@ != signer@ {
        Err(DirectError::Unauthorized)
    } else if request.status != 2 {
        Err(DirectError::RequestNotConsumed)
    } else {
        Ok(RequestClosed { request_id, requester: signer })
    }
}

/// Closes a consumed direct request. On success the account is closed and
/// its lamports go to the requester.
pub fn handler(request: &DirectRequest, signer: &Pubkey, request_id: u64) -> (closed: Result<RequestClosed, DirectError>)
    ensures
        closed == close_result(*request, *signer, request_id),
{
    if !request.requester.equals(signer) {
        return Err(DirectError::Unauthorized);
    }
    if request.status != STATUS_CONSUMED {
        return Err(DirectError::RequestNotConsumed);
    }
    Ok(RequestClosed { request_id, requester: *signer })
}

} // verus!
