//! A direct request without callback.

use vstd::prelude::*;
use crate::direct::{
    create_direct_request, direct_outcome, DirectArgs, DirectCreated, DirectError, VrfConfiguration,
};

verus! {

/// Creates a direct request that names no callback program.
pub fn handler(config: &mut VrfConfiguration, args: DirectArgs) -> (made: Result<DirectCreated, DirectError>)
    ensures
        direct_outcome(*old(config), args, None, made, *final(config)),
{
    create_direct_request(config, args, None)
}

} // verus!
