//! A direct request that names a program to call back.

use vstd::prelude::*;
use crate::direct::{
    create_direct_request, direct_outcome, DirectArgs, DirectCreated, DirectError, VrfConfiguration,
};
use crate::pubkey::Pubkey;

verus! {

/// Creates a direct request that names `callback_program`, which may not
/// be the zero address.
pub fn handler(config: &mut VrfConfiguration, args: DirectArgs, callback_program: Pubkey) -> (made: Result<DirectCreated, DirectError>)
    ensures
        direct_outcome(*old(config), args, Some(callback_program), made, *final(config)),
{
    create_direct_request(config, args, Some(callback_program))
}

} // verus!
