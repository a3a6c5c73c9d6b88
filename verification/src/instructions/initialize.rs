//! Creation of the coordinator's configuration.

use vstd::prelude::*;
use crate::errors::VrfError;
use crate::pubkey::{zero_address, Pubkey};
use crate::state::CoordinatorConfig;

verus! {

/// The configuration of a fresh deployment.
pub open spec fn fresh_config(admin: Pubkey, authority: Pubkey, fee_per_word: u64, max_num_words: u32, bump: u8) -> CoordinatorConfig {
    CoordinatorConfig {
        admin,
        authority,
        fee_per_word,
        max_num_words,
        request_counter: 0,
        subscription_counter: 0,
        bump,
    }
}

/// Creates the configuration. Refused with `ZeroAddressNotAllowed` where the
/// authority or the admin is the zero address.
pub fn handler(admin: Pubkey, authority: Pubkey, fee_per_word: u64, max_num_words: u32, bump: u8) -> (created: Result<CoordinatorConfig, VrfError>)
    ensures
        created == (if authority@ == zero_address() || admin@ == zero_address() {
            Err(VrfError::ZeroAddressNotAllowed)
        } else {
            Ok(fresh_config(admin, authority, fee_per_word, max_num_words, bump))
        }),
        created is Ok ==> created->Ok_0.wf(),
{
    if authority.is_zero() || admin.is_zero() {
        return Err(VrfError::ZeroAddressNotAllowed);
    }
    Ok(
        CoordinatorConfig {
            admin,
            authority,
            fee_per_word,
            max_num_words,
            request_counter: 0,
            subscription_counter: 0,
            bump,
        },
    )
}

} // verus!
