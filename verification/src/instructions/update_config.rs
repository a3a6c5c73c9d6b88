//! Changes to the coordinator's configuration by its admin.

use vstd::prelude::*;
use crate::errors::VrfError;
use crate::pubkey::{zero_address, Pubkey};
use crate::state::CoordinatorConfig;

verus! {

/// Whether an optional new address is the zero address.
pub open spec fn is_zero_update(address: Option<Pubkey>) -> bool {
    address matches Some(a) && a@ == zero_address()
}

/// The configuration with the given fields replaced.
pub open spec fn updated_config(
    config: CoordinatorConfig,
    new_authority: Option<Pubkey>,
    new_fee_per_word: Option<u64>,
    new_max_num_words: Option<u32>,
    new_admin: Option<Pubkey>,
) -> CoordinatorConfig {
    CoordinatorConfig {
        admin: match new_admin {
            Some(a) => a,
            None => config.admin,
        },
        authority: match new_authority {
            Some(a) => a,
            None => config.authority,
        },
        fee_per_word: match new_fee_per_word {
            Some(f) => f,
            None => config.fee_per_word,
        },
        max_num_words: match new_max_num_words {
            Some(m) => m,
            None => config.max_num_words,
        },
        ..config
    }
}

/// What an update comes to: `Unauthorized` where the signer is not the
/// admin, `ZeroAddressNotAllowed` where a new address is zero, else the
/// updated configuration.
pub open spec fn update_result(
    config: CoordinatorConfig,
    signer: Pubkey,
    new_authority: Option<Pubkey>,
    new_fee_per_word: Option<u64>,
    new_max_num_words: Option<u32>,
    new_admin: Option<Pubkey>,
) -> Result<CoordinatorConfig, VrfError> {
    if signer@ != config.admin@ {
        Err(VrfError::Unauthorized)
    } else if is_zero_update(new_authority) || is_zero_update(new_admin) {
        Err(VrfError::ZeroAddressNotAllowed)
    } else {
        Ok(updated_config(config, new_authority, new_fee_per_word, new_max_num_words, new_admin))
    }
}

/// Replaces the fields of the configuration that are given. Only the admin
/// may do so, and no address may become zero.
pub fn handler(
    config: &mut CoordinatorConfig,
    signer: &Pubkey,
    new_authority: Option<Pubkey>,
    new_fee_per_word: Option<u64>,
    new_max_num_words: Option<u32>,
    new_admin: Option<Pubkey>,
) -> (done: Result<(), VrfError>)
    ensures
        match update_result(*old(config), *signer, new_authority, new_fee_per_word, new_max_num_words, new_admin) {
            Ok(updated) => done is Ok && *final(config) == updated,
            Err(e) => done == Err::<(), VrfError>(e) && *final(config) == *old(config),
        },
        old(config).wf() ==> final(config).wf(),
{
    if !signer.equals(&config.admin) {
        return Err(VrfError::Unauthorized);
    }
    let authority = match new_authority {
        Some(a) => {
            if a.is_zero() {
                return Err(VrfError::ZeroAddressNotAllowed);
            }
            a
        },
        None => config.authority,
    };
    let admin = match new_admin {
        Some(a) => {
            if a.is_zero() {
                return Err(VrfError::ZeroAddressNotAllowed);
            }
            a
        },
        None => config.admin,
    };
    match new_fee_per_word {
        Some(f) => {
            config.fee_per_word = f;
        },
        None => {},
    }
    match new_max_num_words {
        Some(m) => {
            config.max_num_words = m;
        },
        None => {},
    }
    config.authority = authority;
    config.admin = admin;
    Ok(())
}

} // verus!
