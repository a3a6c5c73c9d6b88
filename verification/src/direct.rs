//! Requests that a requester makes for himself, without a subscription: he
//! pays a flat fee to the treasury, reads the randomness once the oracle has
//! written it, and closes the request to get the rent back.

use vstd::prelude::*;
use crate::errors::VrfError;
use crate::pubkey::{zero_address, Pubkey};

verus! {

/// Status of a direct request that waits for the oracle.
pub const STATUS_PENDING: u8 = 0;

/// Status of a direct request whose randomness was written.
pub const STATUS_FULFILLED: u8 = 1;

/// Status of a direct request whose randomness was read.
pub const STATUS_CONSUMED: u8 = 2;

/// The configuration for direct requests.
#[derive(Clone, Copy, Debug, PartialEq, Eq)]
pub struct VrfConfiguration {
    /// Who may change the configuration.
    pub admin: Pubkey,
    /// The oracle's public key.
    pub authority: Pubkey,
    /// Fee in lamports for each request.
    pub fee: u64,
    /// The id that the next request gets.
    pub request_counter: u64,
    /// Who receives the fees.
    pub treasury: Pubkey,
    /// Bump seed of the configuration's address.
    pub bump: u8,
}

/// A direct request.
#[derive(Clone, Copy, Debug, PartialEq, Eq)]
pub struct DirectRequest {
    /// The request's id.
    pub request_id: u64,
    /// Who made the request.
    pub requester: Pubkey,
    /// Entropy that the requester chose.
    pub seed: [u8; 32],
    /// Slot in which the request was made.
    pub request_slot: u64,
    /// The program to call back, or the zero address for none.
    pub callback_program: Pubkey,
    /// Pending, fulfilled or consumed.
    pub status: u8,
    /// The oracle's output, zero until fulfilled.
    pub randomness: [u8; 32],
    /// Slot in which the request was fulfilled.
    pub fulfilled_slot: u64,
    /// Bump seed of the request's address.
    pub bump: u8,
}

/// Why an instruction on a direct request was refused.
#[derive(Clone, Copy, Debug, PartialEq, Eq, Structural)]
pub enum DirectError {
    /// The signer may not do this.
    Unauthorized,
    /// An address argument was the zero address.
    ZeroAddressNotAllowed,
    /// The treasury handed in is not the configured one.
    WrongTreasury,
    /// The request counter would overflow.
    CounterOverflow,
    /// The request is not pending.
    RequestNotPending,
    /// The request is not fulfilled.
    RequestNotFulfilled,
    /// The request is not consumed.
    RequestNotConsumed,
    /// The compressed account is that of another request.
    CompressedAccountMismatch,
    /// The proof of the randomness was refused for this reason.
    Proof(VrfError),
}

/// A direct request was made.
#[derive(Clone, Copy, Debug, PartialEq, Eq)]
pub struct RandomnessRequested {
    pub request_id: u64,
    pub requester: Pubkey,
    pub seed: [u8; 32],
    pub request_slot: u64,
}

/// A direct request was fulfilled.
#[derive(Clone, Copy, Debug, PartialEq, Eq)]
pub struct RandomnessFulfilled {
    pub request_id: u64,
    pub randomness: [u8; 32],
}

/// The randomness of a direct request was read.
#[derive(Clone, Copy, Debug, PartialEq, Eq)]
pub struct RandomnessConsumed {
    pub request_id: u64,
    pub requester: Pubkey,
}

/// A direct request was closed.
#[derive(Clone, Copy, Debug, PartialEq, Eq)]
pub struct RequestClosed {
    pub request_id: u64,
    pub requester: Pubkey,
}

/// What a requester hands in with a direct request.
#[derive(Clone, Copy, Debug, PartialEq, Eq)]
pub struct DirectArgs {
    /// Who makes the request and pays the fee.
    pub requester: Pubkey,
    /// The treasury account handed in.
    pub treasury: Pubkey,
    /// Entropy chosen by the requester.
    pub seed: [u8; 32],
    /// The current slot.
    pub slot: u64,
    /// Bump seed of the request's address.
    pub bump: u8,
}

/// What a direct request leaves behind.
#[derive(Clone, Copy, Debug, PartialEq, Eq)]
pub struct DirectCreated {
    /// The request account.
    pub request: DirectRequest,
    /// The lamports to move from the requester to the treasury.
    pub fee: u64,
    /// The event emitted.
    pub event: RandomnessRequested,
}

/// Why a direct request with the given callback program is refused, if it
/// is. `callback` is `None` for a request without callback. The checks run
/// in this order: the treasury is the configured one; the callback program,
/// if one is named, is not the zero address; the request counter can move
/// on.
pub open spec fn direct_refusal(config: VrfConfiguration, args: DirectArgs, callback: Option<Pubkey>) -> Option<DirectError> {
    if args.treasury@ != config.treasury@ {
        Some(DirectError::WrongTreasury)
    } else if callback matches Some(program) && program@ == zero_address() {
        Some(DirectError::ZeroAddressNotAllowed)
    } else if config.request_counter == u64::MAX {
        Some(DirectError::CounterOverflow)
    } else {
        None
    }
}

/// `created` is what a direct request leaves behind: a pending request
/// under the id that the counter holds, with zeroed randomness and the
/// callback program named (the zero address for none); the configured fee
/// to pay; the event with id, requester, seed and slot.
pub open spec fn is_direct_request(
    created: DirectCreated,
    config: VrfConfiguration,
    args: DirectArgs,
    callback: Option<Pubkey>,
) -> bool {
    &&& created.request.request_id == config.request_counter
    &&& created.request.requester == args.requester
    &&& created.request.seed == args.seed
    &&& created.request.request_slot == args.slot
    &&& created.request.callback_program@ == (match callback {
        Some(program) => program@,
        None => zero_address(),
    })
    &&& created.request.status == 0
    &&& created.request.randomness@ == zero_address()
    &&& created.request.fulfilled_slot == 0
    &&& created.request.bump == args.bump
    &&& created.fee == config.fee
    &&& created.event == (RandomnessRequested {
        request_id: config.request_counter,
        requester: args.requester,
        seed: args.seed,
        request_slot: args.slot,
    })
}

/// `made` and `config_after` are what a direct request comes to: a refused
/// request returns its error and leaves the configuration as it was; else
/// the request is created and the counter moves on by one.
pub open spec fn direct_outcome(
    config: VrfConfiguration,
    args: DirectArgs,
    callback: Option<Pubkey>,
    made: Result<DirectCreated, DirectError>,
    config_after: VrfConfiguration,
) -> bool {
    match direct_refusal(config, args, callback) {
        Some(e) => made == Err::<DirectCreated, DirectError>(e) && config_after == config,
        None => (made matches Ok(created) && is_direct_request(created, config, args, callback))
            && config_after == (VrfConfiguration {
            request_counter: (config.request_counter + 1) as u64,
            ..config
        }),
    }
}

/// Creates a direct request, with or without a callback program.
pub fn create_direct_request(config: &mut VrfConfiguration, args: DirectArgs, callback: Option<Pubkey>) -> (made: Result<DirectCreated, DirectError>)
    ensures
        direct_outcome(*old(config), args, callback, made, *final(config)),
{
    if !args.treasury.equals(&config.treasury) {
        return Err(DirectError::WrongTreasury);
    }
    let callback_program = match callback {
        Some(program) => {
            if program.is_zero() {
                return Err(DirectError::ZeroAddressNotAllowed);
            }
            program
        },
        None => Pubkey::zero(),
    };
    let request_id = config.request_counter;
    let next = match request_id.checked_add(1) {
        Some(next) => next,
        None => {
            return Err(DirectError::CounterOverflow);
        },
    };
    config.request_counter = next;
    let request = DirectRequest {
        request_id,
        requester: args.requester,
        seed: args.seed,
        request_slot: args.slot,
        callback_program,
        status: STATUS_PENDING,
        randomness: [0u8; 32],
        fulfilled_slot: 0,
        bump: args.bump,
    };
    assert(request.randomness@ =~= zero_address());
    Ok(
        DirectCreated {
            request,
            fee: config.fee,
            event: RandomnessRequested {
                request_id,
                requester: args.requester,
                seed: args.seed,
                request_slot: args.slot,
            },
        },
    )
}

/// Creates the configuration for direct requests. Refused with
/// `ZeroAddressNotAllowed` where the authority or the treasury is the zero
/// address.
pub fn initialize_configuration(admin: Pubkey, authority: Pubkey, treasury: Pubkey, fee: u64, bump: u8) -> (created: Result<VrfConfiguration, DirectError>)
    ensures
        created == (if authority@ == zero_address() || treasury@ == zero_address() {
            Err(DirectError::ZeroAddressNotAllowed)
        } else {
            Ok(VrfConfiguration { admin, authority, fee, request_counter: 0, treasury, bump })
        }),
{
    if authority.is_zero() || treasury.is_zero() {
        return Err(DirectError::ZeroAddressNotAllowed);
    }
    Ok(VrfConfiguration { admin, authority, fee, request_counter: 0, treasury, bump })
}

/// An address given in an update, or the present one where none is given.
pub open spec fn chosen(new: Option<Pubkey>, present: Pubkey) -> Pubkey {
    match new {
        Some(a) => a,
        None => present,
    }
}

/// What an update of the configuration comes to: `Unauthorized` where the
/// signer is not the admin, `ZeroAddressNotAllowed` where a new address is
/// zero, else the configuration with the given fields replaced.
pub open spec fn configuration_update(
    config: VrfConfiguration,
    signer: Pubkey,
    new_authority: Option<Pubkey>,
    new_fee: Option<u64>,
    new_treasury: Option<Pubkey>,
    new_admin: Option<Pubkey>,
) -> Result<VrfConfiguration, DirectError> {
    if signer@ != config.admin@ {
        Err(DirectError::Unauthorized)
    } else if (new_authority matches Some(a) && a@ == zero_address()) || (new_treasury matches Some(t)
        && t@ == zero_address()) || (new_admin matches Some(a) && a@ == zero_address()) {
        Err(DirectError::ZeroAddressNotAllowed)
    } else {
        Ok(
            VrfConfiguration {
                admin: chosen(new_admin, config.admin),
                authority: chosen(new_authority, config.authority),
                fee: match new_fee {
                    Some(f) => f,
                    None => config.fee,
                },
                treasury: chosen(new_treasury, config.treasury),
                ..config
            },
        )
    }
}

/// Reads an address given in an update: the present one where none is
/// given, `None` where the zero address is given.
fn pick(new: Option<Pubkey>, present: Pubkey) -> (picked: Option<Pubkey>)
    ensures
        picked == (if new matches Some(a) && a@ == zero_address() {
            None
        } else {
            Some(chosen(new, present))
        }),
{
    match new {
        Some(a) => if a.is_zero() {
            None
        } else {
            Some(a)
        },
        None => Some(present),
    }
}

/// Replaces the fields of the configuration that are given. Only the admin
/// may do so, and no address may become zero. A refused update leaves the
/// configuration as it was.
pub fn update_configuration(
    config: &mut VrfConfiguration,
    signer: &Pubkey,
    new_authority: Option<Pubkey>,
    new_fee: Option<u64>,
    new_treasury: Option<Pubkey>,
    new_admin: Option<Pubkey>,
) -> (done: Result<(), DirectError>)
    ensures
        match configuration_update(*old(config), *signer, new_authority, new_fee, new_treasury, new_admin) {
            Ok(updated) => done is Ok && *final(config) == updated,
            Err(e) => done == Err::<(), DirectError>(e) && *final(config) == *old(config),
        },
{
    if !signer.equals(&config.admin) {
        return Err(DirectError::Unauthorized);
    }
    let authority = match pick(new_authority, config.authority) {
        Some(a) => a,
        None => {
            return Err(DirectError::ZeroAddressNotAllowed);
        },
    };
    let treasury = match pick(new_treasury, config.treasury) {
        Some(t) => t,
        None => {
            return Err(DirectError::ZeroAddressNotAllowed);
        },
    };
    let admin = match pick(new_admin, config.admin) {
        Some(a) => a,
        None => {
            return Err(DirectError::ZeroAddressNotAllowed);
        },
    };
    match new_fee {
        Some(f) => {
            config.fee = f;
        },
        None => {},
    }
    config.authority = authority;
    config.treasury = treasury;
    config.admin = admin;
    Ok(())
}

} // verus!
