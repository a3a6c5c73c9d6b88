//! The extra accounts that a consumer's callback needs.
//!
//! A request account may carry, after its body, a table of up to four
//! addresses with a bitmap that marks the writable ones. For the dice
//! consumer the accounts can also be derived from the request itself.

use vstd::prelude::*;
use crate::address::{
    address_of, dice_result_seeds, find_dice_result_address, find_game_config_address, game_config_seeds,
};
use crate::bytes::read_array32;
use crate::decoder::RandomnessRequestedEvent;
use crate::instruction::{metas_view, readonly, writable, AccountMeta, AccountMetaView};
use crate::pubkey::Pubkey;

verus! {

/// Most callback accounts that a request account carries.
pub const MAX_CALLBACK_ACCOUNTS: usize = 4;

/// Where the number of callback accounts stands in a request account.
pub const CALLBACK_COUNT_OFFSET: usize = 178;

/// Where the table of callback addresses starts.
pub const CALLBACK_KEYS_OFFSET: usize = 179;

/// Where the bitmap of writable callback accounts stands.
pub const CALLBACK_BITMAP_OFFSET: usize = 307;

/// Length of a request account that carries the callback fields.
pub const MIN_DATA_LEN_WITH_CALLBACKS: usize = 308;

/// Whether bit `i` of `bitmap` is set.
pub open spec fn bit_is_set(bitmap: u8, i: u8) -> bool {
    (bitmap >> i) & 1 == 1
}

/// How many callback accounts the account data carry: none where the data
/// are too short for the callback fields, else the count byte, at most 4.
pub open spec fn callback_count(data: Seq<u8>) -> nat {
    if data.len() < 308 {
        0
    } else if data[178] > 4 {
        4
    } else {
        data[178] as nat
    }
}

/// The `i`-th callback account of the data: the address in slot `i` of the
/// table, never a signer, writable where bit `i` of the bitmap is set.
pub open spec fn callback_account(data: Seq<u8>, i: int) -> AccountMetaView {
    AccountMetaView {
        pubkey: data.subrange(179 + 32 * i, 179 + 32 * i + 32),
        is_signer: false,
        is_writable: bit_is_set(data[307], i as u8),
    }
}

/// The callback accounts that the account data carry, in table order.
pub open spec fn callback_accounts(data: Seq<u8>) -> Seq<AccountMetaView> {
    Seq::new(callback_count(data), |i: int| callback_account(data, i))
}

/// Reads the callback accounts out of the data of a request account.
pub fn read_callback_accounts_from_request(data: &[u8]) -> (accounts: Vec<AccountMeta>)
    ensures
        metas_view(accounts@) == callback_accounts(data@),
{
    let mut accounts: Vec<AccountMeta> = Vec::new();
    if data.len() < MIN_DATA_LEN_WITH_CALLBACKS {
        assert(metas_view(accounts@) =~= callback_accounts(data@));
        return accounts;
    }
    let stored: u8 = data[CALLBACK_COUNT_OFFSET];
    let count: u8 = if stored > 4 { 4 } else { stored };
    let bitmap: u8 = data[CALLBACK_BITMAP_OFFSET];
    let mut i: u8 = 0;
    while i < count
        invariant
            i <= count <= 4,
            data@.len() >= 308,
            count == callback_count(data@),
            bitmap == data@[307],
            accounts@.len() == i,
            forall|j: int| 0 <= j < i ==> (#[trigger] accounts@[j])@ == callback_account(data@, j),
        decreases count - i,
    {
        let start: usize = CALLBACK_KEYS_OFFSET + (i as usize) * 32;
        let key = Pubkey::new(read_array32(data, start));
        let is_writable = (bitmap >> i) & 1 == 1;
        accounts.push(AccountMeta { pubkey: key, is_signer: false, is_writable });
        i = i + 1;
    }
    assert(metas_view(accounts@) =~= callback_accounts(data@));
    accounts
}

/// The callback accounts of the dice consumer for a request: its
/// configuration account, read-only, then the result account of the
/// requester and the request, writable. `None` where an address cannot be
/// derived.
pub open spec fn dice_accounts(dice_program_id: Seq<u8>, event: RandomnessRequestedEvent) -> Option<Seq<AccountMetaView>> {
    match (
        address_of(game_config_seeds(), dice_program_id),
        address_of(dice_result_seeds(event.requester@, event.request_id), dice_program_id),
    ) {
        (Some(config), Some(result)) => Some(seq![readonly(config, false), writable(result, false)]),
        _ => None,
    }
}

/// What an optional list of account references holds.
pub open spec fn optional_metas_view(list: Option<Vec<AccountMeta>>) -> Option<Seq<AccountMetaView>> {
    match list {
        Some(l) => Some(metas_view(l@)),
        None => None,
    }
}

/// Derives the callback accounts of the dice consumer for a request.
pub fn derive_dice_callback_accounts(dice_program_id: &Pubkey, event: &RandomnessRequestedEvent) -> (accounts: Option<Vec<AccountMeta>>)
    ensures
        optional_metas_view(accounts) == dice_accounts(dice_program_id@, *event),
{
    let config = match find_game_config_address(dice_program_id) {
        Some(key) => key,
        None => {
            return None;
        },
    };
    let result = match find_dice_result_address(dice_program_id, &event.requester, event.request_id) {
        Some(key) => key,
        None => {
            return None;
        },
    };
    let mut accounts: Vec<AccountMeta> = Vec::new();
    accounts.push(AccountMeta::new_readonly(config, false));
    accounts.push(AccountMeta::new(result, false));
    assert(metas_view(accounts@) =~= seq![readonly(config@, false), writable(result@, false)]);
    Some(accounts)
}

/// The callback accounts for a request. Those that the request account
/// carries come first; where it carries none (or its data are not at hand)
/// and the consumer is the configured dice program, they are derived; else
/// there are none.
pub open spec fn resolved_accounts(
    event: RandomnessRequestedEvent,
    dice_program_id: Option<Seq<u8>>,
    request_data: Option<Seq<u8>>,
) -> Seq<AccountMetaView> {
    let carried = match request_data {
        Some(data) => callback_accounts(data),
        None => Seq::empty(),
    };
    if carried.len() > 0 {
        carried
    } else {
        match dice_program_id {
            Some(dice) => if event.consumer_program@ == dice {
                match dice_accounts(dice, event) {
                    Some(accounts) => accounts,
                    None => Seq::empty(),
                }
            } else {
                Seq::empty()
            },
            None => Seq::empty(),
        }
    }
}

/// Resolves the callback accounts for a request from the data of its
/// account, if they were fetched, and the dice program id, if one is
/// configured.
pub fn resolve_callback_accounts(
    event: &RandomnessRequestedEvent,
    dice_program_id: Option<&Pubkey>,
    request_data: Option<&[u8]>,
) -> (accounts: Vec<AccountMeta>)
    ensures
        metas_view(accounts@) == resolved_accounts(
            *event,
            match dice_program_id {
                Some(dice) => Some(dice@),
                None => None,
            },
            match request_data {
                Some(data) => Some(data@),
                None => None,
            },
        ),
{
    let carried = match request_data {
        Some(data) => read_callback_accounts_from_request(data),
        None => Vec::new(),
    };
    if carried.len() > 0 {
        return carried;
    }
    assert(metas_view(carried@) =~= Seq::<AccountMetaView>::empty());
    match dice_program_id {
        Some(dice) => {
            if event.consumer_program.equals(dice) {
                match derive_dice_callback_accounts(dice, event) {
                    Some(accounts) => accounts,
                    None => carried,
                }
            } else {
                carried
            }
        },
        None => carried,
    }
}

} // verus!
