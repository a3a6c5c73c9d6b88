//! Fulfillment of a request: the proof is checked, the random words are
//! derived and handed to the consumer, and the request account is closed.

use vstd::prelude::*;
use crate::bytes::{le_bytes, u32_to_le, u64_to_le};
use crate::crypto::{sha256, sha256_digest};
use crate::discriminator::{consumer_callback_discriminator, fulfill_tag};
use crate::ed25519::{
    lemma_built_instruction_is_accepted, precompile_instruction, proof_check, verify_ed25519_instruction,
};
use crate::errors::VrfError;
use crate::fulfiller::{lemma_transaction_order, transaction_instructions};
use crate::events::RandomWordsFulfilled;
use crate::instruction::{metas_view, readonly, AccountMeta, AccountMetaView, Instruction, InstructionView};
use crate::pubkey::{zero_address, Pubkey};
use crate::state::{CoordinatorConfig, RandomnessRequest, STATUS_FULFILLED, STATUS_PENDING};
use crate::vrf::signed_message_of;

verus! {

/// The `i`-th random word: `SHA256(randomness ‖ u32_le(i))`.
pub open spec fn random_word(randomness: Seq<u8>, i: nat) -> Seq<u8> {
    sha256(randomness + le_bytes(i, 4))
}

/// The first `n` random words, one after the other.
pub open spec fn words_bytes(randomness: Seq<u8>, n: nat) -> Seq<u8>
    decreases n,
{
    if n == 0 {
        Seq::empty()
    } else {
        words_bytes(randomness, (n - 1) as nat) + random_word(randomness, (n - 1) as nat)
    }
}

/// The data of the callback: tag, `u64_le(request_id)`, `u32_le(num_words)`,
/// then the words.
pub open spec fn callback_data(request_id: u64, num_words: u32, randomness: Seq<u8>) -> Seq<u8> {
    fulfill_tag() + le_bytes(request_id as nat, 8) + le_bytes(num_words as nat, 4) + words_bytes(
        randomness,
        num_words as nat,
    )
}

/// The callback into the consumer: the configuration account first,
/// read-only and signing, then the accounts that the oracle supplied, as
/// they are.
pub open spec fn callback_instruction(
    consumer_program: Seq<u8>,
    config_address: Seq<u8>,
    remaining: Seq<AccountMetaView>,
    request_id: u64,
    num_words: u32,
    randomness: Seq<u8>,
) -> InstructionView {
    InstructionView {
        program_id: consumer_program,
        accounts: seq![readonly(config_address, true)] + remaining,
        data: callback_data(request_id, num_words, randomness),
    }
}

/// Derives the random words of a request from its randomness.
pub fn expand_randomness(base_randomness: &[u8; 32], num_words: u32) -> (words: Vec<[u8; 32]>)
    ensures
        words@.len() == num_words,
        forall|i: int| 0 <= i < num_words ==> (#[trigger] words@[i])@ == random_word(base_randomness@, i as nat),
{
    let mut words: Vec<[u8; 32]> = Vec::new();
    let mut i: u32 = 0;
    while i < num_words
        invariant
            i <= num_words,
            words@.len() == i,
            forall|j: int| 0 <= j < i ==> (#[trigger] words@[j])@ == random_word(base_randomness@, j as nat),
        decreases num_words - i,
    {
        let mut input: Vec<u8> = Vec::with_capacity(36);
        input.extend_from_slice(base_randomness.as_slice());
        input.extend_from_slice(u32_to_le(i).as_slice());
        assert(input@ =~= base_randomness@ + le_bytes(i as nat, 4));
        words.push(sha256_digest(input.as_slice()));
        i = i + 1;
    }
    words
}

/// Lays out the data of the callback.
pub fn build_callback_data(request_id: u64, randomness: &[u8; 32], num_words: u32) -> (data: Vec<u8>)
    ensures
        data@ == callback_data(request_id, num_words, randomness@),
{
    let words = expand_randomness(randomness, num_words);
    let mut data: Vec<u8> = Vec::new();
    data.extend_from_slice(consumer_callback_discriminator().as_slice());
    data.extend_from_slice(u64_to_le(request_id).as_slice());
    data.extend_from_slice(u32_to_le(num_words).as_slice());
    let ghost head = data@;
    assert(head =~= fulfill_tag() + le_bytes(request_id as nat, 8) + le_bytes(num_words as nat, 4));
    assert(data@ =~= head + words_bytes(randomness@, 0));
    let mut i: usize = 0;
    while i < words.len()
        invariant
            i <= words@.len(),
            words@.len() == num_words,
            forall|j: int|
                0 <= j < num_words ==> (#[trigger] words@[j])@ == random_word(randomness@, j as nat),
            data@ == head + words_bytes(randomness@, i as nat),
        decreases words@.len() - i,
    {
        data.extend_from_slice(words[i].as_slice());
        i = i + 1;
        assert(data@ =~= head + words_bytes(randomness@, i as nat));
    }
    data
}

/// The accounts that the fulfill instruction is handed, besides the
/// configuration and the request.
#[derive(Clone, Copy, Debug, PartialEq, Eq)]
pub struct FulfillAccounts {
    /// The signer of the transaction.
    pub authority: Pubkey,
    /// The account named as requester.
    pub requester: Pubkey,
    /// The program named as consumer.
    pub consumer_program: Pubkey,
    /// The address of the configuration account.
    pub config_address: Pubkey,
    /// The lamports of the request account.
    pub request_lamports: u64,
    /// The lamports of the requester.
    pub requester_lamports: u64,
    /// The length of the request account's data.
    pub request_data_len: usize,
}

/// What a fulfillment leaves behind.
#[derive(Clone, Debug, PartialEq, Eq)]
pub struct FulfillEffects {
    /// The request as fulfilled, before its account is closed.
    pub fulfilled: RandomnessRequest,
    /// The callback to invoke in the consumer program, signed by the
    /// configuration account. Where it fails, the transaction fails with
    /// `CallbackFailed` and nothing of this takes effect.
    pub callback: Instruction,
    /// The lamports of the closed request account: none.
    pub request_lamports: u64,
    /// The lamports of the requester after the refund.
    pub requester_lamports: u64,
    /// The data of the closed request account: all zero.
    pub request_data: Vec<u8>,
    /// The owner of the closed request account: the system program.
    pub request_owner: Pubkey,
    /// The event emitted.
    pub event: RandomWordsFulfilled,
}

/// Why a fulfillment is refused, if it is. The checks run in this order:
/// the signer is the configured authority; the request is pending; the
/// requester and the consumer program are those of the request; the
/// instruction before this one proves the randomness.
pub open spec fn fulfill_refusal(
    config: CoordinatorConfig,
    request: RandomnessRequest,
    accounts: FulfillAccounts,
    preceding: Option<InstructionView>,
    request_id: u64,
    randomness: Seq<u8>,
) -> Option<VrfError> {
    if config.authority@ != accounts.authority@ {
        Some(VrfError::Unauthorized)
    } else if request.status != 0 {
        Some(VrfError::RequestNotPending)
    } else if accounts.requester@ != request.requester@ {
        Some(VrfError::Unauthorized)
    } else if accounts.consumer_program@ != request.consumer_program@ {
        Some(VrfError::InvalidConsumerProgram)
    } else {
        match proof_check(preceding, config.authority@, request_id, randomness) {
            Err(e) => Some(e),
            Ok(_) => None,
        }
    }
}

/// `effects` are what the fulfillment of `request` with `randomness` in
/// slot `slot` leaves behind: the request is marked fulfilled with the
/// randomness and the slot; the callback carries the words derived from the
/// randomness; the request account is emptied, zeroed and given to the
/// system program, and its lamports go to the requester; the event names
/// request, randomness and consumer.
pub open spec fn fulfilled_with(
    effects: FulfillEffects,
    request: RandomnessRequest,
    accounts: FulfillAccounts,
    remaining: Seq<AccountMetaView>,
    request_id: u64,
    randomness: Seq<u8>,
    slot: u64,
) -> bool {
    &&& effects.fulfilled.status == 1
    &&& effects.fulfilled.randomness@ == randomness
    &&& effects.fulfilled.fulfilled_slot == slot
    &&& effects.fulfilled.request_id == request.request_id
    &&& effects.fulfilled.subscription_id == request.subscription_id
    &&& effects.fulfilled.consumer_program == request.consumer_program
    &&& effects.fulfilled.requester == request.requester
    &&& effects.fulfilled.num_words == request.num_words
    &&& effects.fulfilled.seed == request.seed
    &&& effects.fulfilled.request_slot == request.request_slot
    &&& effects.fulfilled.callback_compute_limit == request.callback_compute_limit
    &&& effects.fulfilled.bump == request.bump
    &&& effects.callback@ == callback_instruction(
        accounts.consumer_program@,
        accounts.config_address@,
        remaining,
        request_id,
        request.num_words,
        randomness,
    )
    &&& effects.request_lamports == 0
    &&& effects.requester_lamports == accounts.requester_lamports + accounts.request_lamports
    &&& effects.request_data@ == Seq::new(accounts.request_data_len as nat, |i: int| 0u8)
    &&& effects.request_owner@ == zero_address()
    &&& effects.event.request_id == request_id
    &&& effects.event.randomness@ == randomness
    &&& effects.event.consumer_program@ == accounts.consumer_program@
}

/// Fulfills a pending request. The refund must fit: the lamports of the
/// requester and of the request account together are at most `u64::MAX`.
pub fn handler(
    config: &CoordinatorConfig,
    request: &RandomnessRequest,
    accounts: &FulfillAccounts,
    preceding_instruction: Option<&Instruction>,
    remaining_accounts: &Vec<AccountMeta>,
    request_id: u64,
    randomness: [u8; 32],
    slot: u64,
) -> (done: Result<FulfillEffects, VrfError>)
    requires
        accounts.requester_lamports + accounts.request_lamports <= u64::MAX,
    ensures
        match fulfill_refusal(
            *config,
            *request,
            *accounts,
            match preceding_instruction {
                Some(ix) => Some(ix@),
                None => None,
            },
            request_id,
            randomness@,
        ) {
            Some(e) => done matches Err(err) && err == e,
            None => done matches Ok(effects) && fulfilled_with(
                effects,
                *request,
                *accounts,
                metas_view(remaining_accounts@),
                request_id,
                randomness@,
                slot,
            ),
        },
{
    if !config.authority.equals(&accounts.authority) {
        return Err(VrfError::Unauthorized);
    }
    if request.status != STATUS_PENDING {
        return Err(VrfError::RequestNotPending);
    }
    if !accounts.requester.equals(&request.requester) {
        return Err(VrfError::Unauthorized);
    }
    if !accounts.consumer_program.equals(&request.consumer_program) {
        return Err(VrfError::InvalidConsumerProgram);
    }
    match verify_ed25519_instruction(preceding_instruction, &config.authority, request_id, &randomness) {
        Err(e) => {
            return Err(e);
        },
        Ok(_) => {},
    }
    let fulfilled = RandomnessRequest {
        request_id: request.request_id,
        subscription_id: request.subscription_id,
        consumer_program: request.consumer_program,
        requester: request.requester,
        num_words: request.num_words,
        seed: request.seed,
        request_slot: request.request_slot,
        callback_compute_limit: request.callback_compute_limit,
        status: STATUS_FULFILLED,
        randomness,
        fulfilled_slot: slot,
        bump: request.bump,
    };
    let data = build_callback_data(request_id, &randomness, request.num_words);
    let mut callback_accounts: Vec<AccountMeta> = Vec::new();
    callback_accounts.push(AccountMeta::new_readonly(accounts.config_address, true));
    let mut i: usize = 0;
    while i < remaining_accounts.len()
        invariant
            i <= remaining_accounts@.len(),
            callback_accounts@.len() == 1 + i,
            callback_accounts@[0]@ == readonly(accounts.config_address@, true),
            forall|j: int| 0 <= j < i ==> callback_accounts@[1 + j] == remaining_accounts@[j],
        decreases remaining_accounts@.len() - i,
    {
        callback_accounts.push(remaining_accounts[i]);
        i = i + 1;
    }
    assert(metas_view(callback_accounts@) =~= seq![readonly(accounts.config_address@, true)] + metas_view(
        remaining_accounts@,
    ));
    let callback = Instruction { program_id: accounts.consumer_program, accounts: callback_accounts, data };
    let mut request_data: Vec<u8> = Vec::new();
    let mut k: usize = 0;
    while k < accounts.request_data_len
        invariant
            k <= accounts.request_data_len,
            request_data@.len() == k,
            forall|j: int| 0 <= j < k ==> request_data@[j] == 0u8,
        decreases accounts.request_data_len - k,
    {
        request_data.push(0u8);
        k = k + 1;
    }
    assert(request_data@ =~= Seq::new(accounts.request_data_len as nat, |i: int| 0u8));
    Ok(
        FulfillEffects {
            fulfilled,
            callback,
            request_lamports: 0,
            requester_lamports: accounts.requester_lamports + accounts.request_lamports,
            request_data,
            request_owner: Pubkey::zero(),
            event: RandomWordsFulfilled {
                request_id,
                randomness,
                consumer_program: accounts.consumer_program,
            },
        },
    )
}

/// The instruction that stands before position `current` in a transaction;
/// `None` at position 0 and beyond the end.
pub open spec fn instruction_before(instructions: Seq<Instruction>, current: int) -> Option<InstructionView> {
    if 0 < current < instructions.len() {
        Some(instructions[current - 1]@)
    } else {
        None
    }
}

/// Picks the instruction that stands before position `current` in a
/// transaction.
pub fn preceding_instruction(instructions: &Vec<Instruction>, current: usize) -> (found: Option<&Instruction>)
    ensures
        match found {
            Some(ix) => Some(ix@),
            None => None,
        } == instruction_before(instructions@, current as int),
{
    if 0 < current && current < instructions.len() {
        Some(&instructions[current - 1])
    } else {
        None
    }
}

/// A fulfillment that names the right accounts for a pending request, is
/// signed by the configured authority and is preceded by an instruction
/// that passes the proof check is not refused.
pub proof fn lemma_proven_fulfillment_is_accepted(
    config: CoordinatorConfig,
    request: RandomnessRequest,
    accounts: FulfillAccounts,
    preceding: InstructionView,
    request_id: u64,
    randomness: Seq<u8>,
)
    requires
        config.authority@ == accounts.authority@,
        request.status == 0,
        accounts.requester@ == request.requester@,
        accounts.consumer_program@ == request.consumer_program@,
        proof_check(Some(preceding), config.authority@, request_id, randomness) == Ok::<(), VrfError>(()),
    ensures
        fulfill_refusal(config, request, accounts, Some(preceding), request_id, randomness) is None,
{
}

/// The coordinator accepts what the oracle submits. Take a pending request
/// and the accounts it names, a configuration whose authority signs, and
/// the transaction that the oracle assembles for the request, with or
/// without a priority fee. Then the fulfill instruction stands last, the
/// signature-verify instruction stands right before it, and with that as
/// the preceding instruction the fulfillment is not refused.
pub proof fn lemma_oracle_transaction_is_accepted(
    config: CoordinatorConfig,
    request: RandomnessRequest,
    accounts: FulfillAccounts,
    priority_fee_micro_lamports: u64,
    signature: Seq<u8>,
    fulfill: InstructionView,
    request_id: u64,
    randomness: Seq<u8>,
)
    requires
        config.authority@ == accounts.authority@,
        request.status == 0,
        accounts.requester@ == request.requester@,
        accounts.consumer_program@ == request.consumer_program@,
        signature.len() == 64,
        randomness.len() == 32,
    ensures
        ({
            let proof_instruction = precompile_instruction(
                config.authority@,
                signature,
                signed_message_of(request_id, randomness),
            );
            let list = transaction_instructions(priority_fee_micro_lamports, proof_instruction, fulfill);
            &&& list.len() >= 2
            &&& list[list.len() - 1] == fulfill
            &&& list[list.len() - 2] == proof_instruction
            &&& fulfill_refusal(config, request, accounts, Some(list[list.len() - 2]), request_id, randomness)
                is None
        }),
{
    let proof_instruction = precompile_instruction(
        config.authority@,
        signature,
        signed_message_of(request_id, randomness),
    );
    lemma_transaction_order(priority_fee_micro_lamports, proof_instruction, fulfill);
    lemma_built_instruction_is_accepted(request_id, randomness, config.authority@, signature);
    lemma_proven_fulfillment_is_accepted(config, request, accounts, proof_instruction, request_id, randomness);
}

} // verus!
