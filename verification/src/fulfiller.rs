//! The fulfillment of one request: deriving the randomness, signing it,
//! assembling the proof transaction and classifying what comes back.

use vstd::prelude::*;
use solana_sdk::signature::Keypair;
use crate::address::{address_of, config_seeds, find_config_address, find_request_address, request_seeds};
use crate::bytes::{le_bytes, u64_to_le};
use crate::decoder::RandomnessRequestedEvent;
use crate::discriminator::{fulfill_discriminator, fulfill_tag};
use crate::ed25519::{ed25519_instruction, precompile_instruction};
use crate::instruction::{
    instructions_view, metas_view, readonly, writable, AccountMeta, AccountMetaView, Instruction,
    InstructionView,
};
use crate::metrics::Metrics;
use crate::pubkey::{compute_budget_program_address, instructions_sysvar_address, Pubkey};
use crate::signer::{keypair_pubkey, keypair_sign};
use crate::text::{is_substring, str_contains};
use crate::vrf::{compute_randomness, randomness_of, signed_message, signed_message_of};

verus! {

/// Whether an error text names a failure that no retry can mend: the request
/// is no longer pending, the oracle is not authorised, an account is missing
/// or already there. Such a request is skipped and not counted as failed.
pub open spec fn non_retryable(error: Seq<char>) -> bool {
    ||| is_substring("0x1770"@, error)
    ||| is_substring("0x1779"@, error)
    ||| is_substring("RequestNotPending"@, error)
    ||| is_substring("Unauthorized"@, error)
    ||| is_substring("AccountNotInitialized"@, error)
    ||| is_substring("already in use"@, error)
}

/// Tells whether an error text names a failure that no retry can mend.
pub fn is_non_retryable(err_str: &str) -> (skip: bool)
    ensures
        skip == non_retryable(err_str@),
{
    str_contains(err_str, "0x1770") || str_contains(err_str, "0x1779") || str_contains(
        err_str,
        "RequestNotPending",
    ) || str_contains(err_str, "Unauthorized") || str_contains(err_str, "AccountNotInitialized")
        || str_contains(err_str, "already in use")
}

/// The counters after a fulfillment ended with the given error text: a
/// failure is counted unless the error is non-retryable.
pub open spec fn after_error(metrics: Metrics, error: Seq<char>) -> Metrics {
    if non_retryable(error) {
        metrics
    } else {
        metrics.with_failure()
    }
}

/// Accounts for a fulfillment that ended with an error. Returns whether the
/// error was counted as a failure.
pub fn handle_fulfillment_error(request_id: u64, error: &str, metrics: &mut Metrics) -> (counted: bool)
    ensures
        counted == !non_retryable(error@),
        *final(metrics) == after_error(*old(metrics), error@),
{
    if is_non_retryable(error) {
        false
    } else {
        metrics.record_failure();
        true
    }
}

/// An error text that holds `RequestNotPending` or `0x1770` leaves the count
/// of failed requests as it was.
pub proof fn lemma_terminal_errors_are_not_counted(metrics: Metrics, error: Seq<char>)
    requires
        is_substring("RequestNotPending"@, error) || is_substring("0x1770"@, error),
    ensures
        after_error(metrics, error).requests_failed == metrics.requests_failed,
        after_error(metrics, error) == metrics,
{
}

/// An error text that holds none of the non-retryable marks adds one to the
/// count of failed requests.
pub proof fn lemma_unknown_errors_are_counted(metrics: Metrics, error: Seq<char>)
    requires
        !non_retryable(error),
        metrics.requests_failed < u64::MAX,
    ensures
        after_error(metrics, error).requests_failed == metrics.requests_failed + 1,
{
}

/// The instruction that sets the price of a compute unit: the
/// compute-budget program, no accounts, and the data `3 ‖ u64_le(price)`.
pub open spec fn compute_unit_price_instruction(micro_lamports: u64) -> InstructionView {
    InstructionView {
        program_id: compute_budget_program_address(),
        accounts: Seq::empty(),
        data: seq![3u8] + le_bytes(micro_lamports as nat, 8),
    }
}

/// Builds the instruction that sets the price of a compute unit.
pub fn build_set_compute_unit_price_instruction(micro_lamports: u64) -> (ix: Instruction)
    ensures
        ix@ == compute_unit_price_instruction(micro_lamports),
{
    let mut data: Vec<u8> = Vec::with_capacity(9);
    data.push(3u8);
    data.extend_from_slice(u64_to_le(micro_lamports).as_slice());
    let ix = Instruction { program_id: Pubkey::compute_budget_program(), accounts: Vec::new(), data };
    assert(ix@.accounts =~= Seq::<AccountMetaView>::empty());
    assert(ix@.data =~= seq![3u8] + le_bytes(micro_lamports as nat, 8));
    ix
}

/// The data of the fulfill instruction: tag, `u64_le(request_id)`,
/// randomness.
pub open spec fn fulfill_data(request_id: u64, randomness: Seq<u8>) -> Seq<u8> {
    fulfill_tag() + le_bytes(request_id as nat, 8) + randomness
}

/// The accounts of the fulfill instruction: the authority, signing and
/// writable; the configuration, read-only; the request, writable; the
/// requester, writable; the consumer program and the instructions sysvar,
/// read-only; then the callback accounts.
pub open spec fn fulfill_accounts(
    authority: Seq<u8>,
    config_address: Seq<u8>,
    request_address: Seq<u8>,
    requester: Seq<u8>,
    consumer_program: Seq<u8>,
    callbacks: Seq<AccountMetaView>,
) -> Seq<AccountMetaView> {
    seq![
        writable(authority, true),
        readonly(config_address, false),
        writable(request_address, false),
        writable(requester, false),
        readonly(consumer_program, false),
        readonly(instructions_sysvar_address(), false),
    ] + callbacks
}

/// The fulfill instruction of the coordinator `program_id` for an event.
pub open spec fn fulfill_instruction(
    program_id: Seq<u8>,
    authority: Seq<u8>,
    config_address: Seq<u8>,
    request_address: Seq<u8>,
    event: RandomnessRequestedEvent,
    randomness: Seq<u8>,
    callbacks: Seq<AccountMetaView>,
) -> InstructionView {
    InstructionView {
        program_id,
        accounts: fulfill_accounts(
            authority,
            config_address,
            request_address,
            event.requester@,
            event.consumer_program@,
            callbacks,
        ),
        data: fulfill_data(event.request_id, randomness),
    }
}

/// Builds the fulfill instruction from addresses that were derived before.
pub fn fulfill_instruction_with(
    program_id: &Pubkey,
    authority: &Pubkey,
    config_address: &Pubkey,
    request_address: &Pubkey,
    event: &RandomnessRequestedEvent,
    randomness: &[u8; 32],
    callback_accounts: &Vec<AccountMeta>,
) -> (ix: Instruction)
    ensures
        ix@ == fulfill_instruction(
            program_id@,
            authority@,
            config_address@,
            request_address@,
            *event,
            randomness@,
            metas_view(callback_accounts@),
        ),
{
    let mut data: Vec<u8> = Vec::with_capacity(48);
    data.extend_from_slice(fulfill_discriminator().as_slice());
    data.extend_from_slice(u64_to_le(event.request_id).as_slice());
    data.extend_from_slice(randomness.as_slice());
    assert(data@ =~= fulfill_data(event.request_id, randomness@));
    let mut accounts: Vec<AccountMeta> = Vec::new();
    accounts.push(AccountMeta::new(*authority, true));
    accounts.push(AccountMeta::new_readonly(*config_address, false));
    accounts.push(AccountMeta::new(*request_address, false));
    accounts.push(AccountMeta::new(event.requester, false));
    accounts.push(AccountMeta::new_readonly(event.consumer_program, false));
    accounts.push(AccountMeta::new_readonly(Pubkey::instructions_sysvar(), false));
    let ghost head = accounts@;
    let ghost fixed = fulfill_accounts(
        authority@,
        config_address@,
        request_address@,
        event.requester@,
        event.consumer_program@,
        Seq::empty(),
    );
    assert(metas_view(head) =~= fixed);
    let mut i: usize = 0;
    while i < callback_accounts.len()
        invariant
            i <= callback_accounts@.len(),
            accounts@.len() == 6 + i,
            head.len() == 6,
            metas_view(head) == fixed,
            fixed == fulfill_accounts(
                authority@,
                config_address@,
                request_address@,
                event.requester@,
                event.consumer_program@,
                Seq::empty(),
            ),
            forall|j: int| 0 <= j < 6 ==> accounts@[j] == head[j],
            forall|j: int| 0 <= j < i ==> accounts@[6 + j] == callback_accounts@[j],
        decreases callback_accounts@.len() - i,
    {
        accounts.push(callback_accounts[i]);
        i = i + 1;
    }
    assert forall|j: int| 0 <= j < 6 implies metas_view(accounts@)[j] == fixed[j] by {
        assert(metas_view(head)[j] == head[j]@);
    }
    assert(metas_view(accounts@) =~= fulfill_accounts(
        authority@,
        config_address@,
        request_address@,
        event.requester@,
        event.consumer_program@,
        metas_view(callback_accounts@),
    ));
    Instruction { program_id: *program_id, accounts, data }
}

/// The fulfill instruction with the addresses derived from the coordinator's
/// id; `None` where one of them cannot be derived.
pub open spec fn derived_fulfill_instruction(
    program_id: Seq<u8>,
    authority: Seq<u8>,
    event: RandomnessRequestedEvent,
    randomness: Seq<u8>,
    callbacks: Seq<AccountMetaView>,
) -> Option<InstructionView> {
    match (address_of(config_seeds(), program_id), address_of(request_seeds(event.request_id), program_id)) {
        (Some(config_address), Some(request_address)) => Some(
            fulfill_instruction(
                program_id,
                authority,
                config_address,
                request_address,
                event,
                randomness,
                callbacks,
            ),
        ),
        _ => None,
    }
}

/// What an optional instruction holds.
pub open spec fn optional_instruction_view(ix: Option<Instruction>) -> Option<InstructionView> {
    match ix {
        Some(i) => Some(i@),
        None => None,
    }
}

/// Builds the fulfill instruction for an event, deriving the addresses of
/// the configuration and of the request.
pub fn build_fulfill_instruction(
    program_id: &Pubkey,
    authority: &Pubkey,
    event: &RandomnessRequestedEvent,
    randomness: &[u8; 32],
    callback_accounts: &Vec<AccountMeta>,
) -> (ix: Option<Instruction>)
    ensures
        optional_instruction_view(ix) == derived_fulfill_instruction(
            program_id@,
            authority@,
            *event,
            randomness@,
            metas_view(callback_accounts@),
        ),
{
    let config_address = match find_config_address(program_id) {
        Some(key) => key,
        None => {
            return None;
        },
    };
    let request_address = match find_request_address(program_id, event.request_id) {
        Some(key) => key,
        None => {
            return None;
        },
    };
    Some(
        fulfill_instruction_with(
            program_id,
            authority,
            &config_address,
            &request_address,
            event,
            randomness,
            callback_accounts,
        ),
    )
}

/// Signs `message` with the oracle's key and builds the signature-verify
/// instruction over the key, the signature and the message. Returns the key
/// and the signature with the instruction.
pub fn build_ed25519_instruction(keypair: &Keypair, message: &[u8]) -> (built: (Pubkey, [u8; 64], Instruction))
    requires
        message@.len() <= u16::MAX,
    ensures
        built.2@ == precompile_instruction(built.0@, built.1@, message@),
{
    let signature = keypair_sign(keypair, message);
    let authority = keypair_pubkey(keypair);
    let ix = ed25519_instruction(&authority, &signature, message);
    (authority, signature, ix)
}

/// The instructions of a proof transaction, in order: the price
/// instruction, only where a priority fee is configured; the
/// signature-verify instruction; the fulfill instruction.
pub open spec fn transaction_instructions(
    priority_fee_micro_lamports: u64,
    proof_instruction: InstructionView,
    fulfill: InstructionView,
) -> Seq<InstructionView> {
    if priority_fee_micro_lamports > 0 {
        seq![compute_unit_price_instruction(priority_fee_micro_lamports), proof_instruction, fulfill]
    } else {
        seq![proof_instruction, fulfill]
    }
}

/// Whatever the fee, a proof transaction ends with the signature-verify
/// instruction and, right after it, the fulfill instruction.
pub proof fn lemma_transaction_order(
    priority_fee_micro_lamports: u64,
    proof_instruction: InstructionView,
    fulfill: InstructionView,
)
    ensures
        ({
            let list = transaction_instructions(priority_fee_micro_lamports, proof_instruction, fulfill);
            &&& list.len() == (if priority_fee_micro_lamports > 0 {
                3nat
            } else {
                2nat
            })
            &&& list[list.len() - 1] == fulfill
            &&& list[list.len() - 2] == proof_instruction
        }),
{
}

/// Puts the instructions of a proof transaction in order.
pub fn assemble_instructions(
    priority_fee_micro_lamports: u64,
    proof_instruction: Instruction,
    fulfill: Instruction,
) -> (list: Vec<Instruction>)
    ensures
        instructions_view(list@) == transaction_instructions(
            priority_fee_micro_lamports,
            proof_instruction@,
            fulfill@,
        ),
{
    let mut list: Vec<Instruction> = Vec::with_capacity(3);
    if priority_fee_micro_lamports > 0 {
        list.push(build_set_compute_unit_price_instruction(priority_fee_micro_lamports));
    }
    list.push(proof_instruction);
    list.push(fulfill);
    assert(instructions_view(list@) =~= transaction_instructions(
        priority_fee_micro_lamports,
        proof_instruction@,
        fulfill@,
    ));
    list
}

/// What the oracle submits for one request.
#[derive(Clone, Debug, PartialEq, Eq)]
pub struct Fulfillment {
    /// The randomness derived for the request.
    pub randomness: [u8; 32],
    /// The message that was signed.
    pub message: Vec<u8>,
    /// The oracle's public key, which pays the fee.
    pub authority: Pubkey,
    /// The signature over the message.
    pub signature: [u8; 64],
    /// The instructions of the transaction, in order.
    pub instructions: Vec<Instruction>,
}

/// `f` is the fulfillment of `event` under the given secret, coordinator,
/// fee and callback accounts, for the key and signature that it names.
pub open spec fn fulfills(
    f: Fulfillment,
    hmac_secret: Seq<u8>,
    program_id: Seq<u8>,
    priority_fee_micro_lamports: u64,
    event: RandomnessRequestedEvent,
    callbacks: Seq<AccountMetaView>,
) -> bool {
    &&& f.randomness@ == randomness_of(hmac_secret, event.seed@, event.request_slot, event.request_id)
    &&& f.message@ == signed_message_of(event.request_id, f.randomness@)
    &&& derived_fulfill_instruction(program_id, f.authority@, event, f.randomness@, callbacks) matches Some(
        fulfill,
    )
    &&& instructions_view(f.instructions@) == transaction_instructions(
        priority_fee_micro_lamports,
        precompile_instruction(f.authority@, f.signature@, f.message@),
        fulfill,
    )
}

/// Prepares the proof transaction for one request: derives the randomness,
/// composes and signs the message, and assembles the instructions. `None`
/// where an address of the coordinator cannot be derived.
pub fn fulfill_request(
    hmac_secret: &[u8],
    keypair: &Keypair,
    program_id: &Pubkey,
    priority_fee_micro_lamports: u64,
    event: &RandomnessRequestedEvent,
    callback_accounts: &Vec<AccountMeta>,
) -> (prepared: Option<Fulfillment>)
    ensures
        match prepared {
            Some(f) => fulfills(
                f,
                hmac_secret@,
                program_id@,
                priority_fee_micro_lamports,
                *event,
                metas_view(callback_accounts@),
            ),
            None => address_of(config_seeds(), program_id@) is None || address_of(
                request_seeds(event.request_id),
                program_id@,
            ) is None,
        },
{
    let randomness = compute_randomness(hmac_secret, &event.seed, event.request_slot, event.request_id);
    let message = signed_message(event.request_id, &randomness);
    let (authority, signature, proof_instruction) = build_ed25519_instruction(keypair, message.as_slice());
    let fulfill = match build_fulfill_instruction(program_id, &authority, event, &randomness, callback_accounts) {
        Some(ix) => ix,
        None => {
            return None;
        },
    };
    let instructions = assemble_instructions(priority_fee_micro_lamports, proof_instruction, fulfill);
    Some(Fulfillment { randomness, message, authority, signature, instructions })
}

} // verus!
