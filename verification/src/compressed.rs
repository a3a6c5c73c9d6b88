//! The fulfillment of a compressed request.

use vstd::prelude::*;
use vstd::string::StringSliceAdditionalSpecFns;
use solana_sdk::signature::Keypair;
use crate::address::{address_of, config_seeds, find_config_address};
use crate::bytes::{le_bytes, u16_to_le, u32_to_le, u64_to_le};
use crate::crypto::sha256_digest;
use crate::decoder::{EventView, RandomnessRequestedEvent};
use crate::discriminator::{discriminator_of, leading_eight};
use crate::ed25519::precompile_instruction;
use crate::fulfiller::{
    assemble_instructions, build_ed25519_instruction, transaction_instructions, Fulfillment,
};
use crate::instruction::{
    instructions_view, readonly, writable, AccountMeta, Instruction, InstructionView,
};
use crate::listener::{
    dispatch_request, CompressedFulfillmentRequest, Deduplicator, FulfillmentRequest, ListenerModel,
    RequestView, dispatch_all, requests_view,
};
use crate::metrics::Metrics;
use crate::photon::{compressed_body, CompressedAccountInfo, CompressedAccountView, ValidityProof};
use crate::pubkey::{instructions_sysvar_address, zero_address, Pubkey};
use crate::vrf::{compute_randomness, randomness_of, signed_message, signed_message_of};

verus! {

/// The tag of the instruction that fulfills a compressed request: that of
/// `"global:fulfill_randomness_compressed"`.
pub open spec fn fulfill_compressed_tag() -> Seq<u8> {
    discriminator_of("global:fulfill_randomness_compressed".spec_bytes())
}

/// Computes the tag of the instruction that fulfills a compressed request.
pub fn fulfill_compressed_discriminator() -> (tag: [u8; 8])
    ensures
        tag@ == fulfill_compressed_tag(),
{
    let digest = sha256_digest("global:fulfill_randomness_compressed".as_bytes());
    leading_eight(&digest)
}

/// The data of the instruction: tag, request id, randomness, the three
/// parts of the proof, the place of the account in its tree (tree index,
/// queue index, leaf index, a zero byte for "no queue index"), the root
/// index, the current request, the account's hash and address, the index of
/// the output tree, and 32 zero bytes for the hash of the output.
pub open spec fn fulfill_compressed_data(
    request_id: u64,
    randomness: Seq<u8>,
    a: Seq<u8>,
    b: Seq<u8>,
    c: Seq<u8>,
    account: CompressedAccountView,
) -> Seq<u8> {
    fulfill_compressed_tag() + le_bytes(request_id as nat, 8) + randomness + a + b + c
        + seq![account.merkle_tree_index, account.nullifier_queue_index] + le_bytes(
        account.leaf_index as nat,
        4,
    ) + seq![0u8] + le_bytes(account.root_index as nat, 2) + compressed_body(account.request)
        + account.hash + account.address + seq![account.merkle_tree_index] + zero_address()
}

/// The instruction that fulfills a compressed request: the authority,
/// signing and writable; the configuration and the instructions sysvar,
/// read-only; the account's tree, writable.
pub open spec fn fulfill_compressed_instruction(
    program_id: Seq<u8>,
    authority: Seq<u8>,
    config_address: Seq<u8>,
    request_id: u64,
    randomness: Seq<u8>,
    a: Seq<u8>,
    b: Seq<u8>,
    c: Seq<u8>,
    account: CompressedAccountView,
) -> InstructionView {
    InstructionView {
        program_id,
        accounts: seq![
            writable(authority, true),
            readonly(config_address, false),
            readonly(instructions_sysvar_address(), false),
            writable(account.merkle_tree, false),
        ],
        data: fulfill_compressed_data(request_id, randomness, a, b, c, account),
    }
}

/// Builds the instruction that fulfills a compressed request. `None` where
/// the address of the configuration cannot be derived.
pub fn build_fulfill_compressed_instruction(
    program_id: &Pubkey,
    authority: &Pubkey,
    request_id: u64,
    randomness: &[u8; 32],
    proof_parts: &ValidityProof,
    account_info: &CompressedAccountInfo,
) -> (ix: Option<Instruction>)
    ensures
        match address_of(config_seeds(), program_id@) {
            Some(config_address) => ix matches Some(i) && i@ == fulfill_compressed_instruction(
                program_id@,
                authority@,
                config_address,
                request_id,
                randomness@,
                proof_parts.a@,
                proof_parts.b@,
                proof_parts.c@,
                account_info@,
            ),
            None => ix is None,
        },
{
    let config_address = match find_config_address(program_id) {
        Some(key) => key,
        None => {
            return None;
        },
    };
    let mut data: Vec<u8> = Vec::with_capacity(512);
    data.extend_from_slice(fulfill_compressed_discriminator().as_slice());
    data.extend_from_slice(u64_to_le(request_id).as_slice());
    data.extend_from_slice(randomness.as_slice());
    data.extend_from_slice(proof_parts.a.as_slice());
    data.extend_from_slice(proof_parts.b.as_slice());
    data.extend_from_slice(proof_parts.c.as_slice());
    data.push(account_info.merkle_tree_index);
    data.push(account_info.nullifier_queue_index);
    data.extend_from_slice(u32_to_le(account_info.leaf_index).as_slice());
    data.push(0);
    data.extend_from_slice(u16_to_le(account_info.root_index).as_slice());
    let body = account_info.request.to_bytes();
    data.extend_from_slice(body.as_slice());
    data.extend_from_slice(account_info.hash.as_slice());
    data.extend_from_slice(account_info.address.as_slice());
    data.push(account_info.merkle_tree_index);
    let zeros = [0u8; 32];
    assert(zeros@ =~= zero_address());
    data.extend_from_slice(zeros.as_slice());
    assert(data@ =~= fulfill_compressed_data(
        request_id,
        randomness@,
        proof_parts.a@,
        proof_parts.b@,
        proof_parts.c@,
        account_info@,
    ));
    let mut accounts: Vec<AccountMeta> = Vec::new();
    accounts.push(AccountMeta::new(*authority, true));
    accounts.push(AccountMeta::new_readonly(config_address, false));
    accounts.push(AccountMeta::new_readonly(Pubkey::instructions_sysvar(), false));
    accounts.push(AccountMeta::new(account_info.merkle_tree, false));
    let ix = Instruction { program_id: *program_id, accounts, data };
    assert(ix@.accounts =~= seq![
        writable(authority@, true),
        readonly(config_address@, false),
        readonly(instructions_sysvar_address(), false),
        writable(account_info.merkle_tree@, false),
    ]);
    Some(ix)
}

/// Why a compressed request cannot be fulfilled.
#[derive(Clone, Copy, Debug, PartialEq, Eq, Structural)]
pub enum CompressedError {
    /// The address of the compressed account is still zero.
    UnresolvedAddress,
    /// The indexer returned the account of another request.
    WrongRequest,
    /// The address of the configuration cannot be derived.
    NoConfigAddress,
}

/// Whether the address of the compressed account is known, that is, not
/// zero. Only then is the indexer asked for the account.
pub fn address_is_resolved(request: &CompressedFulfillmentRequest) -> (resolved: bool)
    ensures
        resolved == (request.address@ != zero_address()),
{
    !Pubkey::new(request.address).is_zero()
}

/// Why the fulfillment of a compressed request is refused, if it is: the
/// address is unresolved; the account is that of another request; the
/// address of the configuration cannot be derived.
pub open spec fn compressed_refusal(
    program_id: Seq<u8>,
    request: CompressedFulfillmentRequest,
    account: CompressedAccountView,
) -> Option<CompressedError> {
    if request.address@ == zero_address() {
        Some(CompressedError::UnresolvedAddress)
    } else if account.request.request_id != request.event.request_id {
        Some(CompressedError::WrongRequest)
    } else if address_of(config_seeds(), program_id) is None {
        Some(CompressedError::NoConfigAddress)
    } else {
        None
    }
}

/// Prepares the proof transaction for a compressed request from the account
/// and the validity proof that the indexer returned.
pub fn fulfill_compressed_request(
    hmac_secret: &[u8],
    keypair: &Keypair,
    program_id: &Pubkey,
    priority_fee_micro_lamports: u64,
    comp_req: &CompressedFulfillmentRequest,
    account_info: &CompressedAccountInfo,
    proof_parts: &ValidityProof,
) -> (prepared: Result<Fulfillment, CompressedError>)
    ensures
        match compressed_refusal(program_id@, *comp_req, account_info@) {
            Some(e) => prepared == Err::<Fulfillment, CompressedError>(e),
            None => prepared matches Ok(f) && f.randomness@ == randomness_of(
                hmac_secret@,
                comp_req.event.seed@,
                comp_req.event.request_slot,
                comp_req.event.request_id,
            ) && f.message@ == signed_message_of(comp_req.event.request_id, f.randomness@)
                && instructions_view(f.instructions@) == transaction_instructions(
                priority_fee_micro_lamports,
                precompile_instruction(f.authority@, f.signature@, f.message@),
                fulfill_compressed_instruction(
                    program_id@,
                    f.authority@,
                    address_of(config_seeds(), program_id@)->Some_0,
                    comp_req.event.request_id,
                    f.randomness@,
                    proof_parts.a@,
                    proof_parts.b@,
                    proof_parts.c@,
                    account_info@,
                ),
            ),
        },
{
    let event = &comp_req.event;
    if !address_is_resolved(comp_req) {
        return Err(CompressedError::UnresolvedAddress);
    }
    if account_info.request.request_id != event.request_id {
        return Err(CompressedError::WrongRequest);
    }
    let randomness = compute_randomness(hmac_secret, &event.seed, event.request_slot, event.request_id);
    let message = signed_message(event.request_id, &randomness);
    let (authority, signature, proof_instruction) = build_ed25519_instruction(keypair, message.as_slice());
    let fulfill = match build_fulfill_compressed_instruction(
        program_id,
        &authority,
        event.request_id,
        &randomness,
        proof_parts,
        account_info,
    ) {
        Some(ix) => ix,
        None => {
            return Err(CompressedError::NoConfigAddress);
        },
    };
    let instructions = assemble_instructions(priority_fee_micro_lamports, proof_instruction, fulfill);
    Ok(Fulfillment { randomness, message, authority, signature, instructions })
}

/// The request that a pending compressed account stands for: its id,
/// requester, seed and slot, with the fields that a compressed request
/// lacks at zero, and the account's address.
pub open spec fn compressed_request(account: CompressedAccountView) -> RequestView {
    RequestView::Compressed {
        event: EventView {
            request_id: account.request.request_id,
            subscription_id: 0,
            consumer_program: zero_address(),
            requester: account.request.requester,
            num_words: 0,
            seed: account.request.seed,
            request_slot: account.request.request_slot,
            callback_compute_limit: 0,
        },
        address: account.address,
    }
}

/// What each account of a scan stands for.
pub open spec fn compressed_requests(accounts: Seq<CompressedAccountInfo>) -> Seq<Option<RequestView>> {
    Seq::new(accounts.len(), |i: int| Some(compressed_request(accounts[i]@)))
}

/// Goes through the pending compressed accounts that the indexer returned
/// and returns the requests to hand on, in order. A request whose id was
/// seen before is skipped.
pub fn catch_up_compressed_requests(
    accounts: &Vec<CompressedAccountInfo>,
    dedup: &mut Deduplicator,
    metrics: &mut Metrics,
) -> (emitted: Vec<FulfillmentRequest>)
    ensures
        (ListenerModel { seen: final(dedup)@, metrics: *final(metrics), emitted: requests_view(emitted@) })
            == dispatch_all(
            ListenerModel { seen: old(dedup)@, metrics: *old(metrics), emitted: Seq::empty() },
            compressed_requests(accounts@),
        ),
{
    let mut emitted: Vec<FulfillmentRequest> = Vec::new();
    let ghost start = ListenerModel { seen: dedup@, metrics: *metrics, emitted: Seq::empty() };
    let ghost candidates = compressed_requests(accounts@);
    assert(requests_view(emitted@) =~= Seq::<RequestView>::empty());
    assert(candidates.subrange(0, 0) =~= Seq::<Option<RequestView>>::empty());
    let mut i: usize = 0;
    while i < accounts.len()
        invariant
            i <= accounts@.len(),
            candidates == compressed_requests(accounts@),
            (ListenerModel { seen: dedup@, metrics: *metrics, emitted: requests_view(emitted@) })
                == dispatch_all(start, candidates.subrange(0, i as int)),
        decreases accounts@.len() - i,
    {
        let account = &accounts[i];
        let event = RandomnessRequestedEvent {
            request_id: account.request.request_id,
            subscription_id: 0,
            consumer_program: Pubkey::zero(),
            requester: account.request.requester,
            num_words: 0,
            seed: account.request.seed,
            request_slot: account.request.request_slot,
            callback_compute_limit: 0,
        };
        let request = FulfillmentRequest::Compressed(
            CompressedFulfillmentRequest { event, address: account.address },
        );
        proof {
            let upto = candidates.subrange(0, i + 1);
            assert(upto.drop_last() =~= candidates.subrange(0, i as int));
            assert(upto.last() == candidates[i as int]);
            assert(request@ == compressed_request(account@));
        }
        dispatch_request(request, dedup, metrics, &mut emitted);
        i = i + 1;
    }
    assert(candidates.subrange(0, i as int) =~= candidates);
    emitted
}

} // verus!
