//! Decoding of event payloads and request accounts from their fixed byte
//! layouts, and the matching encoders.

use vstd::prelude::*;
use crate::bytes::{
    le_bytes, le_value, lemma_le_bytes_len, lemma_le_value_of_bytes, lemma_pow256_values, read_array32,
    read_u32_le, read_u64_le, u32_to_le, u64_to_le,
};
use crate::discriminator::{account_discriminator, request_account_tag};
use crate::pubkey::Pubkey;
use crate::state::RandomnessRequest;

verus! {

/// Length of the payload of a request event.
pub const EVENT_PAYLOAD_LEN: usize = 128;

/// Length of the body of a request account.
pub const REQUEST_BODY_LEN: usize = 170;

/// Length of a request account: the tag and the body.
pub const REQUEST_ACCOUNT_LEN: usize = 178;

/// Where the status byte stands in a request account.
pub const REQUEST_STATUS_OFFSET: usize = 136;

/// A request for randomness as the coordinator announces it.
#[derive(Clone, Copy, Debug, PartialEq, Eq)]
pub struct RandomnessRequestedEvent {
    /// The request's id.
    pub request_id: u64,
    /// The subscription that pays.
    pub subscription_id: u64,
    /// The program that gets the callback.
    pub consumer_program: Pubkey,
    /// Who made the request.
    pub requester: Pubkey,
    /// Number of random words asked for.
    pub num_words: u32,
    /// Entropy that the requester chose.
    pub seed: [u8; 32],
    /// Slot in which the request was made.
    pub request_slot: u64,
    /// Compute limit for the callback.
    pub callback_compute_limit: u32,
}

/// The 128 bytes of an event: ids, the two addresses, word count, seed, slot
/// and compute limit, integers little-endian.
pub open spec fn event_payload(e: RandomnessRequestedEvent) -> Seq<u8> {
    le_bytes(e.request_id as nat, 8) + le_bytes(e.subscription_id as nat, 8) + e.consumer_program@
        + e.requester@ + le_bytes(e.num_words as nat, 4) + e.seed@ + le_bytes(e.request_slot as nat, 8)
        + le_bytes(e.callback_compute_limit as nat, 4)
}

/// What an event holds.
pub ghost struct EventView {
    pub request_id: u64,
    pub subscription_id: u64,
    pub consumer_program: Seq<u8>,
    pub requester: Seq<u8>,
    pub num_words: u32,
    pub seed: Seq<u8>,
    pub request_slot: u64,
    pub callback_compute_limit: u32,
}

impl View for RandomnessRequestedEvent {
    type V = EventView;

    open spec fn view(&self) -> EventView {
        EventView {
            request_id: self.request_id,
            subscription_id: self.subscription_id,
            consumer_program: self.consumer_program@,
            requester: self.requester@,
            num_words: self.num_words,
            seed: self.seed@,
            request_slot: self.request_slot,
            callback_compute_limit: self.callback_compute_limit,
        }
    }
}

/// What the 128 bytes of `data` from `base` on say, read as an event.
pub open spec fn decoded_event(data: Seq<u8>, base: int) -> EventView {
    EventView {
        request_id: le_value(data.subrange(base, base + 8)) as u64,
        subscription_id: le_value(data.subrange(base + 8, base + 16)) as u64,
        consumer_program: data.subrange(base + 16, base + 48),
        requester: data.subrange(base + 48, base + 80),
        num_words: le_value(data.subrange(base + 80, base + 84)) as u32,
        seed: data.subrange(base + 84, base + 116),
        request_slot: le_value(data.subrange(base + 116, base + 124)) as u64,
        callback_compute_limit: le_value(data.subrange(base + 124, base + 128)) as u32,
    }
}

/// `e` is what the 128 bytes of `data` from `base` on say.
pub open spec fn event_at(data: Seq<u8>, base: int, e: RandomnessRequestedEvent) -> bool {
    e@ == decoded_event(data, base)
}

/// The event that a request account was announced with.
pub open spec fn event_of(r: RandomnessRequest) -> RandomnessRequestedEvent {
    RandomnessRequestedEvent {
        request_id: r.request_id,
        subscription_id: r.subscription_id,
        consumer_program: r.consumer_program,
        requester: r.requester,
        num_words: r.num_words,
        seed: r.seed,
        request_slot: r.request_slot,
        callback_compute_limit: r.callback_compute_limit,
    }
}

/// The 170 bytes of a request account's body: the event's 128, then status,
/// randomness, fulfilled slot and bump.
pub open spec fn request_body(r: RandomnessRequest) -> Seq<u8> {
    event_payload(event_of(r)) + seq![r.status] + r.randomness@ + le_bytes(r.fulfilled_slot as nat, 8)
        + seq![r.bump]
}

/// `r` is what the 170 bytes of `data` from `base` on say.
pub open spec fn request_at(data: Seq<u8>, base: int, r: RandomnessRequest) -> bool {
    &&& event_at(data, base, event_of(r))
    &&& r.status == data[base + 128]
    &&& r.randomness@ == data.subrange(base + 129, base + 161)
    &&& r.fulfilled_slot == le_value(data.subrange(base + 161, base + 169))
    &&& r.bump == data[base + 169]
}

/// Reads the event that starts at `base`.
fn read_event(data: &[u8], base: usize) -> (e: RandomnessRequestedEvent)
    requires
        base + 128 <= data@.len(),
    ensures
        event_at(data@, base as int, e),
{
    let len = data.len();
    assert(base + 128 <= len);
    RandomnessRequestedEvent {
        request_id: read_u64_le(data, base),
        subscription_id: read_u64_le(data, base + 8),
        consumer_program: Pubkey::new(read_array32(data, base + 16)),
        requester: Pubkey::new(read_array32(data, base + 48)),
        num_words: read_u32_le(data, base + 80),
        seed: read_array32(data, base + 84),
        request_slot: read_u64_le(data, base + 116),
        callback_compute_limit: read_u32_le(data, base + 124),
    }
}

/// Decodes the payload of a request event, the tag already stripped.
/// Payloads under 128 bytes are refused; bytes beyond the 128th are ignored.
pub fn parse_randomness_requested_event(data: &[u8]) -> (parsed: Option<RandomnessRequestedEvent>)
    ensures
        match parsed {
            Some(e) => data@.len() >= 128 && event_at(data@, 0, e),
            None => data@.len() < 128,
        },
{
    if data.len() < EVENT_PAYLOAD_LEN {
        return None;
    }
    Some(read_event(data, 0))
}

/// Decodes a request account: skips the 8-byte tag, then reads the body.
/// Accounts under 178 bytes are refused; bytes beyond are ignored.
pub fn parse_request_account(data: &[u8]) -> (parsed: Option<RandomnessRequest>)
    ensures
        match parsed {
            Some(r) => data@.len() >= 178 && request_at(data@, 8, r),
            None => data@.len() < 178,
        },
{
    if data.len() < REQUEST_ACCOUNT_LEN {
        return None;
    }
    let e = read_event(data, 8);
    Some(
        RandomnessRequest {
            request_id: e.request_id,
            subscription_id: e.subscription_id,
            consumer_program: e.consumer_program,
            requester: e.requester,
            num_words: e.num_words,
            seed: e.seed,
            request_slot: e.request_slot,
            callback_compute_limit: e.callback_compute_limit,
            status: data[136],
            randomness: read_array32(data, 137),
            fulfilled_slot: read_u64_le(data, 169),
            bump: data[177],
        },
    )
}

/// Appends the payload of `e` to `out`.
fn push_event(out: &mut Vec<u8>, e: &RandomnessRequestedEvent)
    ensures
        final(out)@ == old(out)@ + event_payload(*e),
        event_payload(*e).len() == 128,
{
    let ghost before = out@;
    out.extend_from_slice(u64_to_le(e.request_id).as_slice());
    out.extend_from_slice(u64_to_le(e.subscription_id).as_slice());
    out.extend_from_slice(e.consumer_program.bytes.as_slice());
    out.extend_from_slice(e.requester.bytes.as_slice());
    out.extend_from_slice(u32_to_le(e.num_words).as_slice());
    out.extend_from_slice(e.seed.as_slice());
    out.extend_from_slice(u64_to_le(e.request_slot).as_slice());
    out.extend_from_slice(u32_to_le(e.callback_compute_limit).as_slice());
    proof {
        lemma_event_payload_len(*e);
        assert(out@ =~= before + event_payload(*e));
    }
}

/// The payload of an event is 128 bytes long.
pub proof fn lemma_event_payload_len(e: RandomnessRequestedEvent)
    ensures
        event_payload(e).len() == 128,
{
    lemma_le_bytes_len(e.request_id as nat, 8);
    lemma_le_bytes_len(e.subscription_id as nat, 8);
    lemma_le_bytes_len(e.num_words as nat, 4);
    lemma_le_bytes_len(e.request_slot as nat, 8);
    lemma_le_bytes_len(e.callback_compute_limit as nat, 4);
}

/// The body of a request account is 170 bytes long.
pub proof fn lemma_request_body_len(r: RandomnessRequest)
    ensures
        request_body(r).len() == 170,
{
    lemma_event_payload_len(event_of(r));
    lemma_le_bytes_len(r.fulfilled_slot as nat, 8);
}

impl RandomnessRequestedEvent {
    /// The payload of the event, as the coordinator emits it after the tag.
    pub fn to_bytes(&self) -> (out: Vec<u8>)
        ensures
            out@ == event_payload(*self),
            out@.len() == 128,
    {
        let mut out: Vec<u8> = Vec::with_capacity(128);
        push_event(&mut out, self);
        assert(out@ =~= event_payload(*self));
        out
    }
}

impl RandomnessRequest {
    /// The event that announced this request.
    pub fn event(&self) -> (e: RandomnessRequestedEvent)
        ensures
            e == event_of(*self),
    {
        RandomnessRequestedEvent {
            request_id: self.request_id,
            subscription_id: self.subscription_id,
            consumer_program: self.consumer_program,
            requester: self.requester,
            num_words: self.num_words,
            seed: self.seed,
            request_slot: self.request_slot,
            callback_compute_limit: self.callback_compute_limit,
        }
    }

    /// The account data of the request: the account tag, then the body.
    pub fn to_account_data(&self) -> (out: Vec<u8>)
        ensures
            out@ == request_account_tag() + request_body(*self),
            out@.len() == 178,
    {
        let mut out: Vec<u8> = Vec::with_capacity(178);
        let tag = account_discriminator("RandomnessRequest");
        out.extend_from_slice(tag.as_slice());
        let e = self.event();
        push_event(&mut out, &e);
        out.push(self.status);
        out.extend_from_slice(self.randomness.as_slice());
        out.extend_from_slice(u64_to_le(self.fulfilled_slot).as_slice());
        out.push(self.bump);
        proof {
            lemma_request_body_len(*self);
            assert(out@ =~= request_account_tag() + request_body(*self));
        }
        out
    }
}

/// Decoding undoes encoding: whatever follows the payload of `e`, the bytes
/// read back as `e`.
pub proof fn lemma_event_roundtrip(e: RandomnessRequestedEvent, rest: Seq<u8>)
    ensures
        event_at(event_payload(e) + rest, 0, e),
{
    let data = event_payload(e) + rest;
    lemma_event_payload_len(e);
    lemma_le_bytes_len(e.request_id as nat, 8);
    lemma_le_bytes_len(e.subscription_id as nat, 8);
    lemma_le_bytes_len(e.num_words as nat, 4);
    lemma_le_bytes_len(e.request_slot as nat, 8);
    lemma_le_bytes_len(e.callback_compute_limit as nat, 4);
    lemma_pow256_values();
    lemma_le_value_of_bytes(e.request_id as nat, 8);
    lemma_le_value_of_bytes(e.subscription_id as nat, 8);
    lemma_le_value_of_bytes(e.num_words as nat, 4);
    lemma_le_value_of_bytes(e.request_slot as nat, 8);
    lemma_le_value_of_bytes(e.callback_compute_limit as nat, 4);
    assert(data.subrange(0, 8) =~= le_bytes(e.request_id as nat, 8));
    assert(data.subrange(8, 16) =~= le_bytes(e.subscription_id as nat, 8));
    assert(data.subrange(16, 48) =~= e.consumer_program@);
    assert(data.subrange(48, 80) =~= e.requester@);
    assert(data.subrange(80, 84) =~= le_bytes(e.num_words as nat, 4));
    assert(data.subrange(84, 116) =~= e.seed@);
    assert(data.subrange(116, 124) =~= le_bytes(e.request_slot as nat, 8));
    assert(data.subrange(124, 128) =~= le_bytes(e.callback_compute_limit as nat, 4));
}

/// Two events read from the same bytes are the same event.
pub proof fn lemma_event_at_unique(data: Seq<u8>, base: int, a: RandomnessRequestedEvent, b: RandomnessRequestedEvent)
    requires
        event_at(data, base, a),
        event_at(data, base, b),
    ensures
        a == b,
{
    assert(a.consumer_program.bytes =~= b.consumer_program.bytes);
    assert(a.requester.bytes =~= b.requester.bytes);
    assert(a.seed =~= b.seed);
}

/// Bytes put in front of a buffer shift what is read from it: reading at
/// `base` behind a prefix is reading at `base` without it.
pub proof fn lemma_decoded_event_shift(prefix: Seq<u8>, body: Seq<u8>, base: int)
    requires
        0 <= base,
        base + 128 <= body.len(),
    ensures
        decoded_event(prefix + body, prefix.len() + base) == decoded_event(body, base),
{
    let data = prefix + body;
    let at = prefix.len() + base;
    assert(data.subrange(at, at + 8) =~= body.subrange(base, base + 8));
    assert(data.subrange(at + 8, at + 16) =~= body.subrange(base + 8, base + 16));
    assert(data.subrange(at + 16, at + 48) =~= body.subrange(base + 16, base + 48));
    assert(data.subrange(at + 48, at + 80) =~= body.subrange(base + 48, base + 80));
    assert(data.subrange(at + 80, at + 84) =~= body.subrange(base + 80, base + 84));
    assert(data.subrange(at + 84, at + 116) =~= body.subrange(base + 84, base + 116));
    assert(data.subrange(at + 116, at + 124) =~= body.subrange(base + 116, base + 124));
    assert(data.subrange(at + 124, at + 128) =~= body.subrange(base + 124, base + 128));
}

/// A request account reads back as the request it was written from.
pub proof fn lemma_request_roundtrip(r: RandomnessRequest, tag: Seq<u8>)
    requires
        tag.len() == 8,
    ensures
        request_at(tag + request_body(r), 8, r),
{
    let e = event_of(r);
    let body = request_body(r);
    let data = tag + body;
    let tail = seq![r.status] + r.randomness@ + le_bytes(r.fulfilled_slot as nat, 8) + seq![r.bump];
    lemma_event_payload_len(e);
    lemma_le_bytes_len(r.fulfilled_slot as nat, 8);
    assert(event_at(data, 8, e)) by {
        lemma_event_roundtrip(e, tail);
        assert(body =~= event_payload(e) + tail);
        lemma_decoded_event_shift(tag, body, 0);
    }
    assert(r.fulfilled_slot == le_value(data.subrange(169, 177))) by {
        lemma_pow256_values();
        lemma_le_value_of_bytes(r.fulfilled_slot as nat, 8);
        assert(data.subrange(169, 177) =~= le_bytes(r.fulfilled_slot as nat, 8));
    }
    assert(data.subrange(137, 169) =~= r.randomness@);
    assert(data[136] == r.status);
    assert(data[177] == r.bump);
}

} // verus!
