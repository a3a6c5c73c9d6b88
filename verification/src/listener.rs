//! Turning what the chain reports into fulfillment requests: the scan of
//! pending request accounts at startup, the live stream of program logs,
//! the set that keeps a request from being dispatched twice, and the pauses
//! between reconnects.

use std::collections::HashSet;
use vstd::prelude::*;
use vstd::slice::slice_subrange;
use crate::address::{address_of, find_request_address, request_seeds};
use crate::bytes::bytes_equal;
use crate::decoder::{
    decoded_event, lemma_decoded_event_shift, parse_randomness_requested_event, parse_request_account, EventView,
    RandomnessRequestedEvent, REQUEST_STATUS_OFFSET,
};
use crate::discriminator::{account_discriminator, request_account_tag};
use crate::metrics::Metrics;
use crate::pubkey::{zero_address, Pubkey};
use crate::state::STATUS_PENDING;
use crate::text::{base64_decode, base64_decoded, str_strip_prefix, str_trim, trimmed, without_prefix};

verus! {

broadcast use vstd::std_specs::hash::group_hash_axioms;

/// What is needed to fulfill a compressed request.
#[derive(Clone, Copy, Debug, PartialEq, Eq)]
pub struct CompressedFulfillmentRequest {
    /// The request as announced.
    pub event: RandomnessRequestedEvent,
    /// The address of the compressed account; zero while unresolved.
    pub address: [u8; 32],
}

/// A request that waits to be fulfilled.
#[derive(Clone, Copy, Debug, PartialEq, Eq)]
pub enum FulfillmentRequest {
    /// A request held in an account of its own.
    Regular(RandomnessRequestedEvent),
    /// A request held in a compressed account.
    Compressed(CompressedFulfillmentRequest),
}

/// What a fulfillment request holds.
pub ghost enum RequestView {
    Regular { event: EventView },
    Compressed { event: EventView, address: Seq<u8> },
}

impl View for FulfillmentRequest {
    type V = RequestView;

    open spec fn view(&self) -> RequestView {
        match self {
            FulfillmentRequest::Regular(event) => RequestView::Regular { event: event@ },
            FulfillmentRequest::Compressed(request) => RequestView::Compressed {
                event: request.event@,
                address: request.address@,
            },
        }
    }
}

/// What a list of fulfillment requests holds.
pub open spec fn requests_view(list: Seq<FulfillmentRequest>) -> Seq<RequestView> {
    Seq::new(list.len(), |i: int| list[i]@)
}

/// The id of the request.
pub open spec fn request_id_of(request: RequestView) -> u64 {
    match request {
        RequestView::Regular { event } => event.request_id,
        RequestView::Compressed { event, .. } => event.request_id,
    }
}

/// The ids of the requests that were dispatched since the process started.
pub struct Deduplicator {
    seen: HashSet<u64>,
}

impl View for Deduplicator {
    type V = Set<u64>;

    closed spec fn view(&self) -> Set<u64> {
        self.seen@
    }
}

impl Deduplicator {
    /// A set that has seen no request.
    pub fn new() -> (dedup: Deduplicator)
        ensures
            dedup@ == Set::<u64>::empty(),
    {
        Deduplicator { seen: HashSet::new() }
    }

    /// Notes a request id. Returns `true` where the id is seen for the
    /// first time.
    pub fn insert(&mut self, request_id: u64) -> (first: bool)
        ensures
            first == !old(self)@.contains(request_id),
            final(self)@ == old(self)@.insert(request_id),
    {
        self.seen.insert(request_id)
    }

    /// Whether a request id was noted before.
    pub fn contains(&self, request_id: u64) -> (seen: bool)
        ensures
            seen == self@.contains(request_id),
    {
        self.seen.contains(&request_id)
    }
}

/// What the listener has done so far: the ids seen, the counters, and the
/// requests handed on, in order.
pub ghost struct ListenerModel {
    pub seen: Set<u64>,
    pub metrics: Metrics,
    pub emitted: Seq<RequestView>,
}

/// Hands a request on unless its id was seen before: the id is noted, the
/// counter of its kind goes up by one, and the request joins the end of the
/// queue. A request whose id was seen changes nothing.
pub open spec fn dispatch(state: ListenerModel, request: RequestView) -> ListenerModel {
    if state.seen.contains(request_id_of(request)) {
        state
    } else {
        ListenerModel {
            seen: state.seen.insert(request_id_of(request)),
            metrics: match request {
                RequestView::Regular { .. } => state.metrics.with_request(),
                RequestView::Compressed { .. } => state.metrics.with_compressed_request(),
            },
            emitted: state.emitted.push(request),
        }
    }
}

/// Hands on, in order, each candidate that is a request.
pub open spec fn dispatch_all(state: ListenerModel, candidates: Seq<Option<RequestView>>) -> ListenerModel
    decreases candidates.len(),
{
    if candidates.len() == 0 {
        state
    } else {
        let before = dispatch_all(state, candidates.drop_last());
        match candidates.last() {
            Some(request) => dispatch(before, request),
            None => before,
        }
    }
}

/// The bytes that a log line carries: those of the base64 text, trimmed,
/// that follows the exact prefix `Program data: `. `None` for a line without
/// the prefix and for text that is not base64.
pub open spec fn line_data(line: Seq<char>) -> Option<Seq<u8>> {
    match without_prefix(line, "Program data: "@) {
        Some(rest) => base64_decoded(trimmed(rest)),
        None => None,
    }
}

/// The request that carried bytes announce: they start with one of the two
/// event tags, and at least 128 bytes follow, which are the event. A
/// compressed request is announced without its address.
pub open spec fn data_request(data: Seq<u8>, regular_tag: Seq<u8>, compressed_tag: Seq<u8>) -> Option<RequestView> {
    if data.len() < 8 {
        None
    } else if data.subrange(0, 8) == regular_tag {
        if data.len() < 136 {
            None
        } else {
            Some(RequestView::Regular { event: decoded_event(data, 8) })
        }
    } else if data.subrange(0, 8) == compressed_tag {
        if data.len() < 136 {
            None
        } else {
            Some(RequestView::Compressed { event: decoded_event(data, 8), address: zero_address() })
        }
    } else {
        None
    }
}

/// The request that a log line announces, if any.
pub open spec fn line_request(line: Seq<char>, regular_tag: Seq<u8>, compressed_tag: Seq<u8>) -> Option<RequestView> {
    match line_data(line) {
        Some(data) => data_request(data, regular_tag, compressed_tag),
        None => None,
    }
}

/// The characters of each line.
pub open spec fn lines_view(logs: Seq<String>) -> Seq<Seq<char>> {
    Seq::new(logs.len(), |i: int| logs[i]@)
}

/// What each line of a batch announces.
pub open spec fn line_requests(lines: Seq<Seq<char>>, regular_tag: Seq<u8>, compressed_tag: Seq<u8>) -> Seq<Option<RequestView>> {
    Seq::new(lines.len(), |i: int| line_request(lines[i], regular_tag, compressed_tag))
}

/// What an optional fulfillment request holds.
pub open spec fn optional_request_view(request: Option<FulfillmentRequest>) -> Option<RequestView> {
    match request {
        Some(r) => Some(r@),
        None => None,
    }
}

/// Reads the request that carried bytes announce.
pub fn request_in_data(data: &[u8], regular_discriminator: &[u8; 8], compressed_discriminator: &[u8; 8]) -> (request: Option<FulfillmentRequest>)
    ensures
        optional_request_view(request) == data_request(data@, regular_discriminator@, compressed_discriminator@),
{
    let len = data.len();
    if len < 8 {
        return None;
    }
    let tag = slice_subrange(data, 0, 8);
    let payload = slice_subrange(data, 8, len);
    proof {
        if data@.len() >= 136 {
            lemma_decoded_event_shift(data@.subrange(0, 8), payload@, 0);
            assert(data@.subrange(0, 8) + payload@ =~= data@);
        }
    }
    if bytes_equal(tag, regular_discriminator.as_slice()) {
        match parse_randomness_requested_event(payload) {
            Some(event) => Some(FulfillmentRequest::Regular(event)),
            None => None,
        }
    } else if bytes_equal(tag, compressed_discriminator.as_slice()) {
        match parse_randomness_requested_event(payload) {
            Some(event) => {
                let address = [0u8; 32];
                assert(address@ =~= zero_address());
                Some(FulfillmentRequest::Compressed(CompressedFulfillmentRequest { event, address }))
            },
            None => None,
        }
    } else {
        None
    }
}

/// Reads the request that a log line announces.
pub fn request_in_line(line: &str, regular_discriminator: &[u8; 8], compressed_discriminator: &[u8; 8]) -> (request: Option<FulfillmentRequest>)
    ensures
        optional_request_view(request) == line_request(line@, regular_discriminator@, compressed_discriminator@),
{
    let rest = match str_strip_prefix(line, "Program data: ") {
        Some(rest) => rest,
        None => {
            return None;
        },
    };
    let data = match base64_decode(str_trim(rest)) {
        Some(data) => data,
        None => {
            return None;
        },
    };
    request_in_data(data.as_slice(), regular_discriminator, compressed_discriminator)
}

/// Hands a request on unless its id was seen before. Returns whether it was
/// handed on.
pub fn dispatch_request(
    request: FulfillmentRequest,
    dedup: &mut Deduplicator,
    metrics: &mut Metrics,
    emitted: &mut Vec<FulfillmentRequest>,
) -> (handed_on: bool)
    ensures
        handed_on == !old(dedup)@.contains(request_id_of(request@)),
        (ListenerModel {
            seen: final(dedup)@,
            metrics: *final(metrics),
            emitted: requests_view(final(emitted)@),
        }) == dispatch(
            ListenerModel { seen: old(dedup)@, metrics: *old(metrics), emitted: requests_view(old(emitted)@) },
            request@,
        ),
{
    let request_id = match request {
        FulfillmentRequest::Regular(event) => event.request_id,
        FulfillmentRequest::Compressed(compressed) => compressed.event.request_id,
    };
    if !dedup.insert(request_id) {
        assert(dedup@ =~= old(dedup)@);
        return false;
    }
    match request {
        FulfillmentRequest::Regular(_) => metrics.record_request(),
        FulfillmentRequest::Compressed(_) => metrics.record_compressed_request(),
    }
    emitted.push(request);
    assert(requests_view(emitted@) =~= requests_view(old(emitted)@).push(request@));
    true
}

/// Scans a batch of log lines and returns the requests to hand on, in the
/// order of their lines. A line counts where it announces a request; a
/// request whose id was seen before is skipped.
pub fn process_log_lines(
    logs: &[String],
    regular_discriminator: &[u8; 8],
    compressed_discriminator: &[u8; 8],
    dedup: &mut Deduplicator,
    metrics: &mut Metrics,
) -> (emitted: Vec<FulfillmentRequest>)
    ensures
        (ListenerModel { seen: final(dedup)@, metrics: *final(metrics), emitted: requests_view(emitted@) })
            == dispatch_all(
            ListenerModel { seen: old(dedup)@, metrics: *old(metrics), emitted: Seq::empty() },
            line_requests(lines_view(logs@), regular_discriminator@, compressed_discriminator@),
        ),
{
    let mut emitted: Vec<FulfillmentRequest> = Vec::new();
    let ghost start = ListenerModel { seen: dedup@, metrics: *metrics, emitted: Seq::empty() };
    let ghost candidates = line_requests(lines_view(logs@), regular_discriminator@, compressed_discriminator@);
    assert(requests_view(emitted@) =~= Seq::<RequestView>::empty());
    assert(candidates.subrange(0, 0) =~= Seq::<Option<RequestView>>::empty());
    let mut i: usize = 0;
    while i < logs.len()
        invariant
            i <= logs@.len(),
            candidates == line_requests(lines_view(logs@), regular_discriminator@, compressed_discriminator@),
            (ListenerModel { seen: dedup@, metrics: *metrics, emitted: requests_view(emitted@) })
                == dispatch_all(start, candidates.subrange(0, i as int)),
        decreases logs@.len() - i,
    {
        let found = request_in_line(logs[i].as_str(), regular_discriminator, compressed_discriminator);
        proof {
            let upto = candidates.subrange(0, i + 1);
            assert(upto.drop_last() =~= candidates.subrange(0, i as int));
            assert(upto.last() == candidates[i as int]);
            assert(lines_view(logs@)[i as int] == logs@[i as int]@);
        }
        match found {
            Some(request) => {
                dispatch_request(request, dedup, metrics, &mut emitted);
            },
            None => {},
        }
        i = i + 1;
    }
    assert(candidates.subrange(0, i as int) =~= candidates);
    emitted
}

/// A filter on account data: the bytes that must stand at an offset.
#[derive(Clone, Debug, PartialEq, Eq)]
pub struct AccountFilter {
    /// Where the bytes must stand.
    pub offset: usize,
    /// The bytes.
    pub bytes: Vec<u8>,
}

/// The filters of the startup scan: the tag of a request account at offset
/// 0, and the status byte "pending" at its offset.
pub fn pending_request_filters() -> (filters: Vec<AccountFilter>)
    ensures
        filters@.len() == 2,
        filters@[0].offset == 0,
        filters@[0].bytes@ == request_account_tag(),
        filters@[1].offset == 136,
        filters@[1].bytes@ == seq![0u8],
{
    let mut tag_bytes: Vec<u8> = Vec::new();
    tag_bytes.extend_from_slice(account_discriminator("RandomnessRequest").as_slice());
    assert(tag_bytes@ =~= request_account_tag());
    let mut status_bytes: Vec<u8> = Vec::new();
    status_bytes.push(STATUS_PENDING);
    assert(status_bytes@ =~= seq![0u8]);
    let mut filters: Vec<AccountFilter> = Vec::new();
    filters.push(AccountFilter { offset: 0, bytes: tag_bytes });
    filters.push(AccountFilter { offset: REQUEST_STATUS_OFFSET, bytes: status_bytes });
    filters
}

/// The request that an account found by the scan stands for. The account is
/// skipped where its data are too short for a request, where the request
/// asks for no words, and where the account's address is not the one derived
/// for the request's id under the coordinator.
pub open spec fn account_request(key: Seq<u8>, data: Seq<u8>, program_id: Seq<u8>) -> Option<RequestView> {
    if data.len() < 178 {
        None
    } else {
        let event = decoded_event(data, 8);
        if event.num_words == 0 {
            None
        } else if address_of(request_seeds(event.request_id), program_id) != Some(key) {
            None
        } else {
            Some(RequestView::Regular { event })
        }
    }
}

/// What each account of a scan stands for.
pub open spec fn account_requests(accounts: Seq<(Pubkey, Vec<u8>)>, program_id: Seq<u8>) -> Seq<Option<RequestView>> {
    Seq::new(accounts.len(), |i: int| account_request(accounts[i].0@, accounts[i].1@, program_id))
}

/// Reads the request that an account found by the scan stands for.
pub fn request_in_account(key: &Pubkey, data: &[u8], program_id: &Pubkey) -> (request: Option<FulfillmentRequest>)
    ensures
        optional_request_view(request) == account_request(key@, data@, program_id@),
{
    let account = match parse_request_account(data) {
        Some(account) => account,
        None => {
            return None;
        },
    };
    let event = account.event();
    if event.num_words == 0 {
        return None;
    }
    match find_request_address(program_id, event.request_id) {
        Some(derived) => {
            if derived.equals(key) {
                Some(FulfillmentRequest::Regular(event))
            } else {
                None
            }
        },
        None => None,
    }
}

/// Goes through the accounts that the startup scan returned, each with its
/// address, and returns the requests to hand on, in the order of the
/// accounts. A request whose id was seen before is skipped.
pub fn catch_up_pending_requests(
    accounts: &Vec<(Pubkey, Vec<u8>)>,
    program_id: &Pubkey,
    dedup: &mut Deduplicator,
    metrics: &mut Metrics,
) -> (emitted: Vec<FulfillmentRequest>)
    ensures
        (ListenerModel { seen: final(dedup)@, metrics: *final(metrics), emitted: requests_view(emitted@) })
            == dispatch_all(
            ListenerModel { seen: old(dedup)@, metrics: *old(metrics), emitted: Seq::empty() },
            account_requests(accounts@, program_id@),
        ),
{
    let mut emitted: Vec<FulfillmentRequest> = Vec::new();
    let ghost start = ListenerModel { seen: dedup@, metrics: *metrics, emitted: Seq::empty() };
    let ghost candidates = account_requests(accounts@, program_id@);
    assert(requests_view(emitted@) =~= Seq::<RequestView>::empty());
    assert(candidates.subrange(0, 0) =~= Seq::<Option<RequestView>>::empty());
    let mut i: usize = 0;
    while i < accounts.len()
        invariant
            i <= accounts@.len(),
            candidates == account_requests(accounts@, program_id@),
            (ListenerModel { seen: dedup@, metrics: *metrics, emitted: requests_view(emitted@) })
                == dispatch_all(start, candidates.subrange(0, i as int)),
        decreases accounts@.len() - i,
    {
        let found = request_in_account(&accounts[i].0, accounts[i].1.as_slice(), program_id);
        proof {
            let upto = candidates.subrange(0, i + 1);
            assert(upto.drop_last() =~= candidates.subrange(0, i as int));
            assert(upto.last() == candidates[i as int]);
        }
        match found {
            Some(request) => {
                dispatch_request(request, dedup, metrics, &mut emitted);
            },
            None => {},
        }
        i = i + 1;
    }
    assert(candidates.subrange(0, i as int) =~= candidates);
    emitted
}

/// Handing on a request a second time, or another request with the same id,
/// changes nothing: no id is handed on twice.
pub proof fn lemma_dispatch_is_idempotent(state: ListenerModel, first: RequestView, second: RequestView)
    requires
        request_id_of(first) == request_id_of(second),
    ensures
        dispatch(dispatch(state, first), second) == dispatch(state, first),
        dispatch(state, first).emitted.len() <= state.emitted.len() + 1,
{
}

/// A batch that holds the same announcement twice hands the request on
/// once: where the id was not seen before, exactly one message joins the
/// queue, and the counter of received requests goes up once.
pub proof fn lemma_same_line_twice(
    state: ListenerModel,
    line: Seq<char>,
    regular_tag: Seq<u8>,
    compressed_tag: Seq<u8>,
)
    requires
        line_request(line, regular_tag, compressed_tag) is Some,
    ensures
        ({
            let request = line_request(line, regular_tag, compressed_tag)->Some_0;
            let once = dispatch_all(state, line_requests(seq![line], regular_tag, compressed_tag));
            let twice = dispatch_all(state, line_requests(seq![line, line], regular_tag, compressed_tag));
            &&& twice == once
            &&& once == dispatch(state, request)
            &&& !state.seen.contains(request_id_of(request)) ==> twice.emitted == state.emitted.push(request)
            &&& state.seen.contains(request_id_of(request)) ==> twice.emitted == state.emitted
        }),
{
    let request = line_request(line, regular_tag, compressed_tag)->Some_0;
    let one = line_requests(seq![line], regular_tag, compressed_tag);
    let two = line_requests(seq![line, line], regular_tag, compressed_tag);
    assert(one.drop_last() =~= Seq::<Option<RequestView>>::empty());
    assert(one.last() == Some(request));
    assert(dispatch_all(state, one.drop_last()) == state);
    assert(dispatch_all(state, one) == dispatch(state, request));
    assert(two.drop_last() =~= one);
    assert(two.last() == Some(request));
    lemma_dispatch_is_idempotent(state, request, request);
}

/// Whatever a batch holds, no request is handed on whose id was seen
/// before the batch, no id is handed on twice, and every id handed on is
/// seen afterwards.
pub proof fn lemma_emitted_ids_are_new(state: ListenerModel, candidates: Seq<Option<RequestView>>)
    requires
        forall|i: int| 0 <= i < state.emitted.len() ==> state.seen.contains(
            request_id_of(#[trigger] state.emitted[i]),
        ),
        forall|i: int, j: int|
            0 <= i < j < state.emitted.len() ==> request_id_of(state.emitted[i]) != request_id_of(
                state.emitted[j],
            ),
    ensures
        ({
            let end = dispatch_all(state, candidates);
            &&& state.seen.subset_of(end.seen)
            &&& state.emitted.len() <= end.emitted.len() <= state.emitted.len() + candidates.len()
            &&& end.emitted.subrange(0, state.emitted.len() as int) == state.emitted
            &&& forall|i: int| 0 <= i < end.emitted.len() ==> end.seen.contains(request_id_of(#[trigger] end.emitted[i]))
            &&& forall|i: int|
                state.emitted.len() <= i < end.emitted.len() ==> !state.seen.contains(
                    request_id_of(#[trigger] end.emitted[i]),
                )
            &&& forall|i: int, j: int|
                0 <= i < j < end.emitted.len() ==> request_id_of(end.emitted[i]) != request_id_of(
                    end.emitted[j],
                )
        }),
    decreases candidates.len(),
{
    if candidates.len() == 0 {
        assert(state.emitted.subrange(0, state.emitted.len() as int) =~= state.emitted);
    } else {
        lemma_emitted_ids_are_new(state, candidates.drop_last());
        let before = dispatch_all(state, candidates.drop_last());
        let end = dispatch_all(state, candidates);
        assert(end.emitted.subrange(0, state.emitted.len() as int) =~= state.emitted);
    }
}

/// The shortest pause before a reconnect, in seconds.
pub const WS_RECONNECT_MIN_SECS: u64 = 1;

/// The longest pause before a reconnect, in seconds.
pub const WS_RECONNECT_MAX_SECS: u64 = 60;

/// The pause before the next reconnect.
#[derive(Clone, Copy, Debug, PartialEq, Eq, Structural)]
pub struct ReconnectBackoff {
    /// The pause in seconds.
    pub delay_secs: u64,
}

/// What the connection to the log stream did.
#[derive(Clone, Copy, Debug, PartialEq, Eq, Structural)]
pub enum ListenerEvent {
    /// The connection was made; the subscription is still to come.
    Connected,
    /// The subscription stands and the stream can be read.
    Subscribed,
    /// The connection could not be made, the subscription failed, or the
    /// stream ended.
    Disconnected,
}

/// What the listener does next.
#[derive(Clone, Copy, Debug, PartialEq, Eq, Structural)]
pub enum ListenerAction {
    /// Subscribe to the logs.
    Subscribe,
    /// Read the stream.
    ReadStream,
    /// Sleep for so many seconds, then connect again.
    ReconnectAfter { delay_secs: u64 },
}

/// Twice the pause, at most 60 s.
pub open spec fn doubled(delay_secs: u64) -> u64 {
    if delay_secs >= 30 {
        60
    } else {
        (2 * delay_secs) as u64
    }
}

/// The pause and the action after an event. A connection leaves the pause
/// as it is: the subscription may still fail. A subscription that stands
/// resets the pause to 1 s. A disconnect sleeps for the pause and doubles
/// it.
pub open spec fn react(backoff: ReconnectBackoff, event: ListenerEvent) -> (ReconnectBackoff, ListenerAction) {
    match event {
        ListenerEvent::Connected => (backoff, ListenerAction::Subscribe),
        ListenerEvent::Subscribed => (ReconnectBackoff { delay_secs: 1 }, ListenerAction::ReadStream),
        ListenerEvent::Disconnected => (
            ReconnectBackoff { delay_secs: doubled(backoff.delay_secs) },
            ListenerAction::ReconnectAfter { delay_secs: backoff.delay_secs },
        ),
    }
}

/// The pause before the reconnect that follows `k` failures in a row: 1 s,
/// then twice the one before, at most 60 s.
pub open spec fn reconnect_delay(k: nat) -> u64
    decreases k,
{
    if k == 0 {
        1
    } else {
        doubled(reconnect_delay((k - 1) as nat))
    }
}

impl ReconnectBackoff {
    /// The pause at start: 1 s.
    pub fn new() -> (backoff: ReconnectBackoff)
        ensures
            backoff.delay_secs == 1,
    {
        ReconnectBackoff { delay_secs: WS_RECONNECT_MIN_SECS }
    }
}

/// Decides what the listener does after the connection was made, the
/// subscription stands, or the connection was lost.
pub fn listen_for_events(backoff: &mut ReconnectBackoff, event: ListenerEvent) -> (action: ListenerAction)
    ensures
        (*final(backoff), action) == react(*old(backoff), event),
{
    match event {
        ListenerEvent::Connected => ListenerAction::Subscribe,
        ListenerEvent::Subscribed => {
            backoff.delay_secs = WS_RECONNECT_MIN_SECS;
            ListenerAction::ReadStream
        },
        ListenerEvent::Disconnected => {
            let delay_secs = backoff.delay_secs;
            backoff.delay_secs = if delay_secs >= 30 {
                WS_RECONNECT_MAX_SECS
            } else {
                2 * delay_secs
            };
            ListenerAction::ReconnectAfter { delay_secs }
        },
    }
}

/// The pause after a series of failed attempts. `connected[i]` tells
/// whether attempt `i` got as far as a connection before it failed, that
/// is, whether the subscription failed or the connection itself.
pub open spec fn after_failed_attempts(backoff: ReconnectBackoff, connected: Seq<bool>) -> ReconnectBackoff
    decreases connected.len(),
{
    if connected.len() == 0 {
        backoff
    } else {
        let before = after_failed_attempts(backoff, connected.drop_last());
        let at_failure = if connected.last() {
            react(before, ListenerEvent::Connected).0
        } else {
            before
        };
        react(at_failure, ListenerEvent::Disconnected).0
    }
}

/// Once a subscription stood, whatever the pause was before, the failures
/// that follow in a row pause for 1 s, 2 s, 4 s and so on, never more than
/// 60 s: the failure after `k` failed attempts sleeps for
/// `reconnect_delay(k)`. It makes no difference whether an attempt failed
/// to connect or connected and failed to subscribe. The same holds from
/// the start.
pub proof fn lemma_reconnect_delays(before: ReconnectBackoff, connected: Seq<bool>)
    ensures
        react(before, ListenerEvent::Subscribed).0 == (ReconnectBackoff { delay_secs: 1 }),
        ({
            let start = react(before, ListenerEvent::Subscribed).0;
            let now = after_failed_attempts(start, connected);
            &&& now.delay_secs == reconnect_delay(connected.len())
            &&& react(now, ListenerEvent::Disconnected).1 == (ListenerAction::ReconnectAfter {
                delay_secs: reconnect_delay(connected.len()),
            })
            &&& react(react(now, ListenerEvent::Connected).0, ListenerEvent::Disconnected).1 == (
            ListenerAction::ReconnectAfter { delay_secs: reconnect_delay(connected.len()) })
        }),
        reconnect_delay(connected.len()) <= 60,
        reconnect_delay(0) == 1,
        reconnect_delay(1) == 2,
        reconnect_delay(2) == 4,
    decreases connected.len(),
{
    reveal_with_fuel(reconnect_delay, 3);
    if connected.len() > 0 {
        lemma_reconnect_delays(before, connected.drop_last());
    }
}

} // verus!
