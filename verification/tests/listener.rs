use base64::Engine;
use vrf_oracle::address::find_request_address;
use vrf_oracle::decoder::RandomnessRequestedEvent;
use vrf_oracle::discriminator::{
    account_discriminator, compressed_request_event_discriminator, event_discriminator,
    request_event_discriminator,
};
use vrf_oracle::listener::{
    catch_up_pending_requests, listen_for_events, pending_request_filters, process_log_lines,
    request_in_account, request_in_data, request_in_line, CompressedFulfillmentRequest, Deduplicator,
    FulfillmentRequest, ListenerAction, ListenerEvent, ReconnectBackoff,
};
use vrf_oracle::metrics::Metrics;
use vrf_oracle::pubkey::Pubkey;
use vrf_oracle::state::RandomnessRequest;

fn program() -> Pubkey {
    Pubkey::new([0x50; 32])
}

fn event(id: u64) -> RandomnessRequestedEvent {
    RandomnessRequestedEvent {
        request_id: id,
        subscription_id: 1,
        consumer_program: Pubkey::new([0xC0; 32]),
        requester: Pubkey::new([0xAB; 32]),
        num_words: 3,
        seed: [0x11; 32],
        request_slot: 100,
        callback_compute_limit: 200_000,
    }
}

fn account(id: u64, num_words: u32) -> RandomnessRequest {
    RandomnessRequest {
        request_id: id,
        subscription_id: 1,
        consumer_program: Pubkey::new([0xC0; 32]),
        requester: Pubkey::new([0xAB; 32]),
        num_words,
        seed: [0x11; 32],
        request_slot: 100,
        callback_compute_limit: 200_000,
        status: 0,
        randomness: [0; 32],
        fulfilled_slot: 0,
        bump: 255,
    }
}

fn regular() -> [u8; 8] {
    request_event_discriminator()
}

fn compressed() -> [u8; 8] {
    compressed_request_event_discriminator()
}

fn line_for(tag: &[u8; 8], e: &RandomnessRequestedEvent) -> String {
    let mut data = tag.to_vec();
    data.extend_from_slice(&e.to_bytes());
    format!("Program data: {}", base64::engine::general_purpose::STANDARD.encode(data))
}

fn scan(lines: &[String], dedup: &mut Deduplicator, metrics: &mut Metrics) -> Vec<FulfillmentRequest> {
    process_log_lines(lines, &regular(), &compressed(), dedup, metrics)
}

#[test]
fn log_line_with_event_is_emitted() {
    let mut dedup = Deduplicator::new();
    let mut metrics = Metrics::new();
    let lines = vec![
        "Program log: Instruction: RequestRandomWords".to_string(),
        line_for(&regular(), &event(42)),
        "Program consumed 5000 compute units".to_string(),
    ];
    let out = scan(&lines, &mut dedup, &mut metrics);
    assert_eq!(out, vec![FulfillmentRequest::Regular(event(42))]);
    assert_eq!(metrics.requests_received, 1);
    assert!(dedup.contains(42));
    assert!(!dedup.contains(41));
}

#[test]
fn same_event_twice_is_emitted_once() {
    let mut dedup = Deduplicator::new();
    let mut metrics = Metrics::new();
    let lines = vec![line_for(&regular(), &event(9)), line_for(&regular(), &event(9))];
    let out = scan(&lines, &mut dedup, &mut metrics);
    assert_eq!(out.len(), 1);
    assert_eq!(metrics.requests_received, 1);
    let again = scan(&lines, &mut dedup, &mut metrics);
    assert!(again.is_empty());
    assert_eq!(metrics.requests_received, 1);
}

#[test]
fn events_come_out_in_line_order() {
    let mut dedup = Deduplicator::new();
    let mut metrics = Metrics::new();
    let lines = vec![
        line_for(&regular(), &event(3)),
        line_for(&regular(), &event(1)),
        line_for(&regular(), &event(3)),
        line_for(&regular(), &event(2)),
    ];
    let out = scan(&lines, &mut dedup, &mut metrics);
    assert_eq!(
        out,
        vec![
            FulfillmentRequest::Regular(event(3)),
            FulfillmentRequest::Regular(event(1)),
            FulfillmentRequest::Regular(event(2))
        ]
    );
    assert_eq!(metrics.requests_received, 3);
}

#[test]
fn compressed_event_is_emitted_without_address() {
    let mut dedup = Deduplicator::new();
    let mut metrics = Metrics::new();
    let out = scan(&[line_for(&compressed(), &event(5))], &mut dedup, &mut metrics);
    assert_eq!(
        out,
        vec![FulfillmentRequest::Compressed(CompressedFulfillmentRequest {
            event: event(5),
            address: [0; 32]
        })]
    );
    assert_eq!(metrics.compressed_requests_received, 1);
    assert_eq!(metrics.requests_received, 0);
}

#[test]
fn lines_that_announce_nothing_are_skipped() {
    let tags = (regular(), compressed());
    let good = line_for(&regular(), &event(1));
    assert!(request_in_line(&good, &tags.0, &tags.1).is_some());
    assert!(request_in_line(&good["Program ".len()..], &tags.0, &tags.1).is_none());
    assert!(request_in_line(&good.replace("Program data: ", "Program data:"), &tags.0, &tags.1).is_none());
    assert!(request_in_line(&good.replace("Program data: ", "program data: "), &tags.0, &tags.1).is_none());
    assert!(request_in_line("Program data: ***", &tags.0, &tags.1).is_none());
    assert!(request_in_line("Program data: ", &tags.0, &tags.1).is_none());
    assert!(request_in_line("", &tags.0, &tags.1).is_none());
    let other = line_for(&event_discriminator("RandomWordsFulfilled"), &event(1));
    assert!(request_in_line(&other, &tags.0, &tags.1).is_none());
}

#[test]
fn base64_text_is_trimmed_before_decoding() {
    let good = line_for(&regular(), &event(1));
    let padded = format!("{}  \n", good.replace("Program data: ", "Program data:   "));
    assert_eq!(
        request_in_line(&padded, &regular(), &compressed()),
        Some(FulfillmentRequest::Regular(event(1)))
    );
}

#[test]
fn short_payloads_are_skipped() {
    let mut data = regular().to_vec();
    data.extend_from_slice(&event(1).to_bytes());
    assert!(request_in_data(&data, &regular(), &compressed()).is_some());
    assert!(request_in_data(&data[..135], &regular(), &compressed()).is_none());
    assert!(request_in_data(&data[..8], &regular(), &compressed()).is_none());
    assert!(request_in_data(&data[..7], &regular(), &compressed()).is_none());
    assert!(request_in_data(&[], &regular(), &compressed()).is_none());
}

#[test]
fn catch_up_emits_pending_request() {
    let key = find_request_address(&program(), 7).unwrap();
    let accounts = vec![(key, account(7, 1).to_account_data())];
    let mut dedup = Deduplicator::new();
    let mut metrics = Metrics::new();
    let out = catch_up_pending_requests(&accounts, &program(), &mut dedup, &mut metrics);
    assert_eq!(out, vec![FulfillmentRequest::Regular(account(7, 1).event())]);
    assert_eq!(metrics.requests_received, 1);
}

#[test]
fn catch_up_then_live_stream_emits_once() {
    let key = find_request_address(&program(), 9).unwrap();
    let accounts = vec![(key, account(9, 3).to_account_data())];
    let mut dedup = Deduplicator::new();
    let mut metrics = Metrics::new();
    let first = catch_up_pending_requests(&accounts, &program(), &mut dedup, &mut metrics);
    assert_eq!(first.len(), 1);
    let second = scan(&[line_for(&regular(), &event(9))], &mut dedup, &mut metrics);
    assert!(second.is_empty());
    assert_eq!(metrics.requests_received, 1);
}

#[test]
fn catch_up_skips_stale_and_empty_requests() {
    let key = find_request_address(&program(), 7).unwrap();
    let other = find_request_address(&program(), 8).unwrap();
    let data = account(7, 1).to_account_data();
    assert!(request_in_account(&key, &data, &program()).is_some());
    assert!(request_in_account(&other, &data, &program()).is_none());
    assert!(request_in_account(&key, &data, &Pubkey::new([0x51; 32])).is_none());
    assert!(request_in_account(&key, &account(7, 0).to_account_data(), &program()).is_none());
    assert!(request_in_account(&key, &data[..177], &program()).is_none());
    let accounts = vec![
        (other, data.clone()),
        (key, account(7, 0).to_account_data()),
        (key, data[..100].to_vec()),
        (key, data.clone()),
        (key, data),
    ];
    let mut dedup = Deduplicator::new();
    let mut metrics = Metrics::new();
    let out = catch_up_pending_requests(&accounts, &program(), &mut dedup, &mut metrics);
    assert_eq!(out.len(), 1);
    assert_eq!(metrics.requests_received, 1);
}

#[test]
fn scan_filters_match_tag_and_pending_status() {
    let filters = pending_request_filters();
    assert_eq!(filters.len(), 2);
    assert_eq!(filters[0].offset, 0);
    assert_eq!(filters[0].bytes, account_discriminator("RandomnessRequest").to_vec());
    assert_eq!(filters[1].offset, 136);
    assert_eq!(filters[1].bytes, vec![0u8]);
    let data = account(7, 1).to_account_data();
    assert_eq!(&data[filters[0].offset..8], &filters[0].bytes[..]);
    assert_eq!(data[filters[1].offset], 0);
}

#[test]
fn dedup_admits_each_id_once() {
    let mut dedup = Deduplicator::new();
    assert!(dedup.insert(1));
    assert!(!dedup.insert(1));
    assert!(dedup.insert(2));
    assert!(dedup.insert(u64::MAX));
    assert!(!dedup.insert(u64::MAX));
}

#[test]
fn reconnect_delays_double_and_reset() {
    let mut backoff = ReconnectBackoff::new();
    assert_eq!(listen_for_events(&mut backoff, ListenerEvent::Connected), ListenerAction::Subscribe);
    assert_eq!(
        listen_for_events(&mut backoff, ListenerEvent::Disconnected),
        ListenerAction::ReconnectAfter { delay_secs: 1 }
    );
    assert_eq!(listen_for_events(&mut backoff, ListenerEvent::Connected), ListenerAction::Subscribe);
    assert_eq!(
        listen_for_events(&mut backoff, ListenerEvent::Disconnected),
        ListenerAction::ReconnectAfter { delay_secs: 2 }
    );
    assert_eq!(listen_for_events(&mut backoff, ListenerEvent::Connected), ListenerAction::Subscribe);
    assert_eq!(listen_for_events(&mut backoff, ListenerEvent::Subscribed), ListenerAction::ReadStream);
    assert_eq!(
        listen_for_events(&mut backoff, ListenerEvent::Disconnected),
        ListenerAction::ReconnectAfter { delay_secs: 1 }
    );
}

#[test]
fn connection_alone_does_not_reset_the_pause() {
    let mut backoff = ReconnectBackoff::new();
    let mut seen = Vec::new();
    for connects in [false, true, false, true] {
        if connects {
            listen_for_events(&mut backoff, ListenerEvent::Connected);
        }
        match listen_for_events(&mut backoff, ListenerEvent::Disconnected) {
            ListenerAction::ReconnectAfter { delay_secs } => seen.push(delay_secs),
            other => panic!("unexpected action {:?}", other),
        }
    }
    assert_eq!(seen, vec![1, 2, 4, 8]);
    assert_eq!(backoff.delay_secs, 16);
    listen_for_events(&mut backoff, ListenerEvent::Subscribed);
    assert_eq!(backoff.delay_secs, 1);
}

#[test]
fn reconnect_delay_is_capped_at_sixty_seconds() {
    let mut backoff = ReconnectBackoff::new();
    let mut seen = Vec::new();
    for _ in 0..9 {
        match listen_for_events(&mut backoff, ListenerEvent::Disconnected) {
            ListenerAction::ReconnectAfter { delay_secs } => seen.push(delay_secs),
            other => panic!("unexpected action {:?}", other),
        }
    }
    assert_eq!(seen, vec![1, 2, 4, 8, 16, 32, 60, 60, 60]);
}
