use vrf_oracle::decoder::RandomnessRequestedEvent;
use vrf_oracle::dispatcher::{
    run_fulfiller, FulfillerAction, FulfillerEvent, FulfillerState, TaskReport, TaskResult,
};
use vrf_oracle::listener::{CompressedFulfillmentRequest, FulfillmentRequest};
use vrf_oracle::metrics::Metrics;
use vrf_oracle::pubkey::Pubkey;

fn request(id: u64) -> FulfillmentRequest {
    FulfillmentRequest::Regular(RandomnessRequestedEvent {
        request_id: id,
        subscription_id: 1,
        consumer_program: Pubkey::new([1; 32]),
        requester: Pubkey::new([2; 32]),
        num_words: 1,
        seed: [3; 32],
        request_slot: 10,
        callback_compute_limit: 0,
    })
}

fn done(id: u64, latency_ms: u64) -> FulfillerEvent<'static> {
    FulfillerEvent::Finished(TaskReport {
        request_id: id,
        compressed: false,
        result: TaskResult::Fulfilled { latency_ms },
    })
}

#[test]
fn never_more_tasks_than_permits() {
    let mut state = FulfillerState::new(4);
    let mut metrics = Metrics::new();
    let mut spawned = 0;
    for id in 0..100u64 {
        match run_fulfiller(&mut state, &mut metrics, FulfillerEvent::Received(request(id))) {
            FulfillerAction::Spawn(r) => {
                assert_eq!(r, request(id));
                spawned += 1;
            }
            FulfillerAction::Wait => {}
            other => panic!("unexpected action {:?}", other),
        }
        assert!(state.running() <= 4);
    }
    assert_eq!(spawned, 4);
    assert_eq!(state.running(), 4);
    assert_eq!(state.waiting(), 96);
    assert_eq!(state.pending(), 100);
    assert_eq!(state.capacity(), 4);
}

#[test]
fn finished_task_hands_its_permit_to_the_oldest_waiting_request() {
    let mut state = FulfillerState::new(1);
    let mut metrics = Metrics::new();
    assert_eq!(
        run_fulfiller(&mut state, &mut metrics, FulfillerEvent::Received(request(1))),
        FulfillerAction::Spawn(request(1))
    );
    assert_eq!(
        run_fulfiller(&mut state, &mut metrics, FulfillerEvent::Received(request(2))),
        FulfillerAction::Wait
    );
    assert_eq!(
        run_fulfiller(&mut state, &mut metrics, FulfillerEvent::Received(request(3))),
        FulfillerAction::Wait
    );
    assert_eq!(run_fulfiller(&mut state, &mut metrics, done(1, 10)), FulfillerAction::Spawn(request(2)));
    assert_eq!(state.running(), 1);
    assert_eq!(run_fulfiller(&mut state, &mut metrics, done(2, 20)), FulfillerAction::Spawn(request(3)));
    assert_eq!(run_fulfiller(&mut state, &mut metrics, done(3, 30)), FulfillerAction::Idle);
    assert_eq!(state.running(), 0);
    assert_eq!(state.pending(), 0);
    assert_eq!(metrics.requests_fulfilled, 3);
    assert_eq!(metrics.fulfillment_latency_sum_ms, 60);
    assert_eq!(metrics.avg_latency_ms(), 20);
}

#[test]
fn happy_path_updates_fulfilled_and_latency() {
    let mut state = FulfillerState::new(4);
    let mut metrics = Metrics::new();
    run_fulfiller(&mut state, &mut metrics, FulfillerEvent::Received(request(42)));
    assert_eq!(state.pending(), 1);
    assert_eq!(run_fulfiller(&mut state, &mut metrics, done(42, 123)), FulfillerAction::Idle);
    assert_eq!(metrics.requests_fulfilled, 1);
    assert_eq!(metrics.fulfillment_count, 1);
    assert_eq!(metrics.fulfillment_latency_sum_ms, 123);
    assert_eq!(metrics.requests_failed, 0);
    assert_eq!(state.pending(), 0);
}

#[test]
fn non_retryable_error_is_not_counted_as_failure() {
    let mut state = FulfillerState::new(4);
    let mut metrics = Metrics::new();
    run_fulfiller(&mut state, &mut metrics, FulfillerEvent::Received(request(1)));
    let report = TaskReport {
        request_id: 1,
        compressed: false,
        result: TaskResult::Failed { error: "custom program error: 0x1779" },
    };
    assert_eq!(run_fulfiller(&mut state, &mut metrics, FulfillerEvent::Finished(report)), FulfillerAction::Idle);
    assert_eq!(metrics.requests_failed, 0);
    assert_eq!(state.running(), 0);
}

#[test]
fn unknown_error_and_missing_indexer_count_as_failures() {
    let mut state = FulfillerState::new(4);
    let mut metrics = Metrics::new();
    run_fulfiller(&mut state, &mut metrics, FulfillerEvent::Received(request(1)));
    run_fulfiller(&mut state, &mut metrics, FulfillerEvent::Received(request(2)));
    let failed = TaskReport {
        request_id: 1,
        compressed: false,
        result: TaskResult::Failed { error: "connection reset" },
    };
    run_fulfiller(&mut state, &mut metrics, FulfillerEvent::Finished(failed));
    assert_eq!(metrics.requests_failed, 1);
    let missing = TaskReport { request_id: 2, compressed: true, result: TaskResult::IndexerMissing };
    run_fulfiller(&mut state, &mut metrics, FulfillerEvent::Finished(missing));
    assert_eq!(metrics.requests_failed, 2);
    assert_eq!(metrics.requests_fulfilled, 0);
}

#[test]
fn compressed_fulfillment_is_counted_apart() {
    let mut state = FulfillerState::new(2);
    let mut metrics = Metrics::new();
    let compressed = match request(5) {
        FulfillmentRequest::Regular(event) => {
            FulfillmentRequest::Compressed(CompressedFulfillmentRequest { event, address: [9; 32] })
        }
        other => other,
    };
    assert_eq!(
        run_fulfiller(&mut state, &mut metrics, FulfillerEvent::Received(compressed)),
        FulfillerAction::Spawn(compressed)
    );
    let report =
        TaskReport { request_id: 5, compressed: true, result: TaskResult::Fulfilled { latency_ms: 7 } };
    run_fulfiller(&mut state, &mut metrics, FulfillerEvent::Finished(report));
    assert_eq!(metrics.compressed_requests_fulfilled, 1);
    assert_eq!(metrics.compressed_fulfillment_latency_sum_ms, 7);
    assert_eq!(metrics.requests_fulfilled, 0);
}

#[test]
fn zero_permits_start_nothing_and_closed_queue_stops() {
    let mut state = FulfillerState::new(0);
    let mut metrics = Metrics::new();
    assert_eq!(
        run_fulfiller(&mut state, &mut metrics, FulfillerEvent::Received(request(1))),
        FulfillerAction::Wait
    );
    assert_eq!(run_fulfiller(&mut state, &mut metrics, done(9, 1)), FulfillerAction::Idle);
    assert_eq!(state.running(), 0);
    assert_eq!(state.waiting(), 1);
    assert_eq!(run_fulfiller(&mut state, &mut metrics, FulfillerEvent::QueueClosed), FulfillerAction::Stop);
}
