//! The worker pool of the fulfiller: how many fulfillments run at once, which
//! request starts next, and what a finished one does to the counters.
//!
//! The caller takes requests from the queue, runs the tasks and reports
//! back; the state here decides. A request that finds every permit taken
//! is held until a task finishes, and the caller takes no further request
//! from the queue while one is held.

use vstd::prelude::*;
use crate::fulfiller::{after_error, handle_fulfillment_error};
use crate::listener::{requests_view, FulfillmentRequest, RequestView};
use crate::metrics::Metrics;

verus! {

/// The number of permits where none is configured.
pub const DEFAULT_FULFILLMENT_CONCURRENCY: usize = 4;

/// The number of requests that the queue between listener and fulfiller
/// holds.
pub const QUEUE_CAPACITY: usize = 256;

/// How a fulfillment task ended.
#[derive(Clone, Copy, Debug, PartialEq, Eq)]
pub enum TaskResult<'a> {
    /// The transaction was confirmed after so many milliseconds.
    Fulfilled { latency_ms: u64 },
    /// The task failed with this error text.
    Failed { error: &'a str },
    /// The request is compressed and no indexer is configured.
    IndexerMissing,
}

/// The report of a finished task.
#[derive(Clone, Copy, Debug, PartialEq, Eq)]
pub struct TaskReport<'a> {
    /// The id of the request.
    pub request_id: u64,
    /// Whether the request was a compressed one.
    pub compressed: bool,
    /// How the task ended.
    pub result: TaskResult<'a>,
}

/// What happened at the fulfiller.
#[derive(Clone, Copy, Debug, PartialEq, Eq)]
pub enum FulfillerEvent<'a> {
    /// A request was taken from the queue.
    Received(FulfillmentRequest),
    /// A task finished.
    Finished(TaskReport<'a>),
    /// The queue was closed.
    QueueClosed,
}

/// What the fulfiller does next.
#[derive(Clone, Copy, Debug, PartialEq, Eq)]
pub enum FulfillerAction {
    /// Start a task for this request.
    Spawn(FulfillmentRequest),
    /// Every permit is taken: wait for a task to finish.
    Wait,
    /// Nothing to start: go on taking requests from the queue.
    Idle,
    /// Stop taking requests.
    Stop,
}

/// How a task ended, as plain values.
pub ghost enum ResultModel {
    Fulfilled { latency_ms: u64 },
    Failed { error: Seq<char> },
    IndexerMissing,
}

/// What happened at the fulfiller, as plain values.
pub ghost enum EventModel {
    Received { request: RequestView },
    Finished { request_id: u64, compressed: bool, result: ResultModel },
    QueueClosed,
}

/// What the fulfiller does next, as plain values.
pub ghost enum ActionModel {
    Spawn { request: RequestView },
    Wait,
    Idle,
    Stop,
}

impl<'a> View for TaskResult<'a> {
    type V = ResultModel;

    open spec fn view(&self) -> ResultModel {
        match self {
            TaskResult::Fulfilled { latency_ms } => ResultModel::Fulfilled { latency_ms: *latency_ms },
            TaskResult::Failed { error } => ResultModel::Failed { error: error@ },
            TaskResult::IndexerMissing => ResultModel::IndexerMissing,
        }
    }
}

impl<'a> View for FulfillerEvent<'a> {
    type V = EventModel;

    open spec fn view(&self) -> EventModel {
        match self {
            FulfillerEvent::Received(request) => EventModel::Received { request: request@ },
            FulfillerEvent::Finished(report) => EventModel::Finished {
                request_id: report.request_id,
                compressed: report.compressed,
                result: report.result@,
            },
            FulfillerEvent::QueueClosed => EventModel::QueueClosed,
        }
    }
}

impl View for FulfillerAction {
    type V = ActionModel;

    open spec fn view(&self) -> ActionModel {
        match self {
            FulfillerAction::Spawn(request) => ActionModel::Spawn { request: request@ },
            FulfillerAction::Wait => ActionModel::Wait,
            FulfillerAction::Idle => ActionModel::Idle,
            FulfillerAction::Stop => ActionModel::Stop,
        }
    }
}

/// The state of the pool, as plain values.
pub ghost struct PoolModel {
    /// The number of permits.
    pub capacity: nat,
    /// The number of tasks that run.
    pub running: nat,
    /// The number of requests taken from the queue and not finished; it
    /// wraps around like the counters.
    pub pending: u64,
    /// The requests that wait for a permit, oldest first.
    pub backlog: Seq<RequestView>,
}

/// At most `capacity` tasks run, and a request waits only while all permits
/// are taken.
pub open spec fn pool_wf(pool: PoolModel) -> bool {
    &&& pool.running <= pool.capacity
    &&& pool.backlog.len() > 0 ==> pool.running == pool.capacity
}

/// The counters after a task ended: a fulfillment is recorded with its
/// latency under its kind; an error is counted unless it is non-retryable;
/// a missing indexer counts as a failure.
pub open spec fn after_task(metrics: Metrics, compressed: bool, result: ResultModel) -> Metrics {
    match result {
        ResultModel::Fulfilled { latency_ms } => if compressed {
            metrics.with_compressed_fulfillment(latency_ms)
        } else {
            metrics.with_fulfillment(latency_ms)
        },
        ResultModel::Failed { error } => after_error(metrics, error),
        ResultModel::IndexerMissing => metrics.with_failure(),
    }
}

/// The pool, the counters and the action after an event.
///
/// A request taken from the queue is counted as pending; it starts at once
/// where a permit is free and waits otherwise. A finished task is accounted
/// for, is no longer pending, and hands its permit to the request that
/// waited longest, if one waits. A closed queue stops the fulfiller.
pub open spec fn step(pool: PoolModel, metrics: Metrics, event: EventModel) -> (PoolModel, Metrics, ActionModel) {
    match event {
        EventModel::Received { request } => {
            let counted = PoolModel { pending: pool.pending.wrapping_add(1), ..pool };
            if pool.running < pool.capacity {
                (PoolModel { running: pool.running + 1, ..counted }, metrics, ActionModel::Spawn { request })
            } else {
                (PoolModel { backlog: pool.backlog.push(request), ..counted }, metrics, ActionModel::Wait)
            }
        },
        EventModel::Finished { compressed, result, .. } => {
            let counted = PoolModel { pending: pool.pending.wrapping_sub(1), ..pool };
            let accounted = after_task(metrics, compressed, result);
            if pool.running == 0 {
                (counted, accounted, ActionModel::Idle)
            } else if pool.backlog.len() > 0 {
                (
                    PoolModel { backlog: pool.backlog.skip(1), ..counted },
                    accounted,
                    ActionModel::Spawn { request: pool.backlog[0] },
                )
            } else {
                (PoolModel { running: (pool.running - 1) as nat, ..counted }, accounted, ActionModel::Idle)
            }
        },
        EventModel::QueueClosed => (pool, metrics, ActionModel::Stop),
    }
}

/// The pool and the counters after a series of events.
pub open spec fn run_all(pool: PoolModel, metrics: Metrics, events: Seq<EventModel>) -> (PoolModel, Metrics)
    decreases events.len(),
{
    if events.len() == 0 {
        (pool, metrics)
    } else {
        let before = run_all(pool, metrics, events.drop_last());
        let after = step(before.0, before.1, events.last());
        (after.0, after.1)
    }
}

/// The number of tasks that a series of events starts.
pub open spec fn spawned(pool: PoolModel, metrics: Metrics, events: Seq<EventModel>) -> nat
    decreases events.len(),
{
    if events.len() == 0 {
        0
    } else {
        let before = run_all(pool, metrics, events.drop_last());
        let earlier = spawned(pool, metrics, events.drop_last());
        if step(before.0, before.1, events.last()).2 is Spawn {
            earlier + 1
        } else {
            earlier
        }
    }
}

/// The number of tasks that a series of events reports as finished while a
/// task ran.
pub open spec fn finished(pool: PoolModel, metrics: Metrics, events: Seq<EventModel>) -> nat
    decreases events.len(),
{
    if events.len() == 0 {
        0
    } else {
        let before = run_all(pool, metrics, events.drop_last());
        let earlier = finished(pool, metrics, events.drop_last());
        if events.last() is Finished && before.0.running > 0 {
            earlier + 1
        } else {
            earlier
        }
    }
}

/// The worker pool of the fulfiller.
pub struct FulfillerState {
    capacity: usize,
    running: usize,
    pending: u64,
    backlog: Vec<FulfillmentRequest>,
}

impl View for FulfillerState {
    type V = PoolModel;

    closed spec fn view(&self) -> PoolModel {
        PoolModel {
            capacity: self.capacity as nat,
            running: self.running as nat,
            pending: self.pending,
            backlog: requests_view(self.backlog@),
        }
    }
}

impl FulfillerState {
    /// The pool is in order: see [`pool_wf`].
    pub open spec fn wf(&self) -> bool {
        pool_wf(self@)
    }

    /// An idle pool with `fulfillment_concurrency` permits.
    pub fn new(fulfillment_concurrency: usize) -> (state: FulfillerState)
        ensures
            state.wf(),
            state@ == (PoolModel {
                capacity: fulfillment_concurrency as nat,
                running: 0,
                pending: 0,
                backlog: Seq::empty(),
            }),
    {
        let state = FulfillerState {
            capacity: fulfillment_concurrency,
            running: 0,
            pending: 0,
            backlog: Vec::new(),
        };
        assert(state@.backlog =~= Seq::<RequestView>::empty());
        state
    }

    /// The number of tasks that run; never more than the permits while
    /// the pool is in order.
    pub fn running(&self) -> (n: usize)
        ensures
            n == self@.running,
            self.wf() ==> n <= self@.capacity,
    {
        self.running
    }

    /// The number of permits.
    pub fn capacity(&self) -> (n: usize)
        ensures
            n == self@.capacity,
    {
        self.capacity
    }

    /// The number of requests taken from the queue and not finished.
    pub fn pending(&self) -> (n: u64)
        ensures
            n == self@.pending,
    {
        self.pending
    }

    /// The number of requests that wait for a permit.
    pub fn waiting(&self) -> (n: usize)
        ensures
            n == self@.backlog.len(),
    {
        self.backlog.len()
    }
}

/// Takes an event of the fulfiller, updates the pool and the counters, and
/// decides what the fulfiller does next. A pool that is in order stays in
/// order.
pub fn run_fulfiller(state: &mut FulfillerState, metrics: &mut Metrics, event: FulfillerEvent<'_>) -> (action: FulfillerAction)
    ensures
        (final(state)@, *final(metrics), action@) == step(old(state)@, *old(metrics), event@),
        old(state).wf() ==> final(state).wf(),
{
    match event {
        FulfillerEvent::Received(request) => {
            state.pending = state.pending.wrapping_add(1);
            if state.running < state.capacity {
                state.running = state.running + 1;
                FulfillerAction::Spawn(request)
            } else {
                state.backlog.push(request);
                assert(state@.backlog =~= old(state)@.backlog.push(request@));
                FulfillerAction::Wait
            }
        },
        FulfillerEvent::Finished(report) => {
            match report.result {
                TaskResult::Fulfilled { latency_ms } => {
                    if report.compressed {
                        metrics.record_compressed_fulfillment(latency_ms);
                    } else {
                        metrics.record_fulfillment(latency_ms);
                    }
                },
                TaskResult::Failed { error } => {
                    handle_fulfillment_error(report.request_id, error, metrics);
                },
                TaskResult::IndexerMissing => {
                    metrics.record_failure();
                },
            }
            state.pending = state.pending.wrapping_sub(1);
            if state.running == 0 {
                FulfillerAction::Idle
            } else if state.backlog.len() > 0 {
                let request = state.backlog.remove(0);
                assert(state@.backlog =~= old(state)@.backlog.skip(1));
                FulfillerAction::Spawn(request)
            } else {
                state.running = state.running - 1;
                FulfillerAction::Idle
            }
        },
        FulfillerEvent::QueueClosed => FulfillerAction::Stop,
    }
}

/// Whatever the events, at most as many tasks run as there are permits: a
/// pool that is in order stays in order, and the tasks started and not
/// finished are the tasks that run.
pub proof fn lemma_concurrency_bound(pool: PoolModel, metrics: Metrics, events: Seq<EventModel>)
    requires
        pool_wf(pool),
    ensures
        ({
            let end = run_all(pool, metrics, events).0;
            &&& pool_wf(end)
            &&& end.running <= end.capacity
            &&& end.capacity == pool.capacity
            &&& end.running == pool.running + spawned(pool, metrics, events) - finished(
                pool,
                metrics,
                events,
            )
        }),
    decreases events.len(),
{
    if events.len() > 0 {
        lemma_concurrency_bound(pool, metrics, events.drop_last());
    }
}

} // verus!
