//! Counters that the oracle keeps about its own work.

use vstd::prelude::*;

verus! {

/// The oracle's counters. Each counter wraps around at `u64::MAX`.
#[derive(Clone, Copy, Debug, PartialEq, Eq)]
pub struct Metrics {
    /// Regular requests received.
    pub requests_received: u64,
    /// Regular requests fulfilled on chain.
    pub requests_fulfilled: u64,
    /// Fulfillments that failed for good.
    pub requests_failed: u64,
    /// Sum of the latencies of regular fulfillments, in milliseconds.
    pub fulfillment_latency_sum_ms: u64,
    /// Number of latencies in that sum.
    pub fulfillment_count: u64,
    /// Compressed requests received.
    pub compressed_requests_received: u64,
    /// Compressed requests fulfilled.
    pub compressed_requests_fulfilled: u64,
    /// Sum of the latencies of compressed fulfillments, in milliseconds.
    pub compressed_fulfillment_latency_sum_ms: u64,
    /// Number of latencies in that sum.
    pub compressed_fulfillment_count: u64,
}

/// The counters at start: all zero.
pub open spec fn zeroed() -> Metrics {
    Metrics {
        requests_received: 0,
        requests_fulfilled: 0,
        requests_failed: 0,
        fulfillment_latency_sum_ms: 0,
        fulfillment_count: 0,
        compressed_requests_received: 0,
        compressed_requests_fulfilled: 0,
        compressed_fulfillment_latency_sum_ms: 0,
        compressed_fulfillment_count: 0,
    }
}

/// `total / count` rounded down, and 0 where nothing was counted.
pub open spec fn average(total: u64, count: u64) -> int {
    if count == 0 {
        0
    } else {
        total as int / count as int
    }
}

impl Metrics {
    /// The counters after one more regular fulfillment of the given latency.
    pub open spec fn with_fulfillment(self, latency_ms: u64) -> Metrics {
        Metrics {
            requests_fulfilled: self.requests_fulfilled.wrapping_add(1),
            fulfillment_latency_sum_ms: self.fulfillment_latency_sum_ms.wrapping_add(latency_ms),
            fulfillment_count: self.fulfillment_count.wrapping_add(1),
            ..self
        }
    }

    /// The counters after one more failure.
    pub open spec fn with_failure(self) -> Metrics {
        Metrics { requests_failed: self.requests_failed.wrapping_add(1), ..self }
    }

    /// The counters after one more regular request.
    pub open spec fn with_request(self) -> Metrics {
        Metrics { requests_received: self.requests_received.wrapping_add(1), ..self }
    }

    /// The counters after one more compressed request.
    pub open spec fn with_compressed_request(self) -> Metrics {
        Metrics {
            compressed_requests_received: self.compressed_requests_received.wrapping_add(1),
            ..self
        }
    }

    /// The counters after one more compressed fulfillment of the given latency.
    pub open spec fn with_compressed_fulfillment(self, latency_ms: u64) -> Metrics {
        Metrics {
            compressed_requests_fulfilled: self.compressed_requests_fulfilled.wrapping_add(1),
            compressed_fulfillment_latency_sum_ms: self.compressed_fulfillment_latency_sum_ms.wrapping_add(
                latency_ms,
            ),
            compressed_fulfillment_count: self.compressed_fulfillment_count.wrapping_add(1),
            ..self
        }
    }

    /// Counters that are all zero.
    pub fn new() -> (metrics: Metrics)
        ensures
            metrics == zeroed(),
    {
        Metrics {
            requests_received: 0,
            requests_fulfilled: 0,
            requests_failed: 0,
            fulfillment_latency_sum_ms: 0,
            fulfillment_count: 0,
            compressed_requests_received: 0,
            compressed_requests_fulfilled: 0,
            compressed_fulfillment_latency_sum_ms: 0,
            compressed_fulfillment_count: 0,
        }
    }

    /// Records a regular fulfillment and its latency.
    pub fn record_fulfillment(&mut self, latency_ms: u64)
        ensures
            *final(self) == old(self).with_fulfillment(latency_ms),
    {
        self.requests_fulfilled = self.requests_fulfilled.wrapping_add(1);
        self.fulfillment_latency_sum_ms = self.fulfillment_latency_sum_ms.wrapping_add(latency_ms);
        self.fulfillment_count = self.fulfillment_count.wrapping_add(1);
    }

    /// Records a fulfillment that failed.
    pub fn record_failure(&mut self)
        ensures
            *final(self) == old(self).with_failure(),
    {
        self.requests_failed = self.requests_failed.wrapping_add(1);
    }

    /// Records a regular request.
    pub fn record_request(&mut self)
        ensures
            *final(self) == old(self).with_request(),
    {
        self.requests_received = self.requests_received.wrapping_add(1);
    }

    /// Records a compressed request.
    pub fn record_compressed_request(&mut self)
        ensures
            *final(self) == old(self).with_compressed_request(),
    {
        self.compressed_requests_received = self.compressed_requests_received.wrapping_add(1);
    }

    /// Records a compressed fulfillment and its latency.
    pub fn record_compressed_fulfillment(&mut self, latency_ms: u64)
        ensures
            *final(self) == old(self).with_compressed_fulfillment(latency_ms),
    {
        self.compressed_requests_fulfilled = self.compressed_requests_fulfilled.wrapping_add(1);
        self.compressed_fulfillment_latency_sum_ms =
            self.compressed_fulfillment_latency_sum_ms.wrapping_add(latency_ms);
        self.compressed_fulfillment_count = self.compressed_fulfillment_count.wrapping_add(1);
    }

    /// The mean latency of regular fulfillments in milliseconds, 0 where there
    /// was none.
    pub fn avg_latency_ms(&self) -> (avg: u64)
        ensures
            avg == average(self.fulfillment_latency_sum_ms, self.fulfillment_count),
    {
        if self.fulfillment_count == 0 {
            return 0;
        }
        self.fulfillment_latency_sum_ms / self.fulfillment_count
    }

    /// The mean latency of compressed fulfillments in milliseconds, 0 where
    /// there was none.
    pub fn avg_compressed_latency_ms(&self) -> (avg: u64)
        ensures
            avg == average(self.compressed_fulfillment_latency_sum_ms, self.compressed_fulfillment_count),
    {
        if self.compressed_fulfillment_count == 0 {
            return 0;
        }
        self.compressed_fulfillment_latency_sum_ms / self.compressed_fulfillment_count
    }
}

/// The counters as the metrics endpoint reports them, with the number of
/// fulfillments in flight.
#[derive(Clone, Copy, Debug, PartialEq, Eq, Structural)]
pub struct MetricsReport {
    pub requests_received: u64,
    pub requests_fulfilled: u64,
    pub requests_failed: u64,
    pub avg_fulfillment_latency_ms: u64,
    pub total_fulfillment_latency_ms: u64,
    pub fulfillment_count: u64,
    pub compressed_requests_received: u64,
    pub compressed_requests_fulfilled: u64,
    pub avg_compressed_latency_ms: u64,
    pub compressed_fulfillment_count: u64,
    pub pending_fulfillments: u64,
}

impl Metrics {
    /// The report for the counters and a number of pending fulfillments.
    pub open spec fn report_of(self, pending_fulfillments: u64) -> MetricsReport {
        MetricsReport {
            requests_received: self.requests_received,
            requests_fulfilled: self.requests_fulfilled,
            requests_failed: self.requests_failed,
            avg_fulfillment_latency_ms: average(self.fulfillment_latency_sum_ms, self.fulfillment_count) as u64,
            total_fulfillment_latency_ms: self.fulfillment_latency_sum_ms,
            fulfillment_count: self.fulfillment_count,
            compressed_requests_received: self.compressed_requests_received,
            compressed_requests_fulfilled: self.compressed_requests_fulfilled,
            avg_compressed_latency_ms: average(
                self.compressed_fulfillment_latency_sum_ms,
                self.compressed_fulfillment_count,
            ) as u64,
            compressed_fulfillment_count: self.compressed_fulfillment_count,
            pending_fulfillments,
        }
    }

    /// Gathers what the metrics endpoint reports.
    pub fn report(&self, pending_fulfillments: u64) -> (report: MetricsReport)
        ensures
            report == self.report_of(pending_fulfillments),
    {
        MetricsReport {
            requests_received: self.requests_received,
            requests_fulfilled: self.requests_fulfilled,
            requests_failed: self.requests_failed,
            avg_fulfillment_latency_ms: self.avg_latency_ms(),
            total_fulfillment_latency_ms: self.fulfillment_latency_sum_ms,
            fulfillment_count: self.fulfillment_count,
            compressed_requests_received: self.compressed_requests_received,
            compressed_requests_fulfilled: self.compressed_requests_fulfilled,
            avg_compressed_latency_ms: self.avg_compressed_latency_ms(),
            compressed_fulfillment_count: self.compressed_fulfillment_count,
            pending_fulfillments,
        }
    }
}

impl Default for Metrics {
    fn default() -> (metrics: Metrics)
        ensures
            metrics == zeroed(),
    {
        Metrics::new()
    }
}

/// While a counter is below `u64::MAX`, recording adds exactly one to it and
/// leaves every other counter as it was.
pub proof fn lemma_counters_count(m: Metrics, latency_ms: u64)
    ensures
        m.requests_failed < u64::MAX ==> m.with_failure().requests_failed == m.requests_failed + 1,
        m.requests_received < u64::MAX ==> m.with_request().requests_received == m.requests_received + 1,
        m.requests_fulfilled < u64::MAX ==> m.with_fulfillment(latency_ms).requests_fulfilled
            == m.requests_fulfilled + 1,
        m.fulfillment_latency_sum_ms + latency_ms <= u64::MAX ==> m.with_fulfillment(
            latency_ms,
        ).fulfillment_latency_sum_ms == m.fulfillment_latency_sum_ms + latency_ms,
        m.with_fulfillment(latency_ms).requests_failed == m.requests_failed,
        m.with_request().requests_failed == m.requests_failed,
{
}

} // verus!
