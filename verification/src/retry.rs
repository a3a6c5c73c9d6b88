//! Submission with a refreshed blockhash and exponential backoff.
//!
//! The caller performs each attempt (fetch a blockhash, sign, submit and
//! confirm) and reports what came of it; the state here decides what follows.

use vstd::prelude::*;
use crate::text::{is_substring, str_contains};

verus! {

/// The longest pause between two attempts, in milliseconds.
pub const MAX_RETRY_DELAY_MS: u64 = 60_000;

/// The number of attempts allowed where none is configured.
pub const DEFAULT_MAX_RETRIES: u32 = 5;

/// The first pause, in milliseconds, where none is configured.
pub const DEFAULT_INITIAL_RETRY_DELAY_MS: u64 = 500;

/// What one attempt came to.
#[derive(Clone, Copy, Debug, PartialEq, Eq, Structural)]
pub enum AttemptOutcome {
    /// The transaction was confirmed.
    Confirmed,
    /// No blockhash could be fetched.
    BlockhashFetchFailed,
    /// The submission failed; the flag tells whether the error named
    /// `BlockhashNotFound`.
    SendFailed { blockhash_not_found: bool },
}

/// What follows an attempt.
#[derive(Clone, Copy, Debug, PartialEq, Eq, Structural)]
pub enum RetryDecision {
    /// Return the signature of the confirmed transaction.
    Confirmed,
    /// Sleep for so many milliseconds, then attempt again.
    RetryAfter { delay_ms: u64 },
    /// Return the error of the blockhash fetch.
    FailBlockhashFetch,
    /// Return the error of the submission.
    FailSend,
    /// The attempts are exhausted: return "max retries exceeded".
    MaxRetriesExceeded,
}

/// Where a submission stands.
#[derive(Clone, Copy, Debug, PartialEq, Eq, Structural)]
pub struct RetryState {
    /// The number of attempts allowed.
    pub max_retries: u32,
    /// The number of attempts that ended in a retry.
    pub attempt: u32,
    /// The pause before the next retry, in milliseconds.
    pub delay_ms: u64,
}

/// The pause after a pause of `delay_ms`: twice as long, at most 60 s.
pub open spec fn next_delay(delay_ms: u64) -> u64 {
    if delay_ms >= 30_000 {
        60_000
    } else {
        (2 * delay_ms) as u64
    }
}

/// The pause before the `k`-th retry when the first pause is `initial`.
pub open spec fn delay_at(initial: u64, k: nat) -> u64
    decreases k,
{
    if k == 0 {
        initial
    } else {
        next_delay(delay_at(initial, (k - 1) as nat))
    }
}

/// The state and the decision after an attempt with the given outcome. An
/// attempt that is confirmed, or that could fetch no blockhash, ends the
/// submission, and so does a submission that failed with another error than
/// `BlockhashNotFound`. A submission that failed with `BlockhashNotFound` is
/// retried after the current pause while an attempt is left; on the last
/// attempt allowed the attempts are exhausted and the decision is "max
/// retries exceeded", without a pause. Where no attempt is allowed, "max
/// retries exceeded" is the decision whatever the outcome.
pub open spec fn decide(state: RetryState, outcome: AttemptOutcome) -> (RetryState, RetryDecision) {
    if state.attempt >= state.max_retries {
        (state, RetryDecision::MaxRetriesExceeded)
    } else {
        match outcome {
            AttemptOutcome::Confirmed => (state, RetryDecision::Confirmed),
            AttemptOutcome::BlockhashFetchFailed => (state, RetryDecision::FailBlockhashFetch),
            AttemptOutcome::SendFailed { blockhash_not_found } => {
                if !blockhash_not_found {
                    (state, RetryDecision::FailSend)
                } else if state.attempt + 1 < state.max_retries {
                    (
                        RetryState {
                            max_retries: state.max_retries,
                            attempt: (state.attempt + 1) as u32,
                            delay_ms: next_delay(state.delay_ms),
                        },
                        RetryDecision::RetryAfter { delay_ms: state.delay_ms },
                    )
                } else {
                    (state, RetryDecision::MaxRetriesExceeded)
                }
            },
        }
    }
}

/// How a run of attempts ended.
#[derive(Clone, Copy, Debug, PartialEq, Eq, Structural)]
pub enum RunEnding {
    /// The attempt with this index, counted from 0, was confirmed.
    Confirmed { attempt: u32 },
    /// The attempt with this index could fetch no blockhash.
    BlockhashFetchFailed { attempt: u32 },
    /// The submission of the attempt with this index failed with another
    /// error than `BlockhashNotFound`.
    SendFailed { attempt: u32 },
    /// The attempts are exhausted.
    MaxRetriesExceeded,
    /// The outcomes ran out before the submission ended.
    Unfinished,
}

/// How a run ends and the pauses made on the way, for the outcomes of its
/// attempts in order.
pub open spec fn run(state: RetryState, outcomes: Seq<AttemptOutcome>) -> (RunEnding, Seq<u64>)
    decreases outcomes.len(),
{
    if state.attempt >= state.max_retries {
        (RunEnding::MaxRetriesExceeded, Seq::empty())
    } else if outcomes.len() == 0 {
        (RunEnding::Unfinished, Seq::empty())
    } else {
        let (next, decision) = decide(state, outcomes[0]);
        match decision {
            RetryDecision::Confirmed => (RunEnding::Confirmed { attempt: state.attempt }, Seq::empty()),
            RetryDecision::FailBlockhashFetch => (
                RunEnding::BlockhashFetchFailed { attempt: state.attempt },
                Seq::empty(),
            ),
            RetryDecision::FailSend => (RunEnding::SendFailed { attempt: state.attempt }, Seq::empty()),
            RetryDecision::MaxRetriesExceeded => (RunEnding::MaxRetriesExceeded, Seq::empty()),
            RetryDecision::RetryAfter { delay_ms } => {
                let rest = run(next, outcomes.skip(1));
                (rest.0, seq![delay_ms] + rest.1)
            },
        }
    }
}

/// The state before the first attempt.
pub open spec fn initial_state(max_retries: u32, initial_retry_delay_ms: u64) -> RetryState {
    RetryState { max_retries, attempt: 0, delay_ms: initial_retry_delay_ms }
}

/// `n` submissions in a row that failed with `BlockhashNotFound`.
pub open spec fn blockhash_failures(n: nat) -> Seq<AttemptOutcome> {
    Seq::new(n, |i: int| AttemptOutcome::SendFailed { blockhash_not_found: true })
}

impl RetryState {
    /// The state before the first attempt.
    pub fn new(max_retries: u32, initial_retry_delay_ms: u64) -> (state: RetryState)
        ensures
            state == initial_state(max_retries, initial_retry_delay_ms),
    {
        RetryState { max_retries, attempt: 0, delay_ms: initial_retry_delay_ms }
    }

    /// Whether no attempt is left.
    pub fn exhausted(&self) -> (none_left: bool)
        ensures
            none_left == (self.attempt >= self.max_retries),
    {
        self.attempt >= self.max_retries
    }

    /// Takes the outcome of an attempt and decides what follows.
    pub fn on_attempt(&mut self, outcome: AttemptOutcome) -> (decision: RetryDecision)
        ensures
            (*final(self), decision) == decide(*old(self), outcome),
    {
        if self.attempt >= self.max_retries {
            return RetryDecision::MaxRetriesExceeded;
        }
        match outcome {
            AttemptOutcome::Confirmed => RetryDecision::Confirmed,
            AttemptOutcome::BlockhashFetchFailed => RetryDecision::FailBlockhashFetch,
            AttemptOutcome::SendFailed { blockhash_not_found } => {
                if !blockhash_not_found {
                    RetryDecision::FailSend
                } else if self.attempt < self.max_retries - 1 {
                    let delay_ms = self.delay_ms;
                    self.attempt = self.attempt + 1;
                    self.delay_ms = if delay_ms >= 30_000 {
                        MAX_RETRY_DELAY_MS
                    } else {
                        2 * delay_ms
                    };
                    RetryDecision::RetryAfter { delay_ms }
                } else {
                    RetryDecision::MaxRetriesExceeded
                }
            },
        }
    }
}

/// Tells whether the error text of a failed submission names
/// `BlockhashNotFound`.
pub fn is_blockhash_not_found(error: &str) -> (found: bool)
    ensures
        found == is_substring("BlockhashNotFound"@, error@),
{
    str_contains(error, "BlockhashNotFound")
}

/// The outcome of a failed submission with the given error text.
pub fn send_failure(error: &str) -> (outcome: AttemptOutcome)
    ensures
        outcome == (AttemptOutcome::SendFailed {
            blockhash_not_found: is_substring("BlockhashNotFound"@, error@),
        }),
{
    AttemptOutcome::SendFailed { blockhash_not_found: is_blockhash_not_found(error) }
}

/// What a run of attempts came to.
#[derive(Clone, Debug, PartialEq, Eq)]
pub struct RetryRun {
    /// How the run ended.
    pub ending: RunEnding,
    /// The pauses made, in milliseconds, in order.
    pub delays_ms: Vec<u64>,
}

/// Runs a submission over the outcomes of its attempts, given in order, and
/// tells how it ends and which pauses it makes. Outcomes after the one that
/// ends the run are not looked at.
pub fn send_with_retries(max_retries: u32, initial_retry_delay_ms: u64, outcomes: &Vec<AttemptOutcome>) -> (done: RetryRun)
    ensures
        (done.ending, done.delays_ms@) == run(initial_state(max_retries, initial_retry_delay_ms), outcomes@),
{
    let mut state = RetryState::new(max_retries, initial_retry_delay_ms);
    let mut delays_ms: Vec<u64> = Vec::new();
    let mut i: usize = 0;
    let ghost start = state;
    proof {
        assert(outcomes@.skip(0) =~= outcomes@);
        assert(delays_ms@ + run(state, outcomes@).1 =~= run(state, outcomes@).1);
    }
    loop
        invariant
            i <= outcomes@.len(),
            start == initial_state(max_retries, initial_retry_delay_ms),
            run(start, outcomes@) == ({
                let rest = run(state, outcomes@.skip(i as int));
                (rest.0, delays_ms@ + rest.1)
            }),
        decreases outcomes@.len() - i,
    {
        if state.exhausted() {
            assert(delays_ms@ + Seq::<u64>::empty() =~= delays_ms@);
            return RetryRun { ending: RunEnding::MaxRetriesExceeded, delays_ms };
        }
        if i >= outcomes.len() {
            assert(outcomes@.skip(i as int).len() == 0);
            assert(delays_ms@ + Seq::<u64>::empty() =~= delays_ms@);
            return RetryRun { ending: RunEnding::Unfinished, delays_ms };
        }
        let ghost before = state;
        let ghost tail = outcomes@.skip(i as int);
        let attempt = state.attempt;
        let outcome = outcomes[i];
        assert(tail[0] == outcome);
        match state.on_attempt(outcome) {
            RetryDecision::Confirmed => {
                assert(delays_ms@ + Seq::<u64>::empty() =~= delays_ms@);
                return RetryRun { ending: RunEnding::Confirmed { attempt }, delays_ms };
            },
            RetryDecision::FailBlockhashFetch => {
                assert(delays_ms@ + Seq::<u64>::empty() =~= delays_ms@);
                return RetryRun { ending: RunEnding::BlockhashFetchFailed { attempt }, delays_ms };
            },
            RetryDecision::FailSend => {
                assert(delays_ms@ + Seq::<u64>::empty() =~= delays_ms@);
                return RetryRun { ending: RunEnding::SendFailed { attempt }, delays_ms };
            },
            RetryDecision::MaxRetriesExceeded => {
                assert(delays_ms@ + Seq::<u64>::empty() =~= delays_ms@);
                return RetryRun { ending: RunEnding::MaxRetriesExceeded, delays_ms };
            },
            RetryDecision::RetryAfter { delay_ms } => {
                proof {
                    let rest = run(state, tail.skip(1));
                    assert(tail.skip(1) =~= outcomes@.skip(i + 1));
                    assert(delays_ms@ + (seq![delay_ms] + rest.1) =~= delays_ms@.push(delay_ms) + rest.1);
                }
                delays_ms.push(delay_ms);
                i = i + 1;
            },
        }
    }
}

/// After `k` retries the state holds `k` as the attempt and the `k`-th pause.
proof fn lemma_run_of_failures(state: RetryState, k: nat, then: Seq<AttemptOutcome>)
    requires
        state.attempt + k < state.max_retries,
    ensures
        run(state, blockhash_failures(k) + then) == ({
            let rest = run(
                RetryState {
                    max_retries: state.max_retries,
                    attempt: (state.attempt + k) as u32,
                    delay_ms: delay_at(state.delay_ms, k),
                },
                then,
            );
            (rest.0, Seq::new(k, |i: int| delay_at(state.delay_ms, i as nat)) + rest.1)
        }),
    decreases k,
{
    let all = blockhash_failures(k) + then;
    let pauses = Seq::new(k, |i: int| delay_at(state.delay_ms, i as nat));
    if k == 0 {
        assert(all =~= then);
        let rest = run(state, then);
        assert(pauses + rest.1 =~= rest.1);
    } else {
        let next = RetryState {
            max_retries: state.max_retries,
            attempt: (state.attempt + 1) as u32,
            delay_ms: next_delay(state.delay_ms),
        };
        assert(all[0] == AttemptOutcome::SendFailed { blockhash_not_found: true });
        assert(all.skip(1) =~= blockhash_failures((k - 1) as nat) + then);
        lemma_run_of_failures(next, (k - 1) as nat, then);
        lemma_delay_shift(state.delay_ms, (k - 1) as nat);
        let last = RetryState {
            max_retries: state.max_retries,
            attempt: (state.attempt + k) as u32,
            delay_ms: delay_at(state.delay_ms, k),
        };
        let rest = run(last, then);
        let inner = Seq::new((k - 1) as nat, |i: int| delay_at(next.delay_ms, i as nat));
        assert forall|i: int| 0 <= i < k - 1 implies inner[i] == pauses[i + 1] by {
            lemma_delay_shift(state.delay_ms, i as nat);
        }
        assert(seq![state.delay_ms] + (inner + rest.1) =~= pauses + rest.1);
    }
}

/// Doubling first and then `k` times is doubling `k + 1` times.
proof fn lemma_delay_shift(initial: u64, k: nat)
    ensures
        delay_at(next_delay(initial), k) == delay_at(initial, k + 1),
    decreases k,
{
    reveal_with_fuel(delay_at, 2);
    if k > 0 {
        lemma_delay_shift(initial, (k - 1) as nat);
        assert(delay_at(initial, k + 1) == next_delay(delay_at(initial, k)));
    }
}

/// A submission that meets `BlockhashNotFound` on every attempt allowed
/// ends with "max retries exceeded", however many attempts are allowed. It
/// makes as many attempts as are allowed and pauses between them: the `k`-th
/// pause is the `k`-th delay.
pub proof fn lemma_persistent_blockhash_failure(max_retries: u32, initial_retry_delay_ms: u64)
    ensures
        ({
            let done = run(
                initial_state(max_retries, initial_retry_delay_ms),
                blockhash_failures(max_retries as nat),
            );
            &&& done.0 == RunEnding::MaxRetriesExceeded
            &&& max_retries > 0 ==> done.1 == Seq::new(
                (max_retries - 1) as nat,
                |i: int| delay_at(initial_retry_delay_ms, i as nat),
            )
            &&& max_retries == 0 ==> done.1 == Seq::<u64>::empty()
        }),
{
    let start = initial_state(max_retries, initial_retry_delay_ms);
    if max_retries > 0 {
        let k = (max_retries - 1) as nat;
        let last = seq![AttemptOutcome::SendFailed { blockhash_not_found: true }];
        assert(blockhash_failures(max_retries as nat) =~= blockhash_failures(k) + last);
        lemma_run_of_failures(start, k, last);
        let state = RetryState {
            max_retries,
            attempt: (max_retries - 1) as u32,
            delay_ms: delay_at(initial_retry_delay_ms, k),
        };
        assert(last[0] == AttemptOutcome::SendFailed { blockhash_not_found: true });
        assert(run(state, last).0 == RunEnding::MaxRetriesExceeded);
        assert(run(state, last).1.len() == 0);
        let pauses = Seq::new(k, |i: int| delay_at(initial_retry_delay_ms, i as nat));
        assert(pauses + run(state, last).1 =~= pauses);
    }
}

/// A submission that meets `BlockhashNotFound` on all attempts allowed but
/// the last, and is confirmed on the last, returns the signature of that
/// last attempt. Before the `k`-th retry it pauses for the `k`-th delay: the
/// first delay is the configured one, and each later one is twice the one
/// before, at most 60 s.
pub proof fn lemma_success_on_last_attempt(max_retries: u32, initial_retry_delay_ms: u64)
    requires
        max_retries > 0,
    ensures
        ({
            let done = run(
                initial_state(max_retries, initial_retry_delay_ms),
                blockhash_failures((max_retries - 1) as nat) + seq![AttemptOutcome::Confirmed],
            );
            &&& done.0 == (RunEnding::Confirmed { attempt: (max_retries - 1) as u32 })
            &&& done.1 == Seq::new(
                (max_retries - 1) as nat,
                |i: int| delay_at(initial_retry_delay_ms, i as nat),
            )
        }),
{
    let start = initial_state(max_retries, initial_retry_delay_ms);
    let k = (max_retries - 1) as nat;
    let last = seq![AttemptOutcome::Confirmed];
    lemma_run_of_failures(start, k, last);
    let state = RetryState {
        max_retries,
        attempt: (max_retries - 1) as u32,
        delay_ms: delay_at(initial_retry_delay_ms, k),
    };
    assert(last[0] == AttemptOutcome::Confirmed);
    let pauses = Seq::new(k, |i: int| delay_at(initial_retry_delay_ms, i as nat));
    assert(pauses + run(state, last).1 =~= pauses);
}

/// With the usual first pause of 500 ms the pauses are 500, 1000, 2000 and
/// 4000 ms, and no pause is ever longer than 60 s once it was doubled.
pub proof fn lemma_delays(initial: u64, k: nat)
    ensures
        delay_at(500, 0) == 500,
        delay_at(500, 1) == 1000,
        delay_at(500, 2) == 2000,
        delay_at(500, 3) == 4000,
        k > 0 ==> delay_at(initial, k) <= 60_000,
        initial <= 60_000 ==> delay_at(initial, k) <= 60_000,
    decreases k,
{
    reveal_with_fuel(delay_at, 4);
    if k > 0 {
        lemma_delays(initial, (k - 1) as nat);
    }
}

} // verus!
