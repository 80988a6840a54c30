//! Exponential backoff for retrying fallible operations.
//!
//! The retry decision logic lives here as a verified state machine: after
//! each failed attempt, `RetryState::on_failure` either stops (the attempt
//! budget is spent, or the error is not worth retrying) or names the delay
//! to sleep before the next attempt. The asynchronous driver that actually
//! runs the operation and sleeps sits outside and only follows these
//! decisions.

use vstd::prelude::*;
use vstd::math::min;

verus! {

/// Parameters of the backoff strategy. The growth factor is kept in
/// hundredths: 200 means each delay doubles, 150 means it grows by half.
pub struct RetryConfig {
    /// Total number of attempts allowed, the first call included.
    pub max_retries: u32,
    /// Delay before the second attempt, in milliseconds.
    pub initial_backoff_ms: u64,
    /// Growth factor of the delay, in hundredths.
    pub backoff_factor_percent: u64,
    /// Ceiling on every delay, in milliseconds.
    pub max_backoff_ms: u64,
    /// Whether each applied delay is scattered within ±10% of its base.
    pub add_jitter: bool,
}

impl Default for RetryConfig {
    /// Three attempts, 100 ms initial delay, doubling growth, a 10 s
    /// ceiling, and jitter on.
    fn default() -> (c: RetryConfig)
        ensures
            c.max_retries == 3,
            c.initial_backoff_ms == 100,
            c.backoff_factor_percent == 200,
            c.max_backoff_ms == 10000,
            c.add_jitter,
    {
        RetryConfig {
            max_retries: 3,
            initial_backoff_ms: 100,
            backoff_factor_percent: 200,
            max_backoff_ms: 10000,
            add_jitter: true,
        }
    }
}

/// A base delay scattered by the jitter percentage `p`, capped at `cap`.
pub open spec fn spec_jittered(base: int, p: int, cap: int) -> int {
    min(base * p / 100, cap)
}

/// The un-jittered delay that follows `cur`: grown by the factor, then
/// capped at the ceiling.
pub open spec fn spec_next_backoff(cur: int, factor_percent: int, max_backoff: int) -> int {
    min(cur * factor_percent / 100, max_backoff)
}

/// Relies on `rand::thread_rng` and `rand::Rng::gen_range`: a value drawn
/// uniformly from the given non-empty inclusive range, so always within
/// its bounds.
#[verifier::external_body]
fn jitter_percent() -> (p: u64)
    ensures
        90 <= p <= 110,
{
    rand::Rng::gen_range(&mut rand::thread_rng(), 90..=110u64)
}

/// Computes the un-jittered successor of the delay `cur` under `config`:
/// exactly `min(cur * factor / 100, max_backoff_ms)`.
pub fn next_backoff(cur: u64, config: &RetryConfig) -> (r: u64)
    ensures
        r == spec_next_backoff(
            cur as int,
            config.backoff_factor_percent as int,
            config.max_backoff_ms as int,
        ),
{
    proof {
        vstd::arithmetic::mul::lemma_mul_upper_bound(
            cur as int,
            u64::MAX as int,
            config.backoff_factor_percent as int,
            u64::MAX as int,
        );
    }
    let scaled: u128 = (cur as u128) * (config.backoff_factor_percent as u128) / 100;
    if scaled > config.max_backoff_ms as u128 {
        config.max_backoff_ms
    } else {
        scaled as u64
    }
}

/// What the state machine decides after a failed attempt: give up and
/// surface the error, or sleep the given number of milliseconds and try
/// again.
#[derive(Clone, Copy, Debug, PartialEq, Eq, Structural)]
pub enum RetryDecision {
    Stop,
    RetryAfter(u64),
}

/// Whether a failure of attempt number `attempt + 1` ends the run: the
/// attempt budget is spent or the error is not retriable.
pub open spec fn spec_stops(attempt: nat, retriable: bool, config: RetryConfig) -> bool {
    attempt + 1 >= config.max_retries || !retriable
}

/// How many times an operation is invoked in total when every failure
/// reports `retriable`, counting from a state that has already made
/// `attempt` calls: one more call, plus the rest unless that call's
/// failure stops the run. (On success the run ends early; this counts the
/// worst case, an operation that always fails.)
pub open spec fn spec_calls_until_stop(attempt: nat, retriable: bool, config: RetryConfig) -> nat
    decreases config.max_retries - attempt,
{
    if spec_stops(attempt, retriable, config) {
        1
    } else {
        1 + spec_calls_until_stop(attempt + 1, retriable, config)
    }
}

/// Progress of one retried operation: how many attempts have failed so
/// far, and the current un-jittered delay base.
pub struct RetryState {
    /// Failed attempts so far.
    pub attempt: u32,
    /// Base delay for the next sleep, in milliseconds.
    pub backoff_ms: u64,
}

impl RetryState {
    /// The state before any attempt has failed.
    pub fn start(config: &RetryConfig) -> (s: RetryState)
        ensures
            s.attempt == 0,
            s.backoff_ms == config.initial_backoff_ms,
    {
        RetryState { attempt: 0, backoff_ms: config.initial_backoff_ms }
    }

    /// Decides what follows a failed attempt. Counts the failure; stops
    /// exactly when the budget is spent or the error is not retriable.
    /// Otherwise the applied delay is the current base capped at the
    /// ceiling — scattered within ±10% first when jitter is on — and the
    /// base grows by the factor for the next round.
    pub fn on_failure(&mut self, retriable: bool, config: &RetryConfig) -> (r: RetryDecision)
        requires
            old(self).attempt < u32::MAX,
        ensures
            final(self).attempt == old(self).attempt + 1,
            r == RetryDecision::Stop <==> spec_stops(old(self).attempt as nat, retriable, *config),
            r == RetryDecision::Stop ==> final(self).backoff_ms == old(self).backoff_ms,
            (match r {
                RetryDecision::Stop => true,
                RetryDecision::RetryAfter(d) => {
                    &&& (if config.add_jitter {
                        exists|p: int|
                            90 <= p <= 110 && d == #[trigger] spec_jittered(
                                old(self).backoff_ms as int,
                                p,
                                config.max_backoff_ms as int,
                            )
                    } else {
                        d == min(old(self).backoff_ms as int, config.max_backoff_ms as int)
                    })
                    &&& final(self).backoff_ms == spec_next_backoff(
                        old(self).backoff_ms as int,
                        config.backoff_factor_percent as int,
                        config.max_backoff_ms as int,
                    )
                },
            }),
    {
        self.attempt = self.attempt + 1;
        if self.attempt >= config.max_retries || !retriable {
            return RetryDecision::Stop;
        }
        let delay: u64 = if config.add_jitter {
            let p = jitter_percent();
            proof {
                vstd::arithmetic::mul::lemma_mul_upper_bound(
                    self.backoff_ms as int,
                    u64::MAX as int,
                    p as int,
                    110,
                );
            }
            let base: u128 = (self.backoff_ms as u128) * (p as u128) / 100;
            let d: u64 = if base > config.max_backoff_ms as u128 {
                config.max_backoff_ms
            } else {
                base as u64
            };
            proof {
                assert(d == spec_jittered(
                    old(self).backoff_ms as int,
                    p as int,
                    config.max_backoff_ms as int,
                ));
            }
            d
        } else {
            if self.backoff_ms > config.max_backoff_ms {
                config.max_backoff_ms
            } else {
                self.backoff_ms
            }
        };
        self.backoff_ms = next_backoff(self.backoff_ms, config);
        RetryDecision::RetryAfter(delay)
    }
}

/// An operation that always fails with a retriable error is invoked
/// exactly `max_retries` times, never more: from a fresh state, the total
/// number of calls until the machine stops equals the attempt budget.
pub proof fn lemma_max_attempts_respected(config: RetryConfig)
    requires
        config.max_retries >= 1,
    ensures
        spec_calls_until_stop(0, true, config) == config.max_retries,
{
    lemma_calls_from(0, config);
}

/// From `attempt` failed calls, an always-retriable failure run makes the
/// remaining `max_retries - attempt` calls.
proof fn lemma_calls_from(attempt: nat, config: RetryConfig)
    requires
        attempt < config.max_retries,
    ensures
        spec_calls_until_stop(attempt, true, config) == config.max_retries - attempt,
    decreases config.max_retries - attempt,
{
    if !spec_stops(attempt, true, config) {
        lemma_calls_from(attempt + 1, config);
    }
}

/// An operation that fails with a non-retriable error is invoked exactly
/// once, whatever the attempt budget says.
pub proof fn lemma_non_retriable_short_circuit(config: RetryConfig)
    ensures
        spec_calls_until_stop(0, false, config) == 1,
{
}

} // verus!
