//! Token bucket rate limiting combined with a concurrency cap.
//!
//! The limiter here is the decision core: it accounts for tokens, refill
//! times and concurrency permits as plain state, and each operation is a
//! verified state transition. The caller owns the clock and the waiting:
//! when `try_acquire` answers with a wait time, the caller sleeps that long
//! and asks again; permits are taken with `try_acquire_permit` and given
//! back with `release_permit` when the guarded work is done.

use vstd::prelude::*;

verus! {

/// Outcome of one token bucket attempt: either a token was taken, or the
/// caller must wait the given number of milliseconds before asking again.
#[derive(Clone, Copy, Debug, PartialEq, Eq, Structural)]
pub enum AcquireOutcome {
    Granted,
    WaitMs(u64),
}

/// A token bucket with a concurrency cap.
///
/// `capacity` tokens become available every `refill_time_ms` milliseconds;
/// each admitted request consumes one token. Independently,
/// `available_permits` bounds how many requests may be in flight at once;
/// a permit is returned when the request finishes, a token is not.
pub struct RateLimiter {
    /// Tokens granted per refill period.
    pub capacity: u64,
    /// Tokens currently available.
    pub tokens: u64,
    /// Length of the refill period in milliseconds.
    pub refill_time_ms: u64,
    /// Timestamp, in the caller's clock, of the start of the current period.
    pub last_refill_ms: u64,
    /// Concurrency permits currently free.
    pub available_permits: u64,
    /// Concurrency permits handed out and not yet returned.
    pub outstanding_permits: u64,
}

impl RateLimiter {
    /// Structural soundness: a positive refill period, and permit counts
    /// that cannot overflow when a permit is returned.
    pub open spec fn wf(self) -> bool {
        &&& self.refill_time_ms >= 1
        &&& self.available_permits + self.outstanding_permits <= u64::MAX
    }

    /// The effective concurrency ceiling: permits free plus permits out.
    pub open spec fn permit_cap(self) -> int {
        self.available_permits + self.outstanding_permits
    }

    /// The state after catching up on refills at time `now_ms`: when at
    /// least one whole period has elapsed the bucket is filled back to
    /// `capacity` and the period start advances by the whole periods
    /// elapsed, keeping the fractional progress toward the next period.
    pub open spec fn spec_refill(self, now_ms: u64) -> RateLimiter
        recommends
            self.wf(),
            now_ms >= self.last_refill_ms,
    {
        if now_ms - self.last_refill_ms >= self.refill_time_ms {
            RateLimiter {
                tokens: self.capacity,
                last_refill_ms: (now_ms - ((now_ms - self.last_refill_ms) as int
                    % self.refill_time_ms as int)) as u64,
                ..self
            }
        } else {
            self
        }
    }

    /// The limiter a fresh construction yields: a full bucket and all
    /// permits free.
    pub open spec fn spec_new(
        requests_per_period: u64,
        period_ms: u64,
        max_concurrent: u64,
    ) -> RateLimiter {
        RateLimiter {
            capacity: requests_per_period,
            tokens: requests_per_period,
            refill_time_ms: period_ms,
            last_refill_ms: 0,
            available_permits: max_concurrent,
            outstanding_permits: 0,
        }
    }

    /// Creates a limiter that grants `requests_per_period` tokens every
    /// `period_ms` milliseconds and at most `max_concurrent` simultaneous
    /// permits. The bucket starts full.
    pub fn new(requests_per_period: u64, period_ms: u64, max_concurrent: u64) -> (r: RateLimiter)
        requires
            period_ms >= 1,
        ensures
            r == RateLimiter::spec_new(requests_per_period, period_ms, max_concurrent),
            r.wf(),
            r.tokens <= r.capacity,
    {
        RateLimiter {
            capacity: requests_per_period,
            tokens: requests_per_period,
            refill_time_ms: period_ms,
            last_refill_ms: 0,
            available_permits: max_concurrent,
            outstanding_permits: 0,
        }
    }

    /// One token bucket attempt at time `now_ms`: refills first, then either
    /// takes a token or reports how long to wait until the period ends.
    /// Tokens never exceed `capacity` afterwards, and the period start never
    /// moves backwards nor past `now_ms`.
    pub fn try_acquire(&mut self, now_ms: u64) -> (r: AcquireOutcome)
        requires
            old(self).wf(),
            now_ms >= old(self).last_refill_ms,
        ensures
            final(self).wf(),
            ({
                let m = old(self).spec_refill(now_ms);
                match r {
                    AcquireOutcome::Granted => m.tokens > 0 && *final(self) == (RateLimiter {
                        tokens: (m.tokens - 1) as u64,
                        ..m
                    }),
                    AcquireOutcome::WaitMs(w) => m.tokens == 0 && *final(self) == m && w
                        == m.refill_time_ms - (now_ms - m.last_refill_ms),
                }
            }),
            final(self).tokens <= vstd::math::max(
                old(self).tokens as int,
                old(self).capacity as int,
            ),
            old(self).tokens <= old(self).capacity ==> final(self).tokens <= final(self).capacity,
            final(self).last_refill_ms >= old(self).last_refill_ms,
            final(self).last_refill_ms <= now_ms,
            final(self).capacity == old(self).capacity,
            final(self).refill_time_ms == old(self).refill_time_ms,
            final(self).available_permits == old(self).available_permits,
            final(self).outstanding_permits == old(self).outstanding_permits,
            *final(self) == spec_step(*old(self), LimiterOp::TokenAttempt(now_ms)),
    {
        let elapsed = now_ms - self.last_refill_ms;
        if elapsed >= self.refill_time_ms {
            self.tokens = self.capacity;
            self.last_refill_ms = now_ms - elapsed % self.refill_time_ms;
        }
        if self.tokens > 0 {
            self.tokens = self.tokens - 1;
            AcquireOutcome::Granted
        } else {
            let since = now_ms - self.last_refill_ms;
            AcquireOutcome::WaitMs(self.refill_time_ms - since)
        }
    }

    /// Takes one concurrency permit when one is free; answers whether it
    /// did. The ceiling `permit_cap` never moves.
    pub fn try_acquire_permit(&mut self) -> (granted: bool)
        requires
            old(self).wf(),
        ensures
            final(self).wf(),
            granted == (old(self).available_permits > 0),
            granted ==> *final(self) == (RateLimiter {
                available_permits: (old(self).available_permits - 1) as u64,
                outstanding_permits: (old(self).outstanding_permits + 1) as u64,
                ..*old(self)
            }),
            !granted ==> *final(self) == *old(self),
            final(self).permit_cap() == old(self).permit_cap(),
            final(self).outstanding_permits <= final(self).permit_cap(),
            *final(self) == spec_step(*old(self), LimiterOp::TakePermit),
    {
        if self.available_permits > 0 {
            self.available_permits = self.available_permits - 1;
            self.outstanding_permits = self.outstanding_permits + 1;
            true
        } else {
            false
        }
    }

    /// Returns one concurrency permit. The ceiling `permit_cap` never moves.
    pub fn release_permit(&mut self)
        requires
            old(self).wf(),
            old(self).outstanding_permits > 0,
        ensures
            final(self).wf(),
            *final(self) == (RateLimiter {
                available_permits: (old(self).available_permits + 1) as u64,
                outstanding_permits: (old(self).outstanding_permits - 1) as u64,
                ..*old(self)
            }),
            final(self).permit_cap() == old(self).permit_cap(),
            *final(self) == spec_step(*old(self), LimiterOp::ReturnPermit),
    {
        self.available_permits = self.available_permits + 1;
        self.outstanding_permits = self.outstanding_permits - 1;
    }

    /// Applies a new configuration: tokens are only ever topped up, never
    /// reduced — a bucket already holding at least the new rate keeps its
    /// tokens, a lower one gains half the rate increase (at least one
    /// token), capped at the new rate. The period start resets to
    /// `now_ms`, and concurrency permits are only ever added. Capacity and
    /// period length are those given at construction and do not change.
    pub fn update_config(
        &mut self,
        requests_per_period: u64,
        period_ms: u64,
        max_concurrent: u64,
        now_ms: u64,
    )
        requires
            old(self).wf(),
            max_concurrent + old(self).outstanding_permits <= u64::MAX,
        ensures
            final(self).wf(),
            final(self).tokens >= old(self).tokens,
            ({
                let added: int = if requests_per_period > old(self).capacity {
                    vstd::math::max(
                        1,
                        (requests_per_period - old(self).capacity) as int / 2,
                    )
                } else {
                    0
                };
                final(self).tokens == if old(self).tokens >= requests_per_period {
                    old(self).tokens as int
                } else {
                    vstd::math::min(old(self).tokens + added, requests_per_period as int)
                }
            }),
            final(self).last_refill_ms == now_ms,
            final(self).capacity == old(self).capacity,
            final(self).refill_time_ms == old(self).refill_time_ms,
            final(self).available_permits == vstd::math::max(
                old(self).available_permits as int,
                max_concurrent as int,
            ),
            final(self).outstanding_permits == old(self).outstanding_permits,
    {
        let _ = period_ms;
        let added: u64 = if requests_per_period > self.capacity {
            let half = (requests_per_period - self.capacity) / 2;
            if half == 0 {
                1
            } else {
                half
            }
        } else {
            0
        };
        if self.tokens < requests_per_period {
            if added >= requests_per_period - self.tokens {
                self.tokens = requests_per_period;
            } else {
                self.tokens = self.tokens + added;
            }
        }
        self.last_refill_ms = now_ms;
        if max_concurrent > self.available_permits {
            self.available_permits = max_concurrent;
        }
    }
}

/// One abstract limiter event: a token bucket attempt at a given time, the
/// taking of a concurrency permit, or the return of one.
pub enum LimiterOp {
    TokenAttempt(u64),
    TakePermit,
    ReturnPermit,
}

/// The state transition one event causes; it mirrors exactly what
/// `try_acquire`, `try_acquire_permit` and `release_permit` do.
pub open spec fn spec_step(s: RateLimiter, op: LimiterOp) -> RateLimiter {
    match op {
        LimiterOp::TokenAttempt(now_ms) => {
            let m = s.spec_refill(now_ms);
            if m.tokens > 0 {
                RateLimiter { tokens: (m.tokens - 1) as u64, ..m }
            } else {
                m
            }
        },
        LimiterOp::TakePermit => {
            if s.available_permits > 0 {
                RateLimiter {
                    available_permits: (s.available_permits - 1) as u64,
                    outstanding_permits: (s.outstanding_permits + 1) as u64,
                    ..s
                }
            } else {
                s
            }
        },
        LimiterOp::ReturnPermit => {
            if s.outstanding_permits > 0 {
                RateLimiter {
                    available_permits: (s.available_permits + 1) as u64,
                    outstanding_permits: (s.outstanding_permits - 1) as u64,
                    ..s
                }
            } else {
                s
            }
        },
    }
}

/// The state after a whole sequence of events, first event first.
pub open spec fn spec_run(s: RateLimiter, ops: Seq<LimiterOp>) -> RateLimiter
    decreases ops.len(),
{
    if ops.len() == 0 {
        s
    } else {
        spec_run(spec_step(s, ops.first()), ops.drop_first())
    }
}

/// A sequence of events is admissible when every token attempt carries a
/// clock reading not earlier than the period start it observes: the
/// caller's clock does not run backwards.
pub open spec fn spec_ops_admissible(s: RateLimiter, ops: Seq<LimiterOp>) -> bool
    decreases ops.len(),
{
    if ops.len() == 0 {
        true
    } else {
        (match ops.first() {
            LimiterOp::TokenAttempt(now_ms) => now_ms >= s.last_refill_ms,
            _ => true,
        }) && spec_ops_admissible(spec_step(s, ops.first()), ops.drop_first())
    }
}

/// Token bucket safety: along any admissible run of events starting from a
/// well-formed state whose token count is within capacity, the token count
/// stays within capacity (and, being unsigned, never goes negative), and
/// the capacity itself never changes.
pub proof fn lemma_token_count_bounded(s: RateLimiter, ops: Seq<LimiterOp>)
    requires
        s.wf(),
        s.tokens <= s.capacity,
        spec_ops_admissible(s, ops),
    ensures
        spec_run(s, ops).wf(),
        spec_run(s, ops).tokens <= spec_run(s, ops).capacity,
        spec_run(s, ops).capacity == s.capacity,
    decreases ops.len(),
{
    if ops.len() > 0 {
        let s1 = spec_step(s, ops.first());
        assert(s1.wf() && s1.tokens <= s1.capacity && s1.capacity == s.capacity);
        lemma_token_count_bounded(s1, ops.drop_first());
    }
}

/// Concurrency safety: no event sequence changes the permit ceiling, and
/// the number of outstanding permits never exceeds it.
pub proof fn lemma_outstanding_permits_bounded(s: RateLimiter, ops: Seq<LimiterOp>)
    requires
        s.wf(),
    ensures
        spec_run(s, ops).wf(),
        spec_run(s, ops).permit_cap() == s.permit_cap(),
        spec_run(s, ops).outstanding_permits <= s.permit_cap(),
    decreases ops.len(),
{
    if ops.len() > 0 {
        let s1 = spec_step(s, ops.first());
        assert(s1.wf() && s1.permit_cap() == s.permit_cap());
        lemma_outstanding_permits_bounded(s1, ops.drop_first());
    }
}

/// Monotonic refill: for any sequence of acquisitions separated by clock
/// advances, a limiter built by `new` keeps its available token count
/// between zero and `requests_per_period` at every observation point.
pub proof fn lemma_bucket_monotonic_refill(
    requests_per_period: u64,
    period_ms: u64,
    max_concurrent: u64,
    ops: Seq<LimiterOp>,
)
    requires
        period_ms >= 1,
        spec_ops_admissible(
            RateLimiter::spec_new(requests_per_period, period_ms, max_concurrent),
            ops,
        ),
    ensures
        spec_run(RateLimiter::spec_new(requests_per_period, period_ms, max_concurrent), ops).tokens
            <= requests_per_period,
{
    lemma_token_count_bounded(
        RateLimiter::spec_new(requests_per_period, period_ms, max_concurrent),
        ops,
    );
}

/// Concurrency cap: for any sequence of permit acquisitions and releases
/// (and token attempts), a limiter built by `new` never has more than
/// `max_concurrent` permits outstanding.
pub proof fn lemma_concurrency_cap(
    requests_per_period: u64,
    period_ms: u64,
    max_concurrent: u64,
    ops: Seq<LimiterOp>,
)
    requires
        period_ms >= 1,
    ensures
        spec_run(
            RateLimiter::spec_new(requests_per_period, period_ms, max_concurrent),
            ops,
        ).outstanding_permits <= max_concurrent,
{
    lemma_outstanding_permits_bounded(
        RateLimiter::spec_new(requests_per_period, period_ms, max_concurrent),
        ops,
    );
}

/// A limiter sized for the Microsoft federation endpoint: 60 requests per
/// minute, at most 10 in flight.
pub fn create_microsoft_api_limiter() -> (r: RateLimiter)
    ensures
        r == RateLimiter::spec_new(60, 60000, 10),
        r.wf(),
{
    RateLimiter::new(60, 60000, 10)
}

/// A limiter sized for DNS probing: 100 queries per minute, at most 20 in
/// flight.
pub fn create_dns_query_limiter() -> (r: RateLimiter)
    ensures
        r == RateLimiter::spec_new(100, 60000, 20),
        r.wf(),
{
    RateLimiter::new(100, 60000, 20)
}

} // verus!
