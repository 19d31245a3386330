//! A circuit breaker that protects an external service: after a number of
//! consecutive failures it stops letting requests through, and after a
//! cool-down it lets a probe through again.
//!
//! Time is a reading of a monotonic clock in milliseconds, handed in by
//! the caller at each operation that depends on it.

use vstd::prelude::*;

verus! {

/// Where the breaker stands.
#[derive(Debug, Clone, Copy, PartialEq, Eq, Structural)]
pub enum CircuitState {
    /// Requests pass.
    Closed,
    /// Requests are refused until the cool-down has elapsed.
    Open,
    /// The cool-down has elapsed; requests pass until the next outcome.
    HalfOpen,
}

/// One operation on a breaker: asking for permission at a time, recording a
/// success, or recording a failure at a time.
pub enum BreakerEvent {
    Allow(u64),
    Success,
    Failure(u64),
}

/// Simple circuit breaker to protect the external logo service.
#[derive(Debug, Clone, Copy, PartialEq, Eq, Structural)]
pub struct CircuitBreaker {
    /// Consecutive failures after which the breaker opens.
    pub failure_threshold: u32,
    /// Cool-down, in milliseconds, before an open breaker admits a probe.
    pub timeout_ms: u64,
    /// Failures since the last success (saturating).
    pub failure_count: u32,
    /// Clock reading at the most recent failure.
    pub last_failure_time: Option<u64>,
    /// Current state.
    pub state: CircuitState,
}

/// Time elapsed from `earlier` to `now`, zero when the clock reads earlier
/// than `earlier` (as `Instant::elapsed` saturates).
pub open spec fn elapsed_since(earlier: u64, now: u64) -> nat {
    if now >= earlier {
        (now - earlier) as nat
    } else {
        0
    }
}

impl CircuitBreaker {
    /// The breaker's own consistency: an open breaker has seen a failure,
    /// and a closed one that has seen a failure since its last success is
    /// still below the threshold.
    pub open spec fn wf(self) -> bool {
        &&& self.state is Open ==> self.last_failure_time is Some
        &&& (self.state is Closed && self.last_failure_time is Some) ==> self.failure_count
            < self.failure_threshold
    }

    /// The state after asking for permission at time `now`, and the answer.
    pub open spec fn spec_allow(self, now: u64) -> (CircuitBreaker, bool) {
        match self.state {
            CircuitState::Closed => (self, true),
            CircuitState::HalfOpen => (self, true),
            CircuitState::Open => match self.last_failure_time {
                Some(last) => if elapsed_since(last, now) > self.timeout_ms {
                    (CircuitBreaker { state: CircuitState::HalfOpen, ..self }, true)
                } else {
                    (self, false)
                },
                None => (self, false),
            },
        }
    }

    /// The state after a success.
    pub open spec fn spec_record_success(self) -> CircuitBreaker {
        CircuitBreaker {
            failure_count: 0,
            state: CircuitState::Closed,
            last_failure_time: None,
            ..self
        }
    }

    /// The failure count after one more failure, saturating at `u32::MAX`.
    pub open spec fn next_failure_count(count: u32) -> u32 {
        if count == u32::MAX {
            count
        } else {
            (count + 1) as u32
        }
    }

    /// The state after a failure at time `now`.
    pub open spec fn spec_record_failure(self, now: u64) -> CircuitBreaker {
        let count = Self::next_failure_count(self.failure_count);
        CircuitBreaker {
            failure_count: count,
            last_failure_time: Some(now),
            state: if count >= self.failure_threshold {
                CircuitState::Open
            } else {
                self.state
            },
            ..self
        }
    }

    /// A closed breaker with no failures recorded.
    pub open spec fn spec_new(failure_threshold: u32, timeout_ms: u64) -> CircuitBreaker {
        CircuitBreaker {
            failure_threshold,
            timeout_ms,
            failure_count: 0,
            last_failure_time: None,
            state: CircuitState::Closed,
        }
    }

    /// The state after one operation.
    pub open spec fn spec_step(self, e: BreakerEvent) -> CircuitBreaker {
        match e {
            BreakerEvent::Allow(now) => self.spec_allow(now).0,
            BreakerEvent::Success => self.spec_record_success(),
            BreakerEvent::Failure(now) => self.spec_record_failure(now),
        }
    }

    /// The state after a sequence of operations, in order.
    pub open spec fn spec_run(self, events: Seq<BreakerEvent>) -> CircuitBreaker
        decreases events.len(),
    {
        if events.len() == 0 {
            self
        } else {
            self.spec_run(events.drop_last()).spec_step(events.last())
        }
    }

    /// A breaker that is not closed has reached its threshold and has
    /// recorded when it last failed.
    pub open spec fn failed_when_not_closed(self) -> bool {
        !(self.state is Closed) ==> (self.failure_count >= self.failure_threshold
            && self.last_failure_time is Some)
    }

    /// A closed breaker with no failures recorded.
    pub fn new(failure_threshold: u32, timeout_ms: u64) -> (b: Self)
        ensures
            b == Self::spec_new(failure_threshold, timeout_ms),
            b.failure_threshold == failure_threshold,
            b.timeout_ms == timeout_ms,
            b.failure_count == 0,
            b.last_failure_time is None,
            b.state is Closed,
            b.wf(),
    {
        CircuitBreaker {
            failure_threshold,
            timeout_ms,
            failure_count: 0,
            last_failure_time: None,
            state: CircuitState::Closed,
        }
    }

    /// Whether a request may go out at time `now`; an open breaker whose
    /// cool-down has elapsed moves to half-open and lets it through.
    pub fn allow(&mut self, now: u64) -> (allowed: bool)
        ensures
            (*final(self), allowed) == old(self).spec_allow(now),
            old(self).wf() ==> final(self).wf(),
    {
        match self.state {
            CircuitState::Closed => true,
            CircuitState::Open => {
                if let Some(last) = self.last_failure_time {
                    let elapsed: u64 = if now >= last {
                        now - last
                    } else {
                        0
                    };
                    if elapsed > self.timeout_ms {
                        self.state = CircuitState::HalfOpen;
                        return true;
                    }
                }
                false
            },
            CircuitState::HalfOpen => true,
        }
    }

    /// Records a successful request: the breaker closes and forgets failures.
    pub fn record_success(&mut self)
        ensures
            *final(self) == old(self).spec_record_success(),
            final(self).wf(),
    {
        self.failure_count = 0;
        self.state = CircuitState::Closed;
        self.last_failure_time = None;
    }

    /// Records a failed request at time `now`; the breaker opens once the
    /// failure count reaches the threshold.
    pub fn record_failure(&mut self, now: u64)
        ensures
            *final(self) == old(self).spec_record_failure(now),
            old(self).wf() ==> final(self).wf(),
    {
        self.failure_count = self.failure_count.saturating_add(1);
        self.last_failure_time = Some(now);
        if self.failure_count >= self.failure_threshold {
            self.state = CircuitState::Open;
        }
    }

    /// The breaker after `n` failures in a row, all at time `now`.
    pub open spec fn after_failures(self, n: nat, now: u64) -> CircuitBreaker
        decreases n,
    {
        if n == 0 {
            self
        } else {
            self.after_failures((n - 1) as nat, now).spec_record_failure(now)
        }
    }
}

/// A success closes the breaker: the next request is let through at any time.
pub proof fn law_success_then_allowed(b: CircuitBreaker, now: u64)
    ensures
        b.spec_record_success().spec_allow(now) == (b.spec_record_success(), true),
{
}

/// An open breaker refuses requests, and stays as it is, until more than the
/// cool-down has elapsed since the last failure.
pub proof fn law_open_refuses_during_cooldown(b: CircuitBreaker, last: u64, now: u64)
    requires
        b.state is Open,
        b.last_failure_time == Some(last),
        elapsed_since(last, now) <= b.timeout_ms,
    ensures
        b.spec_allow(now) == (b, false),
{
}

/// Once the cool-down has elapsed, an open breaker lets one request through
/// and becomes half-open.
pub proof fn law_open_probes_after_cooldown(b: CircuitBreaker, last: u64, now: u64)
    requires
        b.state is Open,
        b.last_failure_time == Some(last),
        elapsed_since(last, now) > b.timeout_ms,
    ensures
        b.spec_allow(now).1,
        b.spec_allow(now).0.state is HalfOpen,
        b.spec_allow(now).0.failure_count == b.failure_count,
{
}

/// Starting from no failures, `k` failures in a row leave the count at `k`.
pub proof fn law_failures_are_counted(b: CircuitBreaker, k: nat, now: u64)
    requires
        b.failure_count == 0,
        k <= u32::MAX,
    ensures
        b.after_failures(k, now).failure_count == k,
        b.after_failures(k, now).failure_threshold == b.failure_threshold,
        b.after_failures(k, now).timeout_ms == b.timeout_ms,
    decreases k,
{
    if k > 0 {
        law_failures_are_counted(b, (k - 1) as nat, now);
    }
}

/// A breaker with no failures recorded opens after `failure_threshold`
/// consecutive failures, and refuses the next request made at the same time.
pub proof fn law_threshold_failures_open(b: CircuitBreaker, now: u64)
    requires
        b.failure_count == 0,
        b.failure_threshold >= 1,
    ensures
        b.after_failures(b.failure_threshold as nat, now).state is Open,
        b.after_failures(b.failure_threshold as nat, now).spec_allow(now).1 == false,
{
    let n = b.failure_threshold as nat;
    law_failures_are_counted(b, (n - 1) as nat, now);
    law_failures_are_counted(b, n, now);
}

/// Fewer failures than the threshold leave a closed breaker closed.
pub proof fn law_below_threshold_stays_closed(b: CircuitBreaker, k: nat, now: u64)
    requires
        b.failure_count == 0,
        b.state is Closed,
        k < b.failure_threshold,
    ensures
        b.after_failures(k, now).state is Closed,
    decreases k,
{
    if k > 0 {
        law_below_threshold_stays_closed(b, (k - 1) as nat, now);
        law_failures_are_counted(b, k, now);
    }
}

/// One operation keeps a breaker that is not closed at or past its
/// threshold, with a failure time.
pub proof fn lemma_step_keeps_failed_when_not_closed(b: CircuitBreaker, e: BreakerEvent)
    requires
        b.failed_when_not_closed(),
    ensures
        b.spec_step(e).failed_when_not_closed(),
{
}

/// Every state a breaker reaches from `new` through any permissions,
/// successes and failures is closed, or has reached its threshold and has
/// a failure time.
pub proof fn law_reached_breaker_not_closed_has_failed(
    failure_threshold: u32,
    timeout_ms: u64,
    events: Seq<BreakerEvent>,
)
    ensures
        CircuitBreaker::spec_new(failure_threshold, timeout_ms).spec_run(
            events,
        ).failed_when_not_closed(),
    decreases events.len(),
{
    if events.len() > 0 {
        law_reached_breaker_not_closed_has_failed(failure_threshold, timeout_ms, events.drop_last());
        lemma_step_keeps_failed_when_not_closed(
            CircuitBreaker::spec_new(failure_threshold, timeout_ms).spec_run(events.drop_last()),
            events.last(),
        );
    }
}

/// A failed probe reopens the breaker: in a reached state, a failure while
/// half-open leads back to open.
pub proof fn law_failed_probe_reopens(b: CircuitBreaker, now: u64)
    requires
        b.failed_when_not_closed(),
        b.state is HalfOpen,
    ensures
        b.spec_record_failure(now).state is Open,
{
}

} // verus!
