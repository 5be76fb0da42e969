//! Circuit breaker decisions. The rate thresholds are compared by the
//! caller: each transition that needs a rate hands back the counts to
//! compare. Times are milliseconds since the Unix epoch.
use vstd::prelude::*;
use vstd::wrapping::u32_specs;
use vstd::wrapping::u64_specs;
use crate::clock;

verus! {

/// Circuit breaker states.
#[derive(Debug, Clone, Copy, PartialEq, Eq, Structural)]
pub enum CircuitBreakerStatus {
    /// Requests pass through normally.
    Closed,
    /// Requests fail immediately.
    Open,
    /// A few requests test whether the service recovered.
    HalfOpen,
}

/// A rate the caller compares with its thresholds, and what to do then.
#[derive(Debug, Clone, Copy, PartialEq, Eq, Structural)]
pub enum ThresholdCheck {
    /// The closed circuit has seen a full window: when `failures / total`,
    /// as a percentage, reaches the failure threshold, call `open`.
    OpenIfFailing { failures: u32, total: u64 },
    /// A closed circuit completed an evaluation window: when the failure
    /// percentage is below the failure threshold, call `reset_counts`.
    ResetIfHealthy { failures: u32, total: u64 },
    /// A half-open success: when `successes / half_open_max_calls`, as a
    /// percentage, reaches the success threshold, call `close`.
    CloseIfRecovered { successes: u32, half_open_max_calls: u32 },
}

/// Circuit breaker counters.
#[derive(Debug, Clone, Copy)]
pub struct CircuitBreakerMetrics {
    pub successes: u32,
    pub failures: u32,
    pub total_calls: u64,
}

/// Abstract state of a circuit breaker.
pub struct BreakerView {
    pub status: CircuitBreakerStatus,
    pub last_failure_ms: Option<u64>,
    pub successes: u32,
    pub failures: u32,
    pub total_calls: u64,
    pub half_open_calls: u32,
    /// Number of calls evaluated before a state change.
    pub evaluation_window: u32,
    /// How long an open circuit waits before testing recovery.
    pub timeout_ms: u64,
    /// Most calls let through while half-open.
    pub half_open_max_calls: u32,
}

/// The state with every counter at zero.
pub open spec fn counts_reset(v: BreakerView) -> BreakerView {
    BreakerView { successes: 0, failures: 0, total_calls: 0, half_open_calls: 0, ..v }
}

/// What recording a success does: counted when closed (with a window check
/// every `evaluation_window` calls) and when half-open (with a recovery
/// check, one fewer half-open call in flight); ignored when open.
pub open spec fn after_success(v: BreakerView) -> (BreakerView, Option<ThresholdCheck>) {
    match v.status {
        CircuitBreakerStatus::Closed => {
            let total = u64_specs::wrapping_add(v.total_calls, 1);
            let w = BreakerView { successes: u32_specs::wrapping_add(v.successes, 1), total_calls: total, ..v };
            (w, if total > 0 && total % (v.evaluation_window as u64) == 0 {
                Some(ThresholdCheck::ResetIfHealthy { failures: v.failures, total })
            } else {
                None
            })
        },
        CircuitBreakerStatus::HalfOpen => {
            let w = BreakerView {
                successes: u32_specs::wrapping_add(v.successes, 1),
                total_calls: u64_specs::wrapping_add(v.total_calls, 1),
                half_open_calls: u32_specs::wrapping_sub(v.half_open_calls, 1),
                ..v
            };
            (w, Some(ThresholdCheck::CloseIfRecovered { successes: w.successes, half_open_max_calls: v.half_open_max_calls }))
        },
        CircuitBreakerStatus::Open => (v, None),
    }
}

/// What recording a failure at `now` does: counted when closed (with a
/// failure-rate check once the window is full); a half-open circuit opens
/// again; ignored when open.
pub open spec fn after_failure(v: BreakerView, now: u64) -> (BreakerView, Option<ThresholdCheck>) {
    match v.status {
        CircuitBreakerStatus::Closed => {
            let w = BreakerView {
                failures: u32_specs::wrapping_add(v.failures, 1),
                total_calls: u64_specs::wrapping_add(v.total_calls, 1),
                last_failure_ms: Some(now),
                ..v
            };
            (w, if w.total_calls >= v.evaluation_window as u64 {
                Some(ThresholdCheck::OpenIfFailing { failures: w.failures, total: w.total_calls })
            } else {
                None
            })
        },
        CircuitBreakerStatus::HalfOpen => (BreakerView {
            status: CircuitBreakerStatus::Open,
            failures: u32_specs::wrapping_add(v.failures, 1),
            half_open_calls: u32_specs::wrapping_sub(v.half_open_calls, 1),
            last_failure_ms: Some(now),
            ..v
        }, None),
        CircuitBreakerStatus::Open => (v, None),
    }
}

/// Whether a request may go through at `now`, and the state after: always
/// when closed; when open, only once the timeout has passed since the last
/// failure, which makes the circuit half-open with its counters reset; when
/// half-open, while fewer than the most half-open calls are in flight.
pub open spec fn after_request(v: BreakerView, now: u64) -> (BreakerView, bool) {
    match v.status {
        CircuitBreakerStatus::Closed => (v, true),
        CircuitBreakerStatus::Open => match v.last_failure_ms {
            Some(t) => if (if now >= t { now - t } else { 0 }) > v.timeout_ms {
                (BreakerView { status: CircuitBreakerStatus::HalfOpen, ..counts_reset(v) }, true)
            } else {
                (v, false)
            },
            None => (v, false),
        },
        CircuitBreakerStatus::HalfOpen => if v.half_open_calls < v.half_open_max_calls {
            (BreakerView { half_open_calls: (v.half_open_calls + 1) as u32, ..v }, true)
        } else {
            (v, false)
        },
    }
}

/// The state machine of a circuit breaker.
pub struct CircuitBreakerCore {
    status: CircuitBreakerStatus,
    last_failure_ms: Option<u64>,
    successes: u32,
    failures: u32,
    total_calls: u64,
    half_open_calls: u32,
    evaluation_window: u32,
    timeout_ms: u64,
    half_open_max_calls: u32,
}

impl CircuitBreakerCore {
    /// The abstract state.
    pub closed spec fn view(&self) -> BreakerView {
        BreakerView {
            status: self.status,
            last_failure_ms: self.last_failure_ms,
            successes: self.successes,
            failures: self.failures,
            total_calls: self.total_calls,
            half_open_calls: self.half_open_calls,
            evaluation_window: self.evaluation_window,
            timeout_ms: self.timeout_ms,
            half_open_max_calls: self.half_open_max_calls,
        }
    }

    /// A closed circuit with zero counters and no failure seen.
    pub fn new(evaluation_window: u32, timeout_ms: u64, half_open_max_calls: u32) -> (r: Self)
        ensures
            r.view() == (BreakerView {
                status: CircuitBreakerStatus::Closed,
                last_failure_ms: None,
                successes: 0,
                failures: 0,
                total_calls: 0,
                half_open_calls: 0,
                evaluation_window,
                timeout_ms,
                half_open_max_calls,
            }),
    {
        CircuitBreakerCore {
            status: CircuitBreakerStatus::Closed,
            last_failure_ms: None,
            successes: 0,
            failures: 0,
            total_calls: 0,
            half_open_calls: 0,
            evaluation_window,
            timeout_ms,
            half_open_max_calls,
        }
    }

    /// The current status.
    pub fn get_status(&self) -> (r: CircuitBreakerStatus)
        ensures
            r == self.view().status,
    {
        self.status
    }

    /// Record a successful operation, as `after_success` says. An evaluation
    /// window of 0 cannot be checked: a closed circuit needs a non-zero one
    /// (unless the call count wraps to 0).
    pub fn record_success(&mut self) -> (r: Option<ThresholdCheck>)
        requires
            old(self).view().status == CircuitBreakerStatus::Closed && old(self).view().evaluation_window == 0
                ==> u64_specs::wrapping_add(old(self).view().total_calls, 1) == 0,
        ensures
            (final(self).view(), r) == after_success(old(self).view()),
    {
        match self.status {
            CircuitBreakerStatus::Closed => {
                self.successes = self.successes.wrapping_add(1);
                self.total_calls = self.total_calls.wrapping_add(1);
                let total = self.total_calls;
                if total > 0 && total % (self.evaluation_window as u64) == 0 {
                    Some(ThresholdCheck::ResetIfHealthy { failures: self.failures, total })
                } else {
                    None
                }
            },
            CircuitBreakerStatus::HalfOpen => {
                self.successes = self.successes.wrapping_add(1);
                self.total_calls = self.total_calls.wrapping_add(1);
                self.half_open_calls = self.half_open_calls.wrapping_sub(1);
                Some(ThresholdCheck::CloseIfRecovered { successes: self.successes, half_open_max_calls: self.half_open_max_calls })
            },
            CircuitBreakerStatus::Open => None,
        }
    }

    /// Record a failed operation now; see `record_failure_at`.
    pub fn record_failure(&mut self) -> (r: Option<ThresholdCheck>)
        ensures
            exists|now: u64| (final(self).view(), r) == #[trigger] after_failure(old(self).view(), now),
    {
        let now = clock::unix_millis();
        self.record_failure_at(now)
    }

    /// Record a failed operation at `now`, as `after_failure` says.
    pub fn record_failure_at(&mut self, now: u64) -> (r: Option<ThresholdCheck>)
        ensures
            (final(self).view(), r) == after_failure(old(self).view(), now),
    {
        match self.status {
            CircuitBreakerStatus::Closed => {
                self.failures = self.failures.wrapping_add(1);
                self.total_calls = self.total_calls.wrapping_add(1);
                self.last_failure_ms = Some(now);
                if self.total_calls >= self.evaluation_window as u64 {
                    Some(ThresholdCheck::OpenIfFailing { failures: self.failures, total: self.total_calls })
                } else {
                    None
                }
            },
            CircuitBreakerStatus::HalfOpen => {
                self.failures = self.failures.wrapping_add(1);
                self.half_open_calls = self.half_open_calls.wrapping_sub(1);
                self.status = CircuitBreakerStatus::Open;
                self.last_failure_ms = Some(now);
                None
            },
            CircuitBreakerStatus::Open => None,
        }
    }

    /// Whether a request may go through now; see `allow_request_at`.
    pub fn allow_request(&mut self) -> (r: bool)
        ensures
            exists|now: u64| (final(self).view(), r) == #[trigger] after_request(old(self).view(), now),
    {
        let now = clock::unix_millis();
        self.allow_request_at(now)
    }

    /// Whether a request may go through at `now`, as `after_request` says.
    pub fn allow_request_at(&mut self, now: u64) -> (r: bool)
        ensures
            (final(self).view(), r) == after_request(old(self).view(), now),
    {
        match self.status {
            CircuitBreakerStatus::Closed => true,
            CircuitBreakerStatus::Open => match self.last_failure_ms {
                Some(t) => {
                    if now.saturating_sub(t) > self.timeout_ms {
                        self.status = CircuitBreakerStatus::HalfOpen;
                        self.reset_counts();
                        true
                    } else {
                        false
                    }
                },
                None => false,
            },
            CircuitBreakerStatus::HalfOpen => {
                if self.half_open_calls < self.half_open_max_calls {
                    self.half_open_calls = self.half_open_calls + 1;
                    true
                } else {
                    false
                }
            },
        }
    }

    /// Open the circuit (the failure rate reached the threshold).
    pub fn open(&mut self)
        ensures
            final(self).view() == (BreakerView { status: CircuitBreakerStatus::Open, ..old(self).view() }),
    {
        self.status = CircuitBreakerStatus::Open;
    }

    /// Close the circuit (the service recovered) and reset the counters.
    pub fn close(&mut self)
        ensures
            final(self).view() == (BreakerView { status: CircuitBreakerStatus::Closed, ..counts_reset(old(self).view()) }),
    {
        self.status = CircuitBreakerStatus::Closed;
        self.reset_counts();
    }

    /// Set every counter to zero.
    pub fn reset_counts(&mut self)
        ensures
            final(self).view() == counts_reset(old(self).view()),
    {
        self.successes = 0;
        self.failures = 0;
        self.total_calls = 0;
        self.half_open_calls = 0;
    }

    /// The counters.
    pub fn get_metrics(&self) -> (r: CircuitBreakerMetrics)
        ensures
            r.successes == self.view().successes,
            r.failures == self.view().failures,
            r.total_calls == self.view().total_calls,
    {
        CircuitBreakerMetrics { successes: self.successes, failures: self.failures, total_calls: self.total_calls }
    }
}

/// An open circuit refuses every request until the timeout has passed
/// since the last failure, and stays open meanwhile.
pub proof fn law_open_circuit_refuses_until_timeout(v: BreakerView, now: u64)
    requires
        v.status == CircuitBreakerStatus::Open,
        v.last_failure_ms matches Some(t) ==> (if now >= t { now - t } else { 0 }) <= v.timeout_ms,
    ensures
        after_request(v, now) == (v, false),
{
}

/// A failure while half-open opens the circuit again.
pub proof fn law_half_open_failure_reopens(v: BreakerView, now: u64)
    requires
        v.status == CircuitBreakerStatus::HalfOpen,
    ensures
        after_failure(v, now).0.status == CircuitBreakerStatus::Open,
        after_failure(v, now).0.last_failure_ms == Some(now),
{
}

/// A half-open circuit lets through at most `half_open_max_calls` requests
/// at once: a request is admitted only while fewer are in flight, and the
/// in-flight count then stays within the limit.
pub proof fn law_half_open_admits_within_limit(v: BreakerView, now: u64)
    requires
        v.status == CircuitBreakerStatus::HalfOpen,
        v.half_open_calls <= v.half_open_max_calls,
    ensures
        after_request(v, now).1 <==> v.half_open_calls < v.half_open_max_calls,
        after_request(v, now).0.half_open_calls <= v.half_open_max_calls,
        after_request(v, now).0.status == CircuitBreakerStatus::HalfOpen,
{
}

} // verus!

verus! {

/// Window law: once a closed circuit has seen a full evaluation window,
/// every further failure asks the caller to compare the failure rate (the
/// failures and calls counted so far, this one included), not only the
/// first; before the window is full no failure asks.
pub proof fn law_full_window_failures_are_checked(v: BreakerView, now: u64)
    requires
        v.status == CircuitBreakerStatus::Closed,
        v.total_calls < u64::MAX,
        v.failures < u32::MAX,
    ensures
        v.total_calls + 1 >= v.evaluation_window ==> after_failure(v, now).1
            == Some(ThresholdCheck::OpenIfFailing { failures: (v.failures + 1) as u32, total: (v.total_calls + 1) as u64 }),
        v.total_calls + 1 < v.evaluation_window ==> after_failure(v, now).1 is None,
        after_failure(v, now).0.status == CircuitBreakerStatus::Closed,
        after_failure(v, now).0.total_calls == v.total_calls + 1,
        after_failure(v, now).0.failures == v.failures + 1,
{
}

/// Two failures in a row on a closed circuit: when the first asks for the
/// failure-rate check, so does the second.
pub proof fn law_failure_checks_continue(v: BreakerView, t1: u64, t2: u64)
    requires
        v.status == CircuitBreakerStatus::Closed,
        v.total_calls < u64::MAX - 1,
        after_failure(v, t1).1 is Some,
    ensures
        after_failure(after_failure(v, t1).0, t2).1 is Some,
{
}

} // verus!
