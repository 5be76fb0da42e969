//! Event counters for critical paths: totals per severity and rate-limit
//! violations with their peak per second. Counters wrap on overflow.
use vstd::prelude::*;
use vstd::wrapping::u64_specs::wrapping_add;
use crate::clock;

verus! {

/// Statistics collected by the counters.
#[derive(Debug, Clone, Copy)]
pub struct AtomicStats {
    pub total_events: u64,
    pub warnings: u64,
    pub errors: u64,
    pub infos: u64,
    /// Unix timestamp
    pub last_timestamp: u64,
}

/// Event logger made of counters only. It is one set of counters with one
/// owner, and offers no copy: handles that share the counters (across
/// threads, say) hold one logger behind a lock and clone the handle, so that
/// every handle sees every event.
#[derive(Debug)]
pub struct AtomicLogger {
    total_events: u64,
    warning_count: u64,
    error_count: u64,
    info_count: u64,
    last_timestamp: u64,
}

impl AtomicLogger {
    /// The counters, as statistics.
    pub closed spec fn view(&self) -> AtomicStats {
        AtomicStats {
            total_events: self.total_events,
            warnings: self.warning_count,
            errors: self.error_count,
            infos: self.info_count,
            last_timestamp: self.last_timestamp,
        }
    }

    /// Create a new logger with every counter at zero.
    pub fn new() -> (r: Self)
        ensures
            r.view() == (AtomicStats { total_events: 0, warnings: 0, errors: 0, infos: 0, last_timestamp: 0 }),
    {
        AtomicLogger { total_events: 0, warning_count: 0, error_count: 0, info_count: 0, last_timestamp: 0 }
    }

    /// Log a warning event, stamped with the clock.
    pub fn warn(&mut self)
        ensures
            exists|t: u64| final(self).view() == #[trigger] warned(old(self).view(), t),
    {
        let t = clock_secs();
        self.warn_at(t)
    }

    /// Log a warning event at Unix time `now`.
    pub fn warn_at(&mut self, now: u64)
        ensures
            final(self).view() == warned(old(self).view(), now),
    {
        self.total_events = self.total_events.wrapping_add(1);
        self.warning_count = self.warning_count.wrapping_add(1);
        self.last_timestamp = now;
    }

    /// Log an error event, stamped with the clock.
    pub fn error(&mut self)
        ensures
            exists|t: u64| final(self).view() == #[trigger] errored(old(self).view(), t),
    {
        let t = clock_secs();
        self.error_at(t)
    }

    /// Log an error event at Unix time `now`.
    pub fn error_at(&mut self, now: u64)
        ensures
            final(self).view() == errored(old(self).view(), now),
    {
        self.total_events = self.total_events.wrapping_add(1);
        self.error_count = self.error_count.wrapping_add(1);
        self.last_timestamp = now;
    }

    /// Log an info event, stamped with the clock.
    pub fn info(&mut self)
        ensures
            exists|t: u64| final(self).view() == #[trigger] informed(old(self).view(), t),
    {
        let t = clock_secs();
        self.info_at(t)
    }

    /// Log an info event at Unix time `now`.
    pub fn info_at(&mut self, now: u64)
        ensures
            final(self).view() == informed(old(self).view(), now),
    {
        self.total_events = self.total_events.wrapping_add(1);
        self.info_count = self.info_count.wrapping_add(1);
        self.last_timestamp = now;
    }

    /// Current statistics.
    pub fn stats(&self) -> (r: AtomicStats)
        ensures
            r == self.view(),
    {
        AtomicStats {
            total_events: self.total_events,
            warnings: self.warning_count,
            errors: self.error_count,
            infos: self.info_count,
            last_timestamp: self.last_timestamp,
        }
    }

    /// Reset all counters; the last timestamp is kept.
    pub fn reset(&mut self)
        ensures
            final(self).view() == (AtomicStats { total_events: 0, warnings: 0, errors: 0, infos: 0, ..old(self).view() }),
    {
        self.total_events = 0;
        self.warning_count = 0;
        self.error_count = 0;
        self.info_count = 0;
    }
}

impl Default for AtomicLogger {
    fn default() -> (r: Self)
        ensures
            r.view() == (AtomicStats { total_events: 0, warnings: 0, errors: 0, infos: 0, last_timestamp: 0 }),
    {
        AtomicLogger::new()
    }
}

/// The statistics after one warning at time `t`.
pub open spec fn warned(s: AtomicStats, t: u64) -> AtomicStats {
    AtomicStats { total_events: wrapping_add(s.total_events, 1), warnings: wrapping_add(s.warnings, 1), last_timestamp: t, ..s }
}

/// The statistics after one error at time `t`.
pub open spec fn errored(s: AtomicStats, t: u64) -> AtomicStats {
    AtomicStats { total_events: wrapping_add(s.total_events, 1), errors: wrapping_add(s.errors, 1), last_timestamp: t, ..s }
}

/// The statistics after one info event at time `t`.
pub open spec fn informed(s: AtomicStats, t: u64) -> AtomicStats {
    AtomicStats { total_events: wrapping_add(s.total_events, 1), infos: wrapping_add(s.infos, 1), last_timestamp: t, ..s }
}

/// The clock's Unix time in seconds, as the logger stores it: the reading
/// cast to `u64` (a time before the epoch wraps).
fn clock_secs() -> u64 {
    let t = clock::utc_timestamp();
    t as u64
}

/// Statistics from the rate limit counter.
#[derive(Debug, Clone, Copy)]
pub struct RateLimitStats {
    pub total_violations: u64,
    pub last_violation_timestamp: u64,
    pub peak_violations_per_sec: u64,
    pub current_second_violations: u64,
}

/// Rate limit event counter. As with `AtomicLogger`, it offers no copy:
/// shared counting goes through one counter behind a lock.
#[derive(Debug)]
pub struct RateLimitCounter {
    violations: u64,
    last_violation_timestamp: u64,
    peak_violations_per_sec: u64,
    current_second_violations: u32,
    current_second_start: u64,
}

/// Abstract state of a rate limit counter.
pub struct RateLimitView {
    pub violations: u64,
    pub last_violation_timestamp: u64,
    pub peak: u64,
    pub current: u32,
    pub second_start: u64,
}

/// The state after one violation recorded at time `now`: the total grows by
/// one; when `now` is past the second being counted, the count of that
/// second raises the peak if it is higher, and counting starts again at zero
/// for the second `now`; otherwise the count of the current second grows by
/// one.
pub open spec fn violation_recorded(s: RateLimitView, now: u64) -> RateLimitView {
    let base = RateLimitView { violations: wrapping_add(s.violations, 1), last_violation_timestamp: now, ..s };
    if now > s.second_start {
        RateLimitView {
            peak: if s.current as u64 > s.peak { s.current as u64 } else { s.peak },
            current: 0,
            second_start: now,
            ..base
        }
    } else {
        RateLimitView { current: vstd::wrapping::u32_specs::wrapping_add(s.current, 1), ..base }
    }
}

impl RateLimitCounter {
    /// The abstract state.
    pub closed spec fn view(&self) -> RateLimitView {
        RateLimitView {
            violations: self.violations,
            last_violation_timestamp: self.last_violation_timestamp,
            peak: self.peak_violations_per_sec,
            current: self.current_second_violations,
            second_start: self.current_second_start,
        }
    }

    /// A new counter, all zero, counting the second read from the clock.
    pub fn new() -> (r: Self)
        ensures
            r.view().violations == 0 && r.view().last_violation_timestamp == 0 && r.view().peak == 0 && r.view().current == 0,
    {
        let t = clock_secs();
        Self::starting_at(t)
    }

    /// A new counter, all zero, counting the second `now`.
    pub fn starting_at(now: u64) -> (r: Self)
        ensures
            r.view() == (RateLimitView { violations: 0, last_violation_timestamp: 0, peak: 0, current: 0, second_start: now }),
    {
        RateLimitCounter {
            violations: 0,
            last_violation_timestamp: 0,
            peak_violations_per_sec: 0,
            current_second_violations: 0,
            current_second_start: now,
        }
    }

    /// Record a rate limit violation at the clock's time.
    pub fn record_violation(&mut self)
        ensures
            exists|t: u64| final(self).view() == #[trigger] violation_recorded(old(self).view(), t),
    {
        let t = clock_secs();
        self.record_violation_at(t)
    }

    /// Record a rate limit violation at Unix time `now`.
    pub fn record_violation_at(&mut self, now: u64)
        ensures
            final(self).view() == violation_recorded(old(self).view(), now),
    {
        self.violations = self.violations.wrapping_add(1);
        self.last_violation_timestamp = now;
        self.update_peak_rate(now);
    }

    fn update_peak_rate(&mut self, now: u64)
        ensures
            now > old(self).view().second_start ==> final(self).view() == (RateLimitView {
                peak: if old(self).view().current as u64 > old(self).view().peak { old(self).view().current as u64 } else { old(self).view().peak },
                current: 0,
                second_start: now,
                ..old(self).view()
            }),
            now <= old(self).view().second_start ==> final(self).view() == (RateLimitView {
                current: vstd::wrapping::u32_specs::wrapping_add(old(self).view().current, 1),
                ..old(self).view()
            }),
    {
        let second_start = self.current_second_start;
        if now > second_start {
            let this_second = self.current_second_violations as u64;
            if this_second > self.peak_violations_per_sec {
                self.peak_violations_per_sec = this_second;
            }
            self.current_second_violations = 0;
            self.current_second_start = now;
        } else {
            self.current_second_violations = self.current_second_violations.wrapping_add(1);
        }
    }

    /// Rate limit statistics.
    pub fn stats(&self) -> (r: RateLimitStats)
        ensures
            r.total_violations == self.view().violations,
            r.last_violation_timestamp == self.view().last_violation_timestamp,
            r.peak_violations_per_sec == self.view().peak,
            r.current_second_violations == self.view().current as u64,
    {
        RateLimitStats {
            total_violations: self.violations,
            last_violation_timestamp: self.last_violation_timestamp,
            peak_violations_per_sec: self.peak_violations_per_sec,
            current_second_violations: self.current_second_violations as u64,
        }
    }

    /// Reset the counts; the timestamps are kept.
    pub fn reset(&mut self)
        ensures
            final(self).view() == (RateLimitView { violations: 0, peak: 0, current: 0, ..old(self).view() }),
    {
        self.violations = 0;
        self.peak_violations_per_sec = 0;
        self.current_second_violations = 0;
    }
}

/// Counting law: every event raises the total by one, as does each severity
/// for its own counter, so with no wrap-around the total is the sum of the
/// three severities whenever it was so before.
pub proof fn law_total_is_sum_of_severities(s: AtomicStats, t: u64)
    requires
        s.total_events == s.warnings + s.errors + s.infos,
        s.total_events < u64::MAX,
    ensures
        warned(s, t).total_events == warned(s, t).warnings + warned(s, t).errors + warned(s, t).infos,
        errored(s, t).total_events == errored(s, t).warnings + errored(s, t).errors + errored(s, t).infos,
        informed(s, t).total_events == informed(s, t).warnings + informed(s, t).errors + informed(s, t).infos,
{
}

} // verus!
