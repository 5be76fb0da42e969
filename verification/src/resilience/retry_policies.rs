//! Retry decisions: when a failed operation is tried again, and the integer
//! backoff delays. Times are milliseconds.
use vstd::prelude::*;
use vstd::wrapping::u64_specs::wrapping_mul;
use crate::text::{contains_seq, contains_str, owned, string_views};

verus! {

/// What to do after an attempt failed.
#[derive(Debug, Clone, Copy, PartialEq, Eq, Structural)]
pub enum RetryStep {
    /// The attempts are used up: return the error.
    GiveUp,
    /// The error is of no retriable kind: return it.
    NotRetriable,
    /// Wait, then try again.
    Retry,
}

/// The error message names one of the retriable kinds, or no kind is listed.
pub open spec fn retriable(kinds: Seq<Seq<char>>, message: Seq<char>) -> bool {
    kinds.len() == 0 || exists|i: int| 0 <= i < kinds.len() && contains_seq(message, #[trigger] kinds[i])
}

/// The step after attempt number `attempt` (counted from 0) failed with
/// `message`: give up once `max_retries` retries were made, otherwise retry
/// when the error is retriable.
pub open spec fn retry_step_of(attempt: u32, max_retries: u32, kinds: Seq<Seq<char>>, message: Seq<char>) -> RetryStep {
    if attempt >= max_retries {
        RetryStep::GiveUp
    } else if !retriable(kinds, message) {
        RetryStep::NotRetriable
    } else {
        RetryStep::Retry
    }
}

/// Whether an error with this message may be retried: when no kind is
/// listed, or its message contains one of the listed kinds.
pub fn is_retriable(retriable_errors: &Vec<String>, message: &str) -> (r: bool)
    ensures
        r == retriable(string_views(retriable_errors@), message@),
{
    let ghost kinds = string_views(retriable_errors@);
    if retriable_errors.len() == 0 {
        return true;
    }
    let mut i: usize = 0;
    while i < retriable_errors.len()
        invariant
            i <= retriable_errors@.len(),
            kinds == string_views(retriable_errors@),
            forall|j: int| 0 <= j < i ==> !contains_seq(message@, #[trigger] kinds[j]),
        decreases retriable_errors@.len() - i,
    {
        if contains_str(message, retriable_errors[i].as_str()) {
            assert(contains_seq(message@, kinds[i as int]));
            return true;
        }
        i = i + 1;
    }
    false
}

/// Decide what follows a failed attempt, as `retry_step_of` says.
pub fn retry_step(attempt: u32, max_retries: u32, retriable_errors: &Vec<String>, message: &str) -> (r: RetryStep)
    ensures
        r == retry_step_of(attempt, max_retries, string_views(retriable_errors@), message@),
{
    if attempt >= max_retries {
        RetryStep::GiveUp
    } else if !is_retriable(retriable_errors, message) {
        RetryStep::NotRetriable
    } else {
        RetryStep::Retry
    }
}

/// The delay of a fixed backoff: the same for every attempt.
pub fn fixed_delay_ms(delay_ms: u64, attempt: u32) -> (r: u64)
    ensures
        r == delay_ms,
{
    delay_ms
}

/// The delay of a linear backoff before attempt `attempt + 1`: the base
/// times `attempt + 1` (wrapping at 2^64), capped at `max_delay_ms`.
pub fn linear_delay_ms(base_ms: u64, max_delay_ms: u64, attempt: u32) -> (r: u64)
    ensures
        r == if wrapping_mul(base_ms, (attempt + 1) as u64) < max_delay_ms {
            wrapping_mul(base_ms, (attempt + 1) as u64)
        } else {
            max_delay_ms
        },
{
    let d = base_ms.wrapping_mul(attempt as u64 + 1);
    if d < max_delay_ms {
        d
    } else {
        max_delay_ms
    }
}

/// The error kinds retried by default.
pub fn default_retriable_errors() -> (r: Vec<String>)
    ensures
        string_views(r@) == seq!["Timeout"@, "ConnectionReset"@, "ServiceUnavailable"@],
{
    let mut v: Vec<String> = Vec::new();
    v.push(owned("Timeout"));
    v.push(owned("ConnectionReset"));
    v.push(owned("ServiceUnavailable"));
    assert(string_views(v@) =~= seq!["Timeout"@, "ConnectionReset"@, "ServiceUnavailable"@]);
    v
}

/// Retries are bounded: whatever the errors, attempt `max_retries` gives up.
pub proof fn law_retries_are_bounded(attempt: u32, max_retries: u32, kinds: Seq<Seq<char>>, message: Seq<char>)
    requires
        attempt >= max_retries,
    ensures
        retry_step_of(attempt, max_retries, kinds, message) == RetryStep::GiveUp,
{
}

} // verus!
