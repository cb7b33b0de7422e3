use vstd::prelude::*;

use crate::config::{backoff_delay, RetryPolicy};
use crate::error::RuntimeError;

verus! {

/// Retry decision returned by shared retry helpers.
#[derive(Debug, Clone, PartialEq, Eq)]
pub struct RetryDecision {
    pub should_retry: bool,
    pub next_delay_ms: Option<u64>,
}

/// The decision to give up.
pub open spec fn stop_decision() -> RetryDecision {
    RetryDecision { should_retry: false, next_delay_ms: None }
}

/// The decision to try again after `delay_ms`.
pub open spec fn retry_after_decision(delay_ms: u64) -> RetryDecision {
    RetryDecision { should_retry: true, next_delay_ms: Some(delay_ms) }
}

impl RetryDecision {
    pub fn stop() -> (r: RetryDecision)
        ensures
            r == stop_decision(),
    {
        RetryDecision { should_retry: false, next_delay_ms: None }
    }

    pub fn retry_after(delay_ms: u64) -> (r: RetryDecision)
        ensures
            r == retry_after_decision(delay_ms),
    {
        RetryDecision { should_retry: true, next_delay_ms: Some(delay_ms) }
    }
}

/// A delay scaled by a factor between 70 % and 130 % chosen by `entropy`
/// (`70 + entropy % 61` percent, the product saturated at `u64::MAX`),
/// then capped at `max`.
pub open spec fn jitter_delay(delay_ms: u64, max_delay_ms: u64, entropy: u64) -> u64 {
    let factor = 70 + entropy % 61;
    let product = delay_ms * factor;
    let saturated: u64 = if product > u64::MAX {
        u64::MAX
    } else {
        product as u64
    };
    let jittered = saturated / 100;
    if jittered <= max_delay_ms {
        jittered
    } else {
        max_delay_ms
    }
}

/// The delay after jitter: unchanged when jitter is off or the delay is zero.
pub open spec fn applied_jitter(p: RetryPolicy, delay_ms: u64, entropy: u64) -> u64 {
    if !p.jitter || delay_ms == 0 {
        delay_ms
    } else {
        jitter_delay(delay_ms, p.max_delay_ms, entropy)
    }
}

/// `a - 1`, or 0 for 0.
pub open spec fn previous_index(a: u32) -> u32 {
    if a == 0 {
        0
    } else {
        (a - 1) as u32
    }
}

/// The decision after `attempts_completed` failed attempts, the last one
/// failing with an error of the given retryability; `entropy` picks the jitter.
pub open spec fn retry_decision(
    p: RetryPolicy,
    attempts_completed: u32,
    retryable: bool,
    entropy: u64,
) -> RetryDecision {
    if !retryable || attempts_completed >= p.max_attempts {
        stop_decision()
    } else {
        retry_after_decision(
            applied_jitter(
                p,
                backoff_delay(p.initial_delay_ms, p.max_delay_ms, previous_index(attempts_completed)),
                entropy,
            ),
        )
    }
}

/// The current time (`SystemTime::now`).
#[verifier::external_type_specification]
#[verifier::external_body]
pub struct ExSystemTime(std::time::SystemTime);

/// `SystemTime::now`: the clock's reading, about which nothing is promised.
#[verifier::external_body]
fn system_now() -> std::time::SystemTime {
    std::time::SystemTime::now()
}

/// `SystemTime::duration_since(UNIX_EPOCH)`: the time since the epoch, or
/// `None` when the clock reads earlier; nothing more is promised.
#[verifier::external_body]
fn since_unix_epoch(t: &std::time::SystemTime) -> Option<std::time::Duration> {
    t.duration_since(std::time::UNIX_EPOCH).ok()
}

/// `Duration::subsec_nanos`: the fractional part of a duration in
/// nanoseconds, which its documentation bounds below one billion.
#[verifier::external_body]
fn subsec_nanos(d: &std::time::Duration) -> (r: u32)
    ensures
        r < 1_000_000_000,
{
    d.subsec_nanos()
}

/// Sub-second entropy from the system clock: the nanoseconds of the current
/// second, or 54321 when the clock reads before the epoch.
pub fn clock_entropy() -> (r: u64)
    ensures
        r < 1_000_000_000 || r == 54321,
{
    let now = system_now();
    match since_unix_epoch(&now) {
        Some(d) => subsec_nanos(&d) as u64,
        None => 54321,
    }
}

/// Scales a delay by the jitter factor that `entropy` picks.
pub fn jitter_with_entropy(delay_ms: u64, max_delay_ms: u64, entropy: u64) -> (r: u64)
    ensures
        r == jitter_delay(delay_ms, max_delay_ms, entropy),
{
    let factor: u64 = 70 + entropy % 61;
    let saturated: u64 = match delay_ms.checked_mul(factor) {
        Some(v) => v,
        None => u64::MAX,
    };
    let jittered = saturated / 100;
    if jittered <= max_delay_ms {
        jittered
    } else {
        max_delay_ms
    }
}

impl RetryPolicy {
    /// Decide whether the runtime should retry after a failed attempt, the
    /// jitter picked by the given entropy.
    pub fn classify_retry_with_entropy(
        &self,
        attempts_completed: u32,
        error: &RuntimeError,
        entropy: u64,
    ) -> (r: RetryDecision)
        ensures
            r == retry_decision(*self, attempts_completed, error.retryable, entropy),
    {
        if !error.is_retryable() {
            return RetryDecision::stop();
        }
        if attempts_completed >= self.max_attempts {
            return RetryDecision::stop();
        }
        let base_delay = self.delay_ms_for_attempt(attempts_completed.saturating_sub(1));
        let next_delay = if !self.jitter || base_delay == 0 {
            base_delay
        } else {
            jitter_with_entropy(base_delay, self.max_delay_ms, entropy)
        };
        RetryDecision::retry_after(next_delay)
    }

    /// Decide whether the runtime should retry after a failed attempt; the
    /// jitter, when on, is picked by the system clock.
    pub fn classify_retry(&self, attempts_completed: u32, error: &RuntimeError) -> (r:
        RetryDecision)
        ensures
            exists|entropy: u64| r == retry_decision(*self, attempts_completed, error.retryable, entropy),
            !self.jitter ==> r == retry_decision(*self, attempts_completed, error.retryable, 0),
    {
        if !error.is_retryable() {
            let r = RetryDecision::stop();
            assert(r == retry_decision(*self, attempts_completed, error.retryable, 0));
            return r;
        }
        if attempts_completed >= self.max_attempts {
            let r = RetryDecision::stop();
            assert(r == retry_decision(*self, attempts_completed, error.retryable, 0));
            return r;
        }
        let base_delay = self.delay_ms_for_attempt(attempts_completed.saturating_sub(1));
        let next_delay = self.apply_jitter(base_delay);
        let r = RetryDecision::retry_after(next_delay);
        let ghost e = choose|e: u64| next_delay == applied_jitter(*self, base_delay, e);
        assert(r == retry_decision(*self, attempts_completed, error.retryable, e));
        assert(!self.jitter ==> r == retry_decision(*self, attempts_completed, error.retryable, 0));
        r
    }

    /// Apply ±30 % jitter to `delay_ms` when `self.jitter` is enabled.
    fn apply_jitter(&self, delay_ms: u64) -> (r: u64)
        ensures
            exists|entropy: u64| r == applied_jitter(*self, delay_ms, entropy),
            !self.jitter || delay_ms == 0 ==> r == delay_ms,
    {
        if !self.jitter || delay_ms == 0 {
            assert(delay_ms == applied_jitter(*self, delay_ms, 0));
            return delay_ms;
        }
        let entropy = clock_entropy();
        let r = jitter_with_entropy(delay_ms, self.max_delay_ms, entropy);
        assert(r == applied_jitter(*self, delay_ms, entropy));
        r
    }
}

/// Errors that are not retryable are never retried, and no attempt is made
/// beyond the attempt budget: a retry decision implies both conditions.
pub proof fn law_retry_requires_retryable_and_budget(
    p: RetryPolicy,
    attempts_completed: u32,
    retryable: bool,
    entropy: u64,
)
    ensures
        retry_decision(p, attempts_completed, retryable, entropy).should_retry <==> (retryable
            && attempts_completed < p.max_attempts),
        retry_decision(p, attempts_completed, retryable, entropy).should_retry
            <==> retry_decision(p, attempts_completed, retryable, entropy).next_delay_ms is Some,
{
}

/// A retry never waits longer than the policy's maximum delay.
pub proof fn law_retry_delay_capped(p: RetryPolicy, attempts_completed: u32, retryable: bool, entropy: u64)
    ensures
        retry_decision(p, attempts_completed, retryable, entropy).next_delay_ms matches Some(d)
            ==> d <= p.max_delay_ms,
{
}

/// Without jitter the delay is the deterministic backoff of the previous
/// attempt index, whatever the entropy.
pub proof fn law_retry_without_jitter(p: RetryPolicy, attempts_completed: u32, e1: u64, e2: u64)
    requires
        !p.jitter,
    ensures
        retry_decision(p, attempts_completed, true, e1) == retry_decision(
            p,
            attempts_completed,
            true,
            e2,
        ),
        attempts_completed < p.max_attempts ==> retry_decision(p, attempts_completed, true, e1)
            == retry_after_decision(
            backoff_delay(p.initial_delay_ms, p.max_delay_ms, previous_index(attempts_completed)),
        ),
{
}

/// Jitter keeps a delay within 70 % and 130 % of itself (rounded down), or
/// at the cap, when the scaled delay does not overflow.
pub proof fn law_jitter_within_thirty_percent(delay_ms: u64, max_delay_ms: u64, entropy: u64)
    requires
        delay_ms * 130 <= u64::MAX,
    ensures
        jitter_delay(delay_ms, max_delay_ms, entropy) <= max_delay_ms,
        jitter_delay(delay_ms, max_delay_ms, entropy) <= delay_ms * 130 / 100,
        jitter_delay(delay_ms, max_delay_ms, entropy) == max_delay_ms || jitter_delay(
            delay_ms,
            max_delay_ms,
            entropy,
        ) >= delay_ms * 70 / 100,
{
    let f = 70 + entropy % 61;
    assert(70 <= f <= 130);
    assert(delay_ms * 70 <= delay_ms * f <= delay_ms * 130) by (nonlinear_arith)
        requires
            70 <= f <= 130,
    ;
    assert(delay_ms * 70 / 100 <= delay_ms * f / 100 <= delay_ms * 130 / 100) by (nonlinear_arith)
        requires
            delay_ms * 70 <= delay_ms * f <= delay_ms * 130,
    ;
}

} // verus!
