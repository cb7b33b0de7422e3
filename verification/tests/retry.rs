use hiero_runtime::config::RetryPolicy;
use hiero_runtime::error::{RuntimeError, RuntimeErrorCode};
use hiero_runtime::retry::{jitter_with_entropy, RetryDecision};

#[test]
fn non_retryable_errors_stop_immediately() {
    let policy = RetryPolicy::default();
    let err = RuntimeError::new(RuntimeErrorCode::InvalidConfig, "bad config");

    let decision = policy.classify_retry(1, &err);

    assert_eq!(
        decision,
        RetryDecision {
            should_retry: false,
            next_delay_ms: None
        }
    );
}

#[test]
fn retryable_errors_retry_until_attempt_budget_is_exhausted() {
    let policy = RetryPolicy {
        max_attempts: 3,
        initial_delay_ms: 100,
        max_delay_ms: 1_000,
        jitter: false,
    };
    let err = RuntimeError::new(RuntimeErrorCode::Transport, "temporary network failure");

    let first = policy.classify_retry(1, &err);
    let second = policy.classify_retry(2, &err);
    let third = policy.classify_retry(3, &err);

    assert_eq!(
        first,
        RetryDecision {
            should_retry: true,
            next_delay_ms: Some(100)
        }
    );
    assert_eq!(
        second,
        RetryDecision {
            should_retry: true,
            next_delay_ms: Some(200)
        }
    );
    assert_eq!(
        third,
        RetryDecision {
            should_retry: false,
            next_delay_ms: None
        }
    );
}

#[test]
fn decision_constructors() {
    assert_eq!(RetryDecision::stop(), RetryDecision { should_retry: false, next_delay_ms: None });
    assert_eq!(RetryDecision::retry_after(7), RetryDecision { should_retry: true, next_delay_ms: Some(7) });
}

#[test]
fn jitter_scales_between_seventy_and_one_thirty_percent() {
    // 70 + entropy % 61 percent, capped at the maximum.
    assert_eq!(jitter_with_entropy(1_000, 10_000, 0), 700);
    assert_eq!(jitter_with_entropy(1_000, 10_000, 60), 1_300);
    assert_eq!(jitter_with_entropy(1_000, 10_000, 61), 700);
    assert_eq!(jitter_with_entropy(1_000, 1_100, 60), 1_100);
    assert_eq!(jitter_with_entropy(u64::MAX, u64::MAX, 60), u64::MAX / 100);
}

#[test]
fn jittered_decisions_stay_within_bounds() {
    let policy = RetryPolicy { max_attempts: 5, initial_delay_ms: 1_000, max_delay_ms: 1_200, jitter: true };
    let err = RuntimeError::transport("reset");
    for _ in 0..20 {
        let d = policy.classify_retry(1, &err);
        assert!(d.should_retry);
        let ms = d.next_delay_ms.expect("a retry carries a delay");
        assert!(ms >= 700 && ms <= 1_200, "delay {ms} out of bounds");
    }
    let with_entropy = policy.classify_retry_with_entropy(2, &err, 30);
    assert_eq!(with_entropy, RetryDecision { should_retry: true, next_delay_ms: Some(1_200) });
    assert_eq!(policy.classify_retry(5, &err), RetryDecision::stop());
}

#[test]
fn first_attempt_of_zero_waits_the_initial_delay() {
    let policy = RetryPolicy { max_attempts: 2, initial_delay_ms: 40, max_delay_ms: 100, jitter: false };
    let err = RuntimeError::new(RuntimeErrorCode::RateLimited, "slow down");
    assert_eq!(policy.classify_retry(0, &err), RetryDecision::retry_after(40));
}
