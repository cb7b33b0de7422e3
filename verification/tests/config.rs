use hiero_runtime::config::{
    FinalityPolicy, NetworkConfig, NetworkKind, OperatorConfig, RetryPolicy, RuntimeConfig,
};

fn config_with(mirror_base_url: &str, operator: Option<OperatorConfig>) -> RuntimeConfig {
    RuntimeConfig {
        network: NetworkConfig {
            kind: NetworkKind::Custom,
            mirror_base_url: mirror_base_url.to_string(),
            consensus_nodes: None,
        },
        operator,
        retry: RetryPolicy::default(),
        finality: FinalityPolicy::default(),
    }
}

#[test]
fn runtime_config_validation_rejects_empty_mirror_url() {
    let config = RuntimeConfig {
        network: NetworkConfig {
            kind: NetworkKind::Custom,
            mirror_base_url: "".to_string(),
            consensus_nodes: None,
        },
        operator: None,
        retry: RetryPolicy::default(),
        finality: FinalityPolicy::default(),
    };

    let err = config.validate().expect_err("empty mirror URL must fail");
    assert_eq!(err, "network.mirrorBaseUrl must not be empty");
}

#[test]
fn retry_policy_validation_rejects_bad_bounds() {
    let policy = RetryPolicy {
        max_attempts: 3,
        initial_delay_ms: 2_000,
        max_delay_ms: 1_000,
        jitter: false,
    };

    let err = policy.validate().expect_err("initial > max must fail");
    assert_eq!(
        err,
        "retry.initialDelayMs must be less than or equal to retry.maxDelayMs"
    );
}

#[test]
fn finality_policy_validation_rejects_zero_poll_interval() {
    let policy = FinalityPolicy {
        receipt_timeout_ms: 1_000,
        mirror_timeout_ms: 1_000,
        poll_interval_ms: 0,
    };

    let err = policy.validate().expect_err("zero poll interval must fail");
    assert_eq!(err, "finality.pollIntervalMs must be greater than zero");
}

#[test]
fn delay_ms_for_attempt_is_exponential_and_capped() {
    let policy = RetryPolicy {
        max_attempts: 8,
        initial_delay_ms: 100,
        max_delay_ms: 500,
        jitter: true,
    };

    assert_eq!(policy.delay_ms_for_attempt(0), 100);
    assert_eq!(policy.delay_ms_for_attempt(1), 200);
    assert_eq!(policy.delay_ms_for_attempt(2), 400);
    assert_eq!(policy.delay_ms_for_attempt(3), 500);
    assert_eq!(policy.delay_ms_for_attempt(10), 500);
}

#[test]
fn delay_helper_caps_at_max_delay() {
    let policy = RetryPolicy {
        max_attempts: 10,
        initial_delay_ms: 250,
        max_delay_ms: 1_000,
        jitter: true,
    };

    assert_eq!(policy.delay_ms_for_attempt(0), 250);
    assert_eq!(policy.delay_ms_for_attempt(1), 500);
    assert_eq!(policy.delay_ms_for_attempt(2), 1_000);
    assert_eq!(policy.delay_ms_for_attempt(6), 1_000);
}

#[test]
fn default_policies_hold_documented_values() {
    let retry = RetryPolicy::default();
    assert_eq!(retry.max_attempts, 8);
    assert_eq!(retry.initial_delay_ms, 250);
    assert_eq!(retry.max_delay_ms, 3_000);
    assert!(retry.jitter);
    assert_eq!(retry.validate(), Ok(()));

    let finality = FinalityPolicy::default();
    assert_eq!(finality.receipt_timeout_ms, 15_000);
    assert_eq!(finality.mirror_timeout_ms, 20_000);
    assert_eq!(finality.poll_interval_ms, 500);
    assert_eq!(finality.validate(), Ok(()));
}

#[test]
fn retry_policy_validation_reports_each_zero_field() {
    let mut p = RetryPolicy { max_attempts: 0, initial_delay_ms: 1, max_delay_ms: 1, jitter: false };
    assert_eq!(p.validate(), Err("retry.maxAttempts must be greater than zero".to_string()));
    p.max_attempts = 1;
    p.initial_delay_ms = 0;
    assert_eq!(p.validate(), Err("retry.initialDelayMs must be greater than zero".to_string()));
    p.initial_delay_ms = 1;
    p.max_delay_ms = 0;
    assert_eq!(p.validate(), Err("retry.maxDelayMs must be greater than zero".to_string()));
}

#[test]
fn finality_policy_validation_reports_zero_timeouts() {
    let p = FinalityPolicy { receipt_timeout_ms: 0, mirror_timeout_ms: 0, poll_interval_ms: 0 };
    assert_eq!(p.validate(), Err("finality.receiptTimeoutMs must be greater than zero".to_string()));
    let p = FinalityPolicy { receipt_timeout_ms: 1, mirror_timeout_ms: 0, poll_interval_ms: 0 };
    assert_eq!(p.validate(), Err("finality.mirrorTimeoutMs must be greater than zero".to_string()));
}

#[test]
fn runtime_config_validation_checks_operator_and_blank_url() {
    assert_eq!(
        config_with(" \t\n", None).validate(),
        Err("network.mirrorBaseUrl must not be empty".to_string())
    );
    let blank_account = OperatorConfig { account_id: "  ".to_string(), private_key: "302e".to_string() };
    assert_eq!(
        config_with("https://mirror", Some(blank_account)).validate(),
        Err("operator.accountId must not be empty".to_string())
    );
    let blank_key = OperatorConfig { account_id: "0.0.2".to_string(), private_key: "\u{3000}".to_string() };
    assert_eq!(
        config_with("https://mirror", Some(blank_key)).validate(),
        Err("operator.privateKey must not be empty".to_string())
    );
    let good = OperatorConfig { account_id: "0.0.2".to_string(), private_key: "302e".to_string() };
    assert_eq!(config_with("https://mirror", Some(good)).validate(), Ok(()));
}

#[test]
fn runtime_config_validation_checks_retry_before_finality() {
    let mut config = config_with("https://mirror", None);
    config.retry.max_attempts = 0;
    config.finality.poll_interval_ms = 0;
    assert_eq!(config.validate(), Err("retry.maxAttempts must be greater than zero".to_string()));
    config.retry.max_attempts = 1;
    assert_eq!(config.validate(), Err("finality.pollIntervalMs must be greater than zero".to_string()));
}

#[test]
fn backoff_doubles_then_saturates() {
    let policy = RetryPolicy { max_attempts: 1, initial_delay_ms: 3, max_delay_ms: u64::MAX, jitter: false };
    assert_eq!(policy.delay_ms_for_attempt(0), 3);
    assert_eq!(policy.delay_ms_for_attempt(4), 48);
    assert_eq!(policy.delay_ms_for_attempt(62), 13835058055282163712);
    assert_eq!(policy.delay_ms_for_attempt(63), u64::MAX);
    assert_eq!(policy.delay_ms_for_attempt(u32::MAX), u64::MAX);
    let one = RetryPolicy { max_attempts: 1, initial_delay_ms: 1, max_delay_ms: u64::MAX, jitter: false };
    assert_eq!(one.delay_ms_for_attempt(63), 1u64 << 63);
    assert_eq!(one.delay_ms_for_attempt(200), 1u64 << 63);
}
