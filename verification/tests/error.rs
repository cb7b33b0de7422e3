use hiero_runtime::error::{DetailEntry, DetailValue, RuntimeError, RuntimeErrorCode};

#[test]
fn retryable_classification_is_stable() {
    assert!(RuntimeError::new(RuntimeErrorCode::Transport, "network issue").is_retryable());
    assert!(RuntimeError::new(RuntimeErrorCode::Timeout, "timed out").is_retryable());
    assert!(RuntimeError::new(RuntimeErrorCode::RateLimited, "back off").is_retryable());

    assert!(!RuntimeError::new(RuntimeErrorCode::InvalidConfig, "bad config").is_retryable());
    assert!(!RuntimeError::new(RuntimeErrorCode::NotFound, "missing").is_retryable());
    assert!(!RuntimeError::new(RuntimeErrorCode::Internal, "bug").is_retryable());
}

#[test]
fn display_contains_message_and_code() {
    let err = RuntimeError::timeout("mirror polling exceeded timeout");
    let display = err.to_string();

    assert!(display.contains("mirror polling exceeded timeout"));
    assert!(display.contains("Timeout"));
}

#[test]
fn display_is_message_then_code_in_brackets() {
    let err = RuntimeError::invalid_config("bad");
    assert_eq!(err.to_string(), "bad (InvalidConfig)");
    assert_eq!(RuntimeError::internal("x").to_string(), "x (Internal)");
}

#[test]
fn constructors_keep_code_message_and_details() {
    let err = RuntimeError::with_details(
        RuntimeErrorCode::MirrorHttp,
        "mirror request failed",
        vec![DetailEntry::number("status", 503), DetailEntry::text("endpoint", "/api/v1/transactions")],
    );
    assert_eq!(err.code, RuntimeErrorCode::MirrorHttp);
    assert_eq!(err.message, "mirror request failed");
    assert!(!err.retryable);
    let details = err.details.expect("details are kept");
    assert_eq!(details.len(), 2);
    assert_eq!(details[0].key, "status");
    assert_eq!(details[0].value, DetailValue::Number(503));
    assert_eq!(details[1].value, DetailValue::Text("/api/v1/transactions".to_string()));

    let forced = RuntimeError::with_retryable(RuntimeErrorCode::Consensus, "busy", true);
    assert!(forced.is_retryable());
    assert!(forced.details.is_none());

    let forced = RuntimeError::with_retryable_and_details(RuntimeErrorCode::Timeout, "slow", false, vec![]);
    assert!(!forced.is_retryable());
    assert_eq!(forced.details, Some(vec![]));

    assert_eq!(RuntimeError::not_found("m").code, RuntimeErrorCode::NotFound);
    assert!(RuntimeError::transport("t").is_retryable());
    assert!(RuntimeError::invalid_config("network.mirrorBaseUrl must not be empty").details.is_none());
}
