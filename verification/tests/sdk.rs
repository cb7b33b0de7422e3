use hiero_runtime::bindings::{page_limit, parse_tinybar_string};
use hiero_runtime::config::{
    ConsensusNodeConfig, FinalityPolicy, NetworkConfig, NetworkKind, RetryPolicy, RuntimeConfig,
};
use hiero_runtime::error::{DetailValue, RuntimeErrorCode};
use hiero_runtime::sdk::{
    client_target, invalid_field_error, invalid_id_error, invalid_node_account_error,
    is_receipt_not_found_error, is_transient_error, map_schedule_sdk_error, map_sdk_error,
    operator_mismatch_error, operator_required_error, receipt_from_sdk, receipt_query_failure,
    sdk_status_to_string, signed_tinybars, ClientTarget,
};

fn base_config(kind: NetworkKind) -> RuntimeConfig {
    RuntimeConfig {
        network: NetworkConfig {
            kind,
            mirror_base_url: "https://testnet.mirrornode.hedera.com".to_string(),
            consensus_nodes: None,
        },
        operator: None,
        retry: RetryPolicy::default(),
        finality: FinalityPolicy::default(),
    }
}

#[test]
fn custom_network_without_consensus_nodes_returns_invalid_config() {
    let config = base_config(NetworkKind::Custom);
    let err = client_target(&config.network, "transaction submission")
        .expect_err("custom network without consensusNodes should fail");

    assert_eq!(err.code, RuntimeErrorCode::InvalidConfig);
    assert_eq!(err.message, "consensusNodes is required for custom network transaction submission");
    let d = err.details.expect("details");
    assert_eq!(d[0].key, "networkKind");
    assert_eq!(d[0].value, DetailValue::Text("custom".to_string()));
}

#[test]
fn custom_network_with_empty_consensus_nodes_returns_invalid_config() {
    let config = RuntimeConfig {
        network: NetworkConfig {
            kind: NetworkKind::Custom,
            mirror_base_url: "https://mirror.example.com".to_string(),
            consensus_nodes: Some(vec![]),
        },
        operator: None,
        retry: RetryPolicy::default(),
        finality: FinalityPolicy::default(),
    };

    let err = client_target(&config.network, "transaction submission")
        .expect_err("empty consensusNodes should fail");

    assert_eq!(err.code, RuntimeErrorCode::InvalidConfig);
    assert_eq!(err.message, "consensusNodes must not be empty for custom network");
}

#[test]
fn named_and_listed_networks_are_reachable() {
    assert_eq!(
        client_target(&base_config(NetworkKind::Testnet).network, "x").unwrap(),
        ClientTarget::Named("testnet")
    );
    assert_eq!(
        client_target(&base_config(NetworkKind::Mainnet).network, "x").unwrap(),
        ClientTarget::Named("mainnet")
    );
    assert_eq!(
        client_target(&base_config(NetworkKind::Previewnet).network, "x").unwrap(),
        ClientTarget::Named("previewnet")
    );
    let mut config = base_config(NetworkKind::Custom);
    config.network.consensus_nodes = Some(vec![ConsensusNodeConfig {
        url: "127.0.0.1:50211".to_string(),
        account_id: "0.0.3".to_string(),
    }]);
    assert_eq!(client_target(&config.network, "x").unwrap(), ClientTarget::Custom);
}

#[test]
fn status_names_are_screaming_snake_case() {
    assert_eq!(sdk_status_to_string("TransactionExpired"), "TRANSACTION_EXPIRED");
    assert_eq!(sdk_status_to_string("Success"), "SUCCESS");
    assert_eq!(sdk_status_to_string("Unknown"), "UNKNOWN");
    assert_eq!(sdk_status_to_string("InvalidSignature"), "INVALID_SIGNATURE");
    assert_eq!(sdk_status_to_string(""), "");
}

#[test]
fn sdk_error_classification() {
    assert!(is_receipt_not_found_error("receiptNotFound for tx"));
    assert!(is_receipt_not_found_error("status RECEIPT_NOT_FOUND"));
    assert!(!is_receipt_not_found_error("receipt not found"));
    assert!(is_transient_error("node is busy"));
    assert!(is_transient_error("request timed out"));
    assert!(!is_transient_error("INVALID_SIGNATURE"));

    let nf = map_sdk_error("failed to query transaction receipt", "ReceiptNotFound");
    assert_eq!((nf.code, nf.retryable), (RuntimeErrorCode::NotFound, false));
    assert_eq!(nf.message, "failed to query transaction receipt: ReceiptNotFound");

    let busy = map_sdk_error("failed to submit HBAR transfer", "BUSY");
    assert_eq!((busy.code, busy.retryable), (RuntimeErrorCode::Consensus, true));
    let d = busy.details.expect("details");
    assert_eq!(d[0].key, "sdkError");
    assert_eq!(d[0].value, DetailValue::Text("BUSY".to_string()));

    let other = map_sdk_error("ctx", "INVALID_SIGNATURE");
    assert_eq!((other.code, other.retryable), (RuntimeErrorCode::Consensus, false));

    let s = map_schedule_sdk_error("failed to sign schedule", "INVALID_SIGNATURE");
    assert_eq!((s.code, s.retryable), (RuntimeErrorCode::Schedule, false));
    assert_eq!(s.message, "failed to sign schedule: INVALID_SIGNATURE");
    let s = map_schedule_sdk_error("failed to sign schedule", "timeout");
    assert_eq!((s.code, s.retryable), (RuntimeErrorCode::Consensus, true));
}

#[test]
fn receipts_from_the_sdk() {
    let r = receipt_from_sdk("0.0.1@1.2", None, "Success");
    assert_eq!((r.transaction_id.as_str(), r.status.as_str()), ("0.0.1@1.2", "SUCCESS"));
    let r = receipt_from_sdk("0.0.1@1.2", Some("0.0.1@1.3".to_string()), "Busy");
    assert_eq!((r.transaction_id.as_str(), r.status.as_str()), ("0.0.1@1.3", "BUSY"));
    assert_eq!(receipt_query_failure("RECEIPT_NOT_FOUND").unwrap(), None);
    let e = receipt_query_failure("INVALID_TRANSACTION").unwrap_err();
    assert_eq!(e.message, "failed to query transaction receipt: INVALID_TRANSACTION");
    assert_eq!(e.code, RuntimeErrorCode::Consensus);
}

#[test]
fn refused_values_name_their_field() {
    let e = invalid_field_error("operator.accountId", "bad entity id");
    assert_eq!(e.message, "invalid operator.accountId: bad entity id");
    assert_eq!(e.details.unwrap()[0].value, DetailValue::Text("operator.accountId".to_string()));

    let e = invalid_id_error("transactionId", "oops", "x@y");
    let d = e.details.unwrap();
    assert_eq!(d.len(), 2);
    assert_eq!(d[1].key, "transactionId");
    assert_eq!(d[1].value, DetailValue::Text("x@y".to_string()));

    let e = invalid_node_account_error("bad", "0.0.x");
    assert_eq!(e.message, "invalid consensus node accountId: bad");
    assert_eq!(e.details.unwrap()[0].value, DetailValue::Text("consensusNodes[].accountId".to_string()));

    let e = operator_required_error();
    assert!(e.message.contains("operator credentials"));
    let e = operator_mismatch_error("0.0.1", "0.0.2");
    assert_eq!(e.details.unwrap()[1].value, DetailValue::Text("0.0.2".to_string()));
}

#[test]
fn tinybar_amounts() {
    assert_eq!(signed_tinybars(100).unwrap(), 100);
    assert_eq!(signed_tinybars(i64::MAX as u64).unwrap(), i64::MAX);
    let e = signed_tinybars(i64::MAX as u64 + 1).unwrap_err();
    assert_eq!(e.message, "amountTinybar exceeds the supported signed tinybar range");
    assert_eq!(e.details.unwrap()[0].value, DetailValue::Number(9223372036854775808));

    assert_eq!(parse_tinybar_string(" 250 ").unwrap(), 250);
    assert_eq!(parse_tinybar_string("+7").unwrap(), 7);
    let e = parse_tinybar_string("-1").unwrap_err();
    assert_eq!(e.code, RuntimeErrorCode::InvalidConfig);
    assert!(parse_tinybar_string("18446744073709551616").is_err());
    assert!(parse_tinybar_string("").is_err());

    assert_eq!(page_limit(None), 25);
    assert_eq!(page_limit(Some(3)), 3);
}
