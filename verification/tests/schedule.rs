use hiero_runtime::config::FinalityPolicy;
use hiero_runtime::dto::MirrorTransactionDto;
use hiero_runtime::error::{DetailValue, RuntimeError, RuntimeErrorCode};
use hiero_runtime::mirror::normalize_transaction_lookup;
use hiero_runtime::model::{ReceiptResult, ScheduleInfoView, ScheduleState, TransactionRef};
use hiero_runtime::schedule::{
    collect_key_strings, collect_keys_strings, created_schedule_ids, derive_schedule_state,
    format_optional_timestamp, format_timestamp, is_not_found_error, schedule_execution,
    schedule_info_view, schedule_info_view_at, schedule_query_failure, validate_schedule_id,
    CreateTransferRequest, KeyNode, ScheduleInfoParts, ScheduleRuntime, ScheduleWaitAction,
    SignScheduleRequest, Timestamp,
};
use hiero_runtime::tx::finalized_transaction;

const SCHEDULED_TX: &str = "0.0.1001@1719943901.123456789?scheduled";

fn policy() -> FinalityPolicy {
    FinalityPolicy { receipt_timeout_ms: 120, mirror_timeout_ms: 160, poll_interval_ms: 20 }
}

fn schedule_info(status: ScheduleState, scheduled_transaction_id: Option<&str>) -> ScheduleInfoView {
    ScheduleInfoView {
        schedule_id: "0.0.7001".to_string(),
        payer_account_id: Some("0.0.1001".to_string()),
        creator_account_id: Some("0.0.1001".to_string()),
        signatories: vec!["0.0.1001".to_string()],
        scheduled_transaction_id: scheduled_transaction_id.map(str::to_string),
        status,
        expiration_time: Some("1719944000.000000000".to_string()),
        executed_timestamp: match status {
            ScheduleState::Executed => Some("1719943902.000000000".to_string()),
            _ => None,
        },
        deletion_timestamp: None,
    }
}

fn ts(seconds: i64, nanos: u32) -> Timestamp {
    Timestamp { seconds, nanos }
}

#[test]
fn wait_for_execution_fails_when_schedule_expires() {
    let runtime = ScheduleRuntime::new(policy()).expect("runtime should build");
    let expired = schedule_info(ScheduleState::Expired, Some(SCHEDULED_TX));
    match runtime.wait_for_execution_step("0.0.7001", 0, Ok(expired)) {
        ScheduleWaitAction::Fail(err) => {
            assert_eq!(err.code, RuntimeErrorCode::Schedule);
            assert!(err.message.contains("expired before execution"));
            assert_eq!(err.message, "schedule 0.0.7001 expired before execution");
        }
        _ => panic!("expired schedule should fail"),
    }
}

#[test]
fn wait_for_execution_polls_schedule_and_then_uses_tx_runtime_finality() {
    let runtime = ScheduleRuntime::new(policy()).expect("runtime should build");
    let pending = schedule_info(ScheduleState::PendingSignatures, Some(SCHEDULED_TX));
    let executed = schedule_info(ScheduleState::Executed, Some(SCHEDULED_TX));
    assert!(matches!(
        runtime.wait_for_execution_step("0.0.7001", 0, Ok(pending)),
        ScheduleWaitAction::Sleep(20)
    ));
    let tx_id = match runtime.wait_for_execution_step("0.0.7001", 20, Ok(executed)) {
        ScheduleWaitAction::Finalize(tx) => tx,
        _ => panic!("an executed schedule moves on to finality"),
    };
    assert_eq!(tx_id, SCHEDULED_TX);

    let tx_ref = TransactionRef::parse(&tx_id).unwrap();
    assert!(tx_ref.scheduled);
    assert_eq!(tx_ref.to_mirror_path(), "/api/v1/transactions/0.0.1001-1719943901-123456789?scheduled=true");
    let lookup = normalize_transaction_lookup(
        &tx_ref,
        vec![MirrorTransactionDto {
            transaction_id: SCHEDULED_TX.to_string(),
            result: "SUCCESS".to_string(),
            consensus_timestamp: Some("1719943902.000000000".to_string()),
            name: Some("CRYPTOTRANSFER".to_string()),
            scheduled: None,
            nonce: None,
        }],
    );
    let receipt = ReceiptResult { transaction_id: SCHEDULED_TX.to_string(), status: "SUCCESS".to_string() };
    let finalized = finalized_transaction(&tx_id, receipt, lookup);
    let execution = schedule_execution("0.0.7001", tx_id, finalized);

    assert_eq!(execution.schedule_id, "0.0.7001");
    assert_eq!(execution.scheduled_transaction_id, SCHEDULED_TX);
    assert_eq!(execution.finalized.receipt.status, "SUCCESS");
    assert_eq!(
        execution.finalized.primary_mirror_entry.as_ref().expect("primary mirror entry should exist").result,
        "SUCCESS"
    );
}

#[test]
fn schedule_wait_steps_for_every_observation() {
    let runtime = ScheduleRuntime::new(policy()).unwrap();
    assert_eq!(runtime.wait_policy().mirror_timeout_ms, 160);
    let pending = schedule_info(ScheduleState::PendingSignatures, Some(SCHEDULED_TX));
    match runtime.wait_for_execution_step("0.0.7001", 160, Ok(pending)) {
        ScheduleWaitAction::Fail(e) => {
            assert_eq!(e.code, RuntimeErrorCode::Timeout);
            assert_eq!(e.message, "schedule 0.0.7001 did not execute within 160ms");
        }
        _ => panic!("pending past the timeout must fail"),
    }
    match runtime.wait_for_execution_step("0.0.7001", 0, Ok(schedule_info(ScheduleState::Executed, None))) {
        ScheduleWaitAction::Fail(e) => {
            assert_eq!(e.message, "schedule 0.0.7001 is executed but missing scheduledTransactionId")
        }
        _ => panic!("executed without a transaction id must fail"),
    }
    match runtime.wait_for_execution_step("0.0.7001", 0, Ok(schedule_info(ScheduleState::Deleted, None))) {
        ScheduleWaitAction::Fail(e) => assert_eq!(e.message, "schedule 0.0.7001 was deleted before execution"),
        _ => panic!("deleted must fail"),
    }
    let nf = RuntimeError::not_found("schedule 0.0.7001 not found");
    assert!(matches!(runtime.wait_for_execution_step("0.0.7001", 10, Err(nf)), ScheduleWaitAction::Sleep(20)));
    let nf = RuntimeError::not_found("schedule 0.0.7001 not found");
    match runtime.wait_for_execution_step("0.0.7001", 200, Err(nf)) {
        ScheduleWaitAction::Fail(e) => {
            assert_eq!(e.message, "schedule 0.0.7001 did not become observable within 160ms")
        }
        _ => panic!("unobservable past the timeout must fail"),
    }
    match runtime.wait_for_execution_step("0.0.7001", 0, Err(RuntimeError::invalid_config("bad"))) {
        ScheduleWaitAction::Fail(e) => assert_eq!(e.message, "bad"),
        _ => panic!("other errors end the wait"),
    }
    let bad = FinalityPolicy { receipt_timeout_ms: 1, mirror_timeout_ms: 0, poll_interval_ms: 1 };
    assert_eq!(
        ScheduleRuntime::new(bad).err().unwrap().message,
        "finality.mirrorTimeoutMs must be greater than zero"
    );
}

#[test]
fn schedule_requests_are_validated() {
    let ok = CreateTransferRequest {
        from_account_id: "0.0.1001".to_string(),
        to_account_id: "0.0.1002".to_string(),
        payer_account_id: Some("0.0.1001".to_string()),
        amount_tinybar: 100,
        memo: Some("ops payout".to_string()),
    };
    assert!(ok.validate().is_ok());
    let mut r = ok.clone();
    r.payer_account_id = Some("  ".to_string());
    assert_eq!(r.validate().unwrap_err().message, "payerAccountId must not be empty when provided");
    let mut r = ok.clone();
    r.payer_account_id = None;
    r.amount_tinybar = 0;
    assert_eq!(r.validate().unwrap_err().message, "amountTinybar must be greater than zero");

    let sign = SignScheduleRequest { schedule_id: "0.0.7001".to_string(), signer_private_key: "302e...".to_string() };
    assert!(sign.validate().is_ok());
    let mut s = sign.clone();
    s.signer_private_key = String::new();
    assert_eq!(s.validate().unwrap_err().message, "signerPrivateKey must not be empty");
    let e = validate_schedule_id(" ").unwrap_err();
    assert_eq!((e.code, e.message.as_str()), (RuntimeErrorCode::InvalidConfig, "scheduleId must not be empty"));
}

#[test]
fn schedule_state_follows_the_reported_times() {
    let now = ts(1719943950, 0);
    assert_eq!(derive_schedule_state(Some(ts(1, 0)), Some(ts(2, 0)), None, now), ScheduleState::Executed);
    assert_eq!(derive_schedule_state(None, Some(ts(2, 0)), None, now), ScheduleState::Deleted);
    assert_eq!(derive_schedule_state(None, None, Some(ts(1719943949, 999_999_999)), now), ScheduleState::Expired);
    assert_eq!(derive_schedule_state(None, None, Some(ts(1719943950, 0)), now), ScheduleState::PendingSignatures);
    assert_eq!(derive_schedule_state(None, None, None, now), ScheduleState::PendingSignatures);
}

#[test]
fn timestamps_are_seconds_dot_nine_digit_nanos() {
    assert_eq!(format_timestamp(ts(1719943902, 0)), "1719943902.000000000");
    assert_eq!(format_timestamp(ts(1719943901, 123456789)), "1719943901.123456789");
    assert_eq!(format_timestamp(ts(-5, 42)), "-5.000000042");
    assert_eq!(format_optional_timestamp(None), None);
    assert_eq!(format_optional_timestamp(Some(ts(0, 1))), Some("0.000000001".to_string()));
}

#[test]
fn signatories_are_collected_depth_first() {
    let key = KeyNode::List(vec![
        KeyNode::Single("a".to_string()),
        KeyNode::Other,
        KeyNode::List(vec![KeyNode::Single("b".to_string()), KeyNode::Single("c".to_string())]),
        KeyNode::Single("d".to_string()),
    ]);
    assert_eq!(collect_key_strings(&key), vec!["a", "b", "c", "d"]);
    assert!(collect_key_strings(&KeyNode::Other).is_empty());
    assert!(collect_keys_strings(&vec![]).is_empty());
}

fn parts() -> ScheduleInfoParts {
    ScheduleInfoParts {
        schedule_id: "0.0.7001".to_string(),
        payer_account_id: None,
        creator_account_id: "0.0.1001".to_string(),
        signatories: vec![KeyNode::Single("0.0.1001".to_string())],
        scheduled_transaction_id: SCHEDULED_TX.to_string(),
        expiration_time: Some(ts(1719944000, 0)),
        executed_at: None,
        deleted_at: None,
    }
}

#[test]
fn schedule_info_is_summarized() {
    let v = schedule_info_view_at(parts(), ts(1719943950, 0));
    assert_eq!(v.schedule_id, "0.0.7001");
    assert_eq!(v.creator_account_id.as_deref(), Some("0.0.1001"));
    assert_eq!(v.signatories, vec!["0.0.1001".to_string()]);
    assert_eq!(v.status, ScheduleState::PendingSignatures);
    assert_eq!(v.expiration_time.as_deref(), Some("1719944000.000000000"));
    assert_eq!(v.executed_timestamp, None);
    let v = schedule_info_view_at(parts(), ts(1719944001, 0));
    assert_eq!(v.status, ScheduleState::Expired);
    let mut p = parts();
    p.expiration_time = None;
    let v = schedule_info_view(p);
    assert_eq!(v.status, ScheduleState::PendingSignatures);
    assert_eq!(v.scheduled_transaction_id.as_deref(), Some(SCHEDULED_TX));
}

#[test]
fn schedule_query_errors() {
    assert!(is_not_found_error("INVALID_SCHEDULE_ID"));
    assert!(is_not_found_error("schedule_deleted"));
    assert!(!is_not_found_error("BUSY"));
    let e = schedule_query_failure("0.0.7001", "status: INVALID_SCHEDULE_ID");
    assert_eq!(e.code, RuntimeErrorCode::NotFound);
    assert_eq!(e.message, "schedule 0.0.7001 not found");
    assert_eq!(e.details.unwrap()[0].value, DetailValue::Text("0.0.7001".to_string()));
    let e = schedule_query_failure("0.0.7001", "BUSY");
    assert_eq!((e.code, e.retryable), (RuntimeErrorCode::Consensus, true));
    assert_eq!(e.message, "failed to query schedule info: BUSY");
}

#[test]
fn created_schedule_needs_both_ids() {
    let (s, t) = created_schedule_ids(Some("0.0.7001".to_string()), Some(SCHEDULED_TX.to_string())).unwrap();
    assert_eq!((s.as_str(), t.as_str()), ("0.0.7001", SCHEDULED_TX));
    let e = created_schedule_ids(None, None).unwrap_err();
    assert_eq!(e.message, "ScheduleCreateTransaction receipt missing scheduleId");
    let e = created_schedule_ids(Some("0.0.7001".to_string()), None).unwrap_err();
    assert_eq!((e.code, e.message.as_str()), (RuntimeErrorCode::Schedule, "ScheduleCreateTransaction receipt missing scheduledTransactionId"));
}
