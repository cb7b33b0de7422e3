use hiero_runtime::config::{FinalityPolicy, RetryPolicy};
use hiero_runtime::dto::{
    MirrorAccountBalanceDto, MirrorAccountDto, MirrorContractResultDto, MirrorLinksDto,
    MirrorTransactionDto, MirrorTransactionsResponseDto,
};
use hiero_runtime::error::{DetailValue, RuntimeError, RuntimeErrorCode};
use hiero_runtime::mirror::{
    account_path, contract_result_path, list_transactions_path, lookup_from_entries,
    map_deserialize_error, map_http_status, map_transport_error, mirror_wait_step,
    normalize_transaction_lookup, transaction_page, MirrorClient, TransactionLookup,
};
use hiero_runtime::model::{ContractResultView, MirrorAccountView, TransactionRef};
use hiero_runtime::poll::PollAction;

fn dto(result: &str, ts: &str, scheduled: Option<bool>) -> MirrorTransactionDto {
    MirrorTransactionDto {
        transaction_id: "0.0.1001@1719943901.123456789".to_string(),
        result: result.to_string(),
        consensus_timestamp: Some(ts.to_string()),
        name: Some("CRYPTOTRANSFER".to_string()),
        scheduled,
        nonce: None,
    }
}

#[test]
fn normalize_transaction_lookup_selects_primary_by_scheduled_flag() {
    let tx_ref = TransactionRef::parse("0.0.1001@1719943901.123456789").unwrap();
    let lookup = normalize_transaction_lookup(
        &tx_ref,
        vec![
            MirrorTransactionDto {
                transaction_id: "0.0.1001@1719943901.123456789".to_string(),
                result: "SUCCESS".to_string(),
                consensus_timestamp: Some("1719943901.111111111".to_string()),
                name: Some("CRYPTOTRANSFER".to_string()),
                scheduled: Some(false),
                nonce: None,
            },
            MirrorTransactionDto {
                transaction_id: "0.0.1001@1719943901.123456789".to_string(),
                result: "DUPLICATE_TRANSACTION".to_string(),
                consensus_timestamp: Some("1719943901.222222222".to_string()),
                name: Some("CRYPTOTRANSFER".to_string()),
                scheduled: Some(false),
                nonce: None,
            },
        ],
    );

    assert_eq!(
        lookup.requested_transaction_id,
        "0.0.1001@1719943901.123456789"
    );
    assert_eq!(lookup.primary.result, "SUCCESS");
    assert_eq!(lookup.duplicates.len(), 1);
    assert_eq!(lookup.entries.len(), 2);
    assert!(lookup.has_duplicates());
}

#[test]
fn normalize_transaction_lookup_selects_scheduled_entry_as_primary() {
    let tx_ref =
        TransactionRef::parse("0.0.1001@1719943901.123456789?scheduled").unwrap();
    let lookup = normalize_transaction_lookup(
        &tx_ref,
        vec![
            MirrorTransactionDto {
                transaction_id: "0.0.1001@1719943901.123456789".to_string(),
                result: "FEE_SCHEDULE_CHANGE_NOT_AUTHORIZED".to_string(),
                consensus_timestamp: Some("1719943901.000000001".to_string()),
                name: Some("CRYPTOTRANSFER".to_string()),
                scheduled: Some(false),
                nonce: None,
            },
            MirrorTransactionDto {
                transaction_id: "0.0.1001@1719943901.123456789".to_string(),
                result: "SUCCESS".to_string(),
                consensus_timestamp: Some("1719943901.111111111".to_string()),
                name: Some("CRYPTOTRANSFER".to_string()),
                scheduled: Some(true),
                nonce: None,
            },
        ],
    );

    assert_eq!(
        lookup.requested_transaction_id,
        "0.0.1001@1719943901.123456789?scheduled"
    );
    // The scheduled entry (index 1) must be selected as primary.
    assert_eq!(lookup.primary.result, "SUCCESS");
    assert_eq!(lookup.primary.scheduled, Some(true));
    assert_eq!(lookup.duplicates.len(), 1);
}

#[test]
fn lookup_without_match_takes_first_entry_and_keeps_order() {
    let tx_ref = TransactionRef::parse("t?nonce=9").unwrap();
    let lookup = normalize_transaction_lookup(
        &tx_ref,
        vec![dto("A", "1", None), dto("B", "2", Some(true)), dto("C", "3", None)],
    );
    assert_eq!(lookup.primary.result, "A");
    let rest: Vec<&str> = lookup.duplicates.iter().map(|d| d.result.as_str()).collect();
    assert_eq!(rest, vec!["B", "C"]);
    let all: Vec<&str> = lookup.entries.iter().map(|d| d.result.as_str()).collect();
    assert_eq!(all, vec!["A", "B", "C"]);

    let single = normalize_transaction_lookup(&tx_ref, vec![dto("A", "1", None)]);
    assert!(!single.has_duplicates());
}

#[test]
fn empty_lookup_is_not_found() {
    let tx_ref = TransactionRef::parse("0.0.5@1.2?scheduled").unwrap();
    let err = lookup_from_entries(&tx_ref, vec![]).unwrap_err();
    assert_eq!(err.code, RuntimeErrorCode::NotFound);
    assert_eq!(err.message, "mirror transaction lookup returned no records for 0.0.5@1.2?scheduled");
    let ok = lookup_from_entries(&tx_ref, vec![dto("SUCCESS", "1", Some(true))]).unwrap();
    assert_eq!(ok.primary.result, "SUCCESS");
}

#[test]
fn client_strips_trailing_slashes_and_refuses_empty_url() {
    let c = MirrorClient::new("https://mirror.example//", RetryPolicy::default()).unwrap();
    assert_eq!(c.base_url(), "https://mirror.example");
    assert_eq!(c.url_for("/api/v1/accounts/0.0.2"), "https://mirror.example/api/v1/accounts/0.0.2");
    assert_eq!(c.retry().max_attempts, 8);
    let err = MirrorClient::new("///", RetryPolicy::default()).err().unwrap();
    assert_eq!(err.code, RuntimeErrorCode::InvalidConfig);
    assert_eq!(err.message, "mirror base URL must not be empty");
}

#[test]
fn retry_loop_counts_attempts() {
    let policy = RetryPolicy { max_attempts: 3, initial_delay_ms: 10, max_delay_ms: 20, jitter: false };
    let c = MirrorClient::new("http://m", policy).unwrap();
    let limited = map_http_status(429, "/p");
    let (a, d) = c.next_retry(0, &limited);
    assert_eq!(a, 1);
    assert_eq!(d.next_delay_ms, Some(10));
    let (a, d) = c.next_retry(a, &limited);
    assert_eq!((a, d.next_delay_ms), (2, Some(20)));
    let (a, d) = c.next_retry(a, &limited);
    assert_eq!((a, d.should_retry), (3, false));
    let (_, d) = c.next_retry(0, &map_http_status(404, "/p"));
    assert!(!d.should_retry);
}

#[test]
fn request_paths() {
    assert_eq!(account_path("0.0.98").unwrap(), "/api/v1/accounts/0.0.98");
    assert_eq!(account_path(" ").unwrap_err().message, "account id must not be empty");
    assert_eq!(contract_result_path("0xabc", None).unwrap(), "/api/v1/contracts/results/0xabc");
    assert_eq!(contract_result_path("0xabc", Some(-1)).unwrap(), "/api/v1/contracts/results/0xabc?nonce=-1");
    assert_eq!(contract_result_path("", Some(1)).unwrap_err().message, "transactionIdOrHash must not be empty");
    assert_eq!(
        list_transactions_path("0.0.98", 25, None).unwrap(),
        "/api/v1/transactions?account.id=0.0.98&limit=25&order=desc"
    );
    assert_eq!(
        list_transactions_path("0.0.98", 25, Some("  ")).unwrap(),
        "/api/v1/transactions?account.id=0.0.98&limit=25&order=desc"
    );
    assert_eq!(
        list_transactions_path("0.0.98", 25, Some("/api/v1/transactions?timestamp=lt:1")).unwrap(),
        "/api/v1/transactions?timestamp=lt:1"
    );
    assert_eq!(list_transactions_path("", 1, None).unwrap_err().message, "accountId must not be empty");
}

#[test]
fn http_status_mapping() {
    let e = map_http_status(404, "/x");
    assert_eq!((e.code, e.retryable), (RuntimeErrorCode::NotFound, false));
    assert_eq!(e.message, "mirror resource not found at /x");
    let d = e.details.unwrap();
    assert_eq!(d[0].key, "path");
    assert_eq!(d[0].value, DetailValue::Text("/x".to_string()));
    assert_eq!(d[1].key, "status");
    assert_eq!(d[1].value, DetailValue::Number(404));
    let e = map_http_status(429, "/x");
    assert_eq!((e.code, e.retryable), (RuntimeErrorCode::RateLimited, true));
    assert_eq!(e.message, "mirror rate limited request to /x");
    let e = map_http_status(503, "/x");
    assert_eq!((e.code, e.retryable), (RuntimeErrorCode::MirrorHttp, true));
    assert_eq!(e.message, "mirror server error on /x");
    let e = map_http_status(400, "/x");
    assert_eq!((e.code, e.retryable), (RuntimeErrorCode::MirrorHttp, false));
    assert_eq!(e.message, "mirror http error on /x");
    let e = map_http_status(600, "/x");
    assert!(!e.retryable);
}

#[test]
fn transport_and_body_error_mapping() {
    let e = map_transport_error(true, "deadline", "/p");
    assert_eq!((e.code, e.retryable), (RuntimeErrorCode::Timeout, true));
    assert_eq!(e.message, "mirror request timed out: deadline");
    let e = map_transport_error(false, "refused", "/p");
    assert_eq!((e.code, e.retryable), (RuntimeErrorCode::Transport, true));
    assert_eq!(e.message, "mirror transport error: refused");
    let e = map_deserialize_error("eof", "/p");
    assert_eq!((e.code, e.retryable), (RuntimeErrorCode::Serialization, false));
    assert_eq!(e.message, "failed to deserialize mirror response: eof");
    assert_eq!(e.details.unwrap()[0].value, DetailValue::Text("/p".to_string()));
}

fn finality() -> FinalityPolicy {
    FinalityPolicy { receipt_timeout_ms: 500, mirror_timeout_ms: 120, poll_interval_ms: 20 }
}

fn found() -> TransactionLookup {
    let tx_ref = TransactionRef::parse("0.0.1001@1719943901.123456789").unwrap();
    normalize_transaction_lookup(&tx_ref, vec![dto("SUCCESS", "1719943901.333333333", None)])
}

#[test]
fn wait_for_transaction_polls_until_visible_after_not_found() {
    let tx_ref = TransactionRef::parse("0.0.1001@1719943901.123456789").unwrap();
    let policy = finality();
    let nf = || Err(map_http_status(404, "/api/v1/transactions/0.0.1001-1719943901-123456789"));
    assert!(matches!(mirror_wait_step(&tx_ref, &policy, 0, nf()), PollAction::Sleep(20)));
    assert!(matches!(mirror_wait_step(&tx_ref, &policy, 20, nf()), PollAction::Sleep(20)));
    match mirror_wait_step(&tx_ref, &policy, 40, Ok(found())) {
        PollAction::Done(Ok(l)) => assert_eq!(l.primary.result, "SUCCESS"),
        _ => panic!("lookup must end the wait"),
    }
}

#[test]
fn wait_for_transaction_times_out_when_never_visible() {
    let tx_ref = TransactionRef::parse("0.0.1001@1719943901.123456789").unwrap();
    let policy = finality();
    match mirror_wait_step(&tx_ref, &policy, 120, Err(map_http_status(404, "/p"))) {
        PollAction::Done(Err(err)) => {
            assert_eq!(err.code, RuntimeErrorCode::Timeout);
            assert!(err.message.contains("not visible within"));
            assert_eq!(
                err.message,
                "mirror transaction 0.0.1001@1719943901.123456789 not visible within 120ms"
            );
        }
        _ => panic!("the wait must time out"),
    }
    match mirror_wait_step(&tx_ref, &policy, 0, Err(RuntimeError::invalid_config("bad"))) {
        PollAction::Done(Err(err)) => assert_eq!(err.message, "bad"),
        _ => panic!("other errors end the wait"),
    }
}

#[test]
fn transaction_page_keeps_items_and_cursor() {
    let page = transaction_page(MirrorTransactionsResponseDto {
        transactions: vec![dto("A", "1", None), dto("B", "2", None)],
        links: Some(MirrorLinksDto { next: Some("/next".to_string()) }),
    });
    assert_eq!(page.items.len(), 2);
    assert_eq!(page.items[1].result, "B");
    assert_eq!(page.next_cursor.as_deref(), Some("/next"));
    let page = transaction_page(MirrorTransactionsResponseDto { transactions: vec![], links: None });
    assert!(page.items.is_empty());
    assert_eq!(page.next_cursor, None);
}

#[test]
fn account_and_contract_responses_normalize() {
    let view = MirrorAccountView::try_from(MirrorAccountDto {
        account: "0.0.98".to_string(),
        balance: Some(MirrorAccountBalanceDto { balance: -42 }),
        evm_address: None,
        deleted: false,
        memo: "m".to_string(),
    })
    .unwrap();
    assert_eq!(view.balance, "-42");
    assert_eq!(view.account, "0.0.98");
    let view = MirrorAccountView::try_from(MirrorAccountDto {
        account: "0.0.98".to_string(),
        balance: None,
        evm_address: Some("0x1".to_string()),
        deleted: true,
        memo: String::new(),
    })
    .unwrap();
    assert_eq!(view.balance, "0");
    let err = MirrorAccountView::try_from(MirrorAccountDto {
        account: String::new(),
        balance: None,
        evm_address: None,
        deleted: false,
        memo: String::new(),
    })
    .unwrap_err();
    assert_eq!(err.code, RuntimeErrorCode::Serialization);
    assert_eq!(err.message, "mirror account response missing required field: account");

    let full = MirrorContractResultDto {
        contract_id: Some("0.0.5".to_string()),
        transaction_id: Some("t".to_string()),
        result: Some("SUCCESS".to_string()),
        status: Some("0x1".to_string()),
        gas_used: Some(21000),
        error_message: None,
        call_result: Some("0x".to_string()),
        from: None,
        to: None,
    };
    let view = ContractResultView::try_from(full).unwrap();
    assert_eq!(view.gas_used, "21000");
    assert_eq!(view.transaction_id, "t");
    let missing = MirrorContractResultDto {
        contract_id: None,
        transaction_id: Some("t".to_string()),
        result: None,
        status: None,
        gas_used: None,
        error_message: None,
        call_result: None,
        from: None,
        to: None,
    };
    let err = ContractResultView::try_from(missing).unwrap_err();
    assert_eq!(err.message, "mirror contract result response missing required field: result");
}

const TX_ID: &str = "0.0.1001@1719943901.123456789";
const TX_PATH: &str = "/api/v1/transactions/0.0.1001-1719943901-123456789";

fn test_retry_policy() -> RetryPolicy {
    RetryPolicy { max_attempts: 3, initial_delay_ms: 10, max_delay_ms: 20, jitter: false }
}

#[test]
fn get_transaction_normalizes_primary_and_duplicates() {
    let client = MirrorClient::new("http://127.0.0.1:9", test_retry_policy()).expect("client must build");
    let tx_ref = TransactionRef::parse(TX_ID).unwrap();
    assert_eq!(client.url_for(tx_ref.to_mirror_path().as_str()), format!("http://127.0.0.1:9{TX_PATH}"));
    let lookup = lookup_from_entries(
        &tx_ref,
        vec![
            dto("SUCCESS", "1719943901.111111111", None),
            dto("DUPLICATE_TRANSACTION", "1719943901.222222222", None),
        ],
    )
    .expect("transaction lookup should succeed");

    assert_eq!(lookup.requested_transaction_id, TX_ID);
    assert_eq!(lookup.primary.result, "SUCCESS");
    assert_eq!(lookup.primary.consensus_timestamp.as_deref(), Some("1719943901.111111111"));
    assert_eq!(lookup.duplicates.len(), 1);
    assert_eq!(lookup.duplicates[0].result, "DUPLICATE_TRANSACTION");
    assert_eq!(lookup.entries.len(), 2);
}

#[test]
fn get_transaction_retries_on_rate_limit_then_succeeds() {
    let client = MirrorClient::new("http://127.0.0.1:9", test_retry_policy()).expect("client must build");
    // The first request is answered 429: the client waits and asks again.
    let limited = map_http_status(429, TX_PATH);
    let (attempts, decision) = client.next_retry(0, &limited);
    assert_eq!(attempts, 1);
    assert!(decision.should_retry);
    assert_eq!(decision.next_delay_ms, Some(10));
    // The second request is answered with the transaction.
    let tx_ref = TransactionRef::parse(TX_ID).unwrap();
    let lookup = lookup_from_entries(&tx_ref, vec![dto("SUCCESS", "1719943901.111111111", None)])
        .expect("client should retry and succeed");
    assert_eq!(lookup.primary.result, "SUCCESS");
    assert_eq!(attempts + 1, 2);
}
