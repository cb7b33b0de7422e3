use hiero_runtime::error::RuntimeErrorCode;
use hiero_runtime::model::{normalize_tx_id_for_mirror, TransactionRef};

#[test]
fn parse_plain_transaction_id() {
    let t = TransactionRef::parse("  0.0.1001@1719943901.123456789 ").unwrap();
    assert_eq!(t.base_id, "0.0.1001@1719943901.123456789");
    assert!(!t.scheduled);
    assert_eq!(t.nonce, None);
    assert_eq!(t.to_canonical_string(), "0.0.1001@1719943901.123456789");
    assert_eq!(t.to_mirror_path(), "/api/v1/transactions/0.0.1001-1719943901-123456789");
}

#[test]
fn parse_scheduled_and_nonce_queries() {
    let t = TransactionRef::parse("0.0.1001@1719943901.123456789?scheduled").unwrap();
    assert!(t.scheduled);
    assert_eq!(t.to_canonical_string(), "0.0.1001@1719943901.123456789?scheduled");
    assert_eq!(
        t.to_mirror_path(),
        "/api/v1/transactions/0.0.1001-1719943901-123456789?scheduled=true"
    );

    let t = TransactionRef::parse("0.0.1001@1719943901.5?nonce=3").unwrap();
    assert!(!t.scheduled);
    assert_eq!(t.nonce, Some(3));
    assert_eq!(t.to_canonical_string(), "0.0.1001@1719943901.5?nonce=3");
    assert_eq!(t.to_mirror_path(), "/api/v1/transactions/0.0.1001-1719943901-000000005?nonce=3");

    let t = TransactionRef::parse("a?nonce=1& scheduled= &nonce=-7&nonce=x").unwrap();
    assert!(t.scheduled);
    assert_eq!(t.nonce, Some(-7));
    assert_eq!(t.to_canonical_string(), "a?scheduled");

    let t = TransactionRef::parse("a?nonce=2147483648").unwrap();
    assert_eq!(t.nonce, None);
    let t = TransactionRef::parse("a?nonce=-2147483648").unwrap();
    assert_eq!(t.nonce, Some(i32::MIN));
    assert_eq!(t.to_canonical_string(), "a?nonce=-2147483648");
}

#[test]
fn parse_rejects_empty_ids() {
    let e = TransactionRef::parse("   ").unwrap_err();
    assert_eq!(e.code, RuntimeErrorCode::InvalidConfig);
    assert_eq!(e.message, "transactionId must not be empty");
    assert!(!e.retryable);

    let e = TransactionRef::parse(" ?scheduled").unwrap_err();
    assert_eq!(e.code, RuntimeErrorCode::InvalidConfig);
    assert_eq!(e.message, "transactionId base must not be empty");
}

#[test]
fn canonical_form_parses_back() {
    for raw in ["0.0.7@1.2?scheduled=", "0.0.7@1.2 ?nonce=+12", "x@y"] {
        let t = TransactionRef::parse(raw).unwrap();
        let again = TransactionRef::parse(&t.to_canonical_string()).unwrap();
        assert_eq!(again, t);
    }
}

#[test]
fn scheduled_reference_drops_its_nonce_when_written() {
    let t = TransactionRef::parse("0.0.7@1.2?nonce=-3&scheduled").unwrap();
    assert_eq!((t.scheduled, t.nonce), (true, Some(-3)));
    assert_eq!(t.to_canonical_string(), "0.0.7@1.2?scheduled");
    let again = TransactionRef::parse(&t.to_canonical_string()).unwrap();
    assert_eq!((again.base_id.as_str(), again.scheduled, again.nonce), ("0.0.7@1.2", true, None));
    assert_eq!(again.to_canonical_string(), t.to_canonical_string());
    let n = TransactionRef::parse("0.0.7@1.2?nonce=-2147483648").unwrap();
    assert_eq!(n.to_canonical_string(), "0.0.7@1.2?nonce=-2147483648");
    assert_eq!(TransactionRef::parse(&n.to_canonical_string()).unwrap(), n);
}

#[test]
fn mirror_id_normalization() {
    assert_eq!(normalize_tx_id_for_mirror("0.0.1@1719943901.12"), "0.0.1-1719943901-000000012");
    assert_eq!(normalize_tx_id_for_mirror("0.0.1@1719943901"), "0.0.1@1719943901");
    assert_eq!(normalize_tx_id_for_mirror("0xabc"), "0xabc");
    assert_eq!(normalize_tx_id_for_mirror("a@b.1234567890"), "a-b-1234567890");
}
