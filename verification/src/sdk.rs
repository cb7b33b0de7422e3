use vstd::prelude::*;

use crate::config::{NetworkConfig, NetworkKind};
use crate::error::{
    detailed_error, details_view, retryable_detailed_error, DetailEntry,
    DetailValueView, RuntimeError, RuntimeErrorCode, RuntimeErrorView,
};
use crate::model::ReceiptResult;
use crate::text::{
    ascii_upper, chars_of, contains, contains_str, push_char, push_str, string_of,
    to_ascii_upper, to_ascii_upper_chars,
};

verus! {

// ── Reaching the network ─────────────────────────────────────────────────────

/// The network an SDK client is built for: a network known by name, or the
/// custom network of the configured consensus nodes.
#[derive(Debug, Clone, Copy, PartialEq, Eq)]
pub enum ClientTarget {
    Named(&'static str),
    Custom,
}

/// The name under which the SDK knows a public network.
pub open spec fn network_name(kind: NetworkKind) -> Option<Seq<char>> {
    match kind {
        NetworkKind::Mainnet => Some("mainnet"@),
        NetworkKind::Testnet => Some("testnet"@),
        NetworkKind::Previewnet => Some("previewnet"@),
        NetworkKind::Custom => None,
    }
}

/// The details of an error about the custom network.
pub open spec fn custom_network_details() -> Seq<(Seq<char>, DetailValueView)> {
    seq![("networkKind"@, DetailValueView::Text("custom"@))]
}

fn custom_network_detail_list() -> (r: Vec<DetailEntry>)
    ensures
        details_view(r) == custom_network_details(),
{
    let mut d: Vec<DetailEntry> = Vec::new();
    d.push(DetailEntry::text("networkKind", "custom"));
    assert(details_view(d) =~= custom_network_details());
    d
}

/// Where an SDK client for `network` connects: a public network by its name,
/// or, for a custom network, its consensus nodes, which must be listed and
/// not empty. `operations` names what the client is for, in the error.
pub fn client_target(network: &NetworkConfig, operations: &str) -> (r: Result<
    ClientTarget,
    RuntimeError,
>)
    ensures
        match network_name(network.kind) {
            Some(name) => r matches Ok(ClientTarget::Named(n)) && n@ == name,
            None => match network.consensus_nodes {
                None => r matches Err(e) && e@ == detailed_error(
                    RuntimeErrorCode::InvalidConfig,
                    "consensusNodes is required for custom network "@ + operations@,
                    custom_network_details(),
                ),
                Some(nodes) => if nodes@.len() == 0 {
                    r matches Err(e) && e@ == detailed_error(
                        RuntimeErrorCode::InvalidConfig,
                        "consensusNodes must not be empty for custom network"@,
                        custom_network_details(),
                    )
                } else {
                    r matches Ok(ClientTarget::Custom)
                },
            },
        },
{
    match network.kind {
        NetworkKind::Mainnet => Ok(ClientTarget::Named("mainnet")),
        NetworkKind::Testnet => Ok(ClientTarget::Named("testnet")),
        NetworkKind::Previewnet => Ok(ClientTarget::Named("previewnet")),
        NetworkKind::Custom => match &network.consensus_nodes {
            None => {
                let mut m = string_of("consensusNodes is required for custom network ");
                push_str(&mut m, operations);
                Err(
                    RuntimeError::with_details(
                        RuntimeErrorCode::InvalidConfig,
                        m.as_str(),
                        custom_network_detail_list(),
                    ),
                )
            },
            Some(nodes) => {
                if nodes.len() == 0 {
                    Err(
                        RuntimeError::with_details(
                            RuntimeErrorCode::InvalidConfig,
                            "consensusNodes must not be empty for custom network",
                            custom_network_detail_list(),
                        ),
                    )
                } else {
                    Ok(ClientTarget::Custom)
                }
            },
        },
    }
}

// ── Errors about values the SDK refused ──────────────────────────────────────

fn concat3(a: &str, b: &str, c: &str) -> (r: String)
    ensures
        r@ == a@ + b@ + c@,
{
    let mut s = string_of(a);
    push_str(&mut s, b);
    push_str(&mut s, c);
    s
}

/// The error for a field whose value the SDK could not parse; `err_text` is
/// the SDK's description.
pub fn invalid_field_error(field: &str, err_text: &str) -> (r: RuntimeError)
    ensures
        r@ == detailed_error(
            RuntimeErrorCode::InvalidConfig,
            "invalid "@ + field@ + ": "@ + err_text@,
            seq![("field"@, DetailValueView::Text(field@))],
        ),
{
    let mut m = concat3("invalid ", field, ": ");
    push_str(&mut m, err_text);
    let mut d: Vec<DetailEntry> = Vec::new();
    d.push(DetailEntry::text("field", field));
    assert(details_view(d) =~= seq![("field"@, DetailValueView::Text(field@))]);
    RuntimeError::with_details(RuntimeErrorCode::InvalidConfig, m.as_str(), d)
}

/// The error for an id that the SDK could not parse; the details name the
/// field and repeat the value under the field's name.
pub fn invalid_id_error(field: &str, err_text: &str, value: &str) -> (r: RuntimeError)
    ensures
        r@ == detailed_error(
            RuntimeErrorCode::InvalidConfig,
            "invalid "@ + field@ + ": "@ + err_text@,
            seq![("field"@, DetailValueView::Text(field@)), (field@, DetailValueView::Text(value@))],
        ),
{
    let mut m = concat3("invalid ", field, ": ");
    push_str(&mut m, err_text);
    let mut d: Vec<DetailEntry> = Vec::new();
    d.push(DetailEntry::text("field", field));
    d.push(DetailEntry::text(field, value));
    assert(details_view(d) =~= seq![
        ("field"@, DetailValueView::Text(field@)),
        (field@, DetailValueView::Text(value@)),
    ]);
    RuntimeError::with_details(RuntimeErrorCode::InvalidConfig, m.as_str(), d)
}

/// The error for a consensus node whose account id the SDK could not parse.
pub fn invalid_node_account_error(err_text: &str, value: &str) -> (r: RuntimeError)
    ensures
        r@ == detailed_error(
            RuntimeErrorCode::InvalidConfig,
            "invalid consensus node accountId: "@ + err_text@,
            seq![
                ("field"@, DetailValueView::Text("consensusNodes[].accountId"@)),
                ("value"@, DetailValueView::Text(value@)),
            ],
        ),
{
    let mut m = string_of("invalid consensus node accountId: ");
    push_str(&mut m, err_text);
    let mut d: Vec<DetailEntry> = Vec::new();
    d.push(DetailEntry::text("field", "consensusNodes[].accountId"));
    d.push(DetailEntry::text("value", value));
    assert(details_view(d) =~= seq![
        ("field"@, DetailValueView::Text("consensusNodes[].accountId"@)),
        ("value"@, DetailValueView::Text(value@)),
    ]);
    RuntimeError::with_details(RuntimeErrorCode::InvalidConfig, m.as_str(), d)
}

/// The error when a transfer is submitted without operator credentials.
pub fn operator_required_error() -> (r: RuntimeError)
    ensures
        r@ == detailed_error(
            RuntimeErrorCode::InvalidConfig,
            "operator credentials are required for HBAR transfer submission"@,
            seq![("field"@, DetailValueView::Text("operator"@))],
        ),
{
    let mut d: Vec<DetailEntry> = Vec::new();
    d.push(DetailEntry::text("field", "operator"));
    assert(details_view(d) =~= seq![("field"@, DetailValueView::Text("operator"@))]);
    RuntimeError::with_details(
        RuntimeErrorCode::InvalidConfig,
        "operator credentials are required for HBAR transfer submission",
        d,
    )
}

/// The error when the sender of a transfer is not the operator account.
pub fn operator_mismatch_error(from_account_id: &str, operator_account_id: &str) -> (r:
    RuntimeError)
    ensures
        r@ == detailed_error(
            RuntimeErrorCode::InvalidConfig,
            "fromAccountId must match the configured operator account for HBAR transfer submission"@,
            seq![
                ("fromAccountId"@, DetailValueView::Text(from_account_id@)),
                ("operatorAccountId"@, DetailValueView::Text(operator_account_id@)),
            ],
        ),
{
    let mut d: Vec<DetailEntry> = Vec::new();
    d.push(DetailEntry::text("fromAccountId", from_account_id));
    d.push(DetailEntry::text("operatorAccountId", operator_account_id));
    assert(details_view(d) =~= seq![
        ("fromAccountId"@, DetailValueView::Text(from_account_id@)),
        ("operatorAccountId"@, DetailValueView::Text(operator_account_id@)),
    ]);
    RuntimeError::with_details(
        RuntimeErrorCode::InvalidConfig,
        "fromAccountId must match the configured operator account for HBAR transfer submission",
        d,
    )
}

/// A tinybar amount as the signed number the SDK takes, refused when it
/// exceeds `i64::MAX`.
pub fn signed_tinybars(amount_tinybar: u64) -> (r: Result<i64, RuntimeError>)
    ensures
        amount_tinybar <= i64::MAX ==> r == Ok::<i64, RuntimeError>(amount_tinybar as i64),
        amount_tinybar > i64::MAX ==> (r matches Err(e) && e@ == detailed_error(
            RuntimeErrorCode::InvalidConfig,
            "amountTinybar exceeds the supported signed tinybar range"@,
            seq![("amountTinybar"@, DetailValueView::Number(amount_tinybar))],
        )),
{
    if amount_tinybar <= 9223372036854775807u64 {
        return Ok(amount_tinybar as i64);
    }
    let mut d: Vec<DetailEntry> = Vec::new();
    d.push(DetailEntry::number("amountTinybar", amount_tinybar));
    assert(details_view(d) =~= seq![("amountTinybar"@, DetailValueView::Number(amount_tinybar))]);
    Err(
        RuntimeError::with_details(
            RuntimeErrorCode::InvalidConfig,
            "amountTinybar exceeds the supported signed tinybar range",
            d,
        ),
    )
}

// ── Receipt statuses ─────────────────────────────────────────────────────────

/// `char::is_uppercase`: the Unicode `Uppercase` property.
pub uninterp spec fn unicode_uppercase(c: char) -> bool;

/// `char::is_uppercase`; for ASCII characters it holds of `A` to `Z` only.
#[verifier::external_body]
fn is_uppercase(c: char) -> (r: bool)
    ensures
        r == unicode_uppercase(c),
        (c as u32) < 128 ==> (r <==> ('A' <= c && c <= 'Z')),
{
    c.is_uppercase()
}

/// The canonical status name for the SDK's `Debug` name of a status: an
/// underscore before every upper case letter but the first, and every
/// letter in ASCII upper case (`TransactionExpired` → `TRANSACTION_EXPIRED`).
pub open spec fn status_name(debug_name: Seq<char>) -> Seq<char>
    decreases debug_name.len(),
{
    if debug_name.len() == 0 {
        Seq::empty()
    } else {
        let prev = status_name(debug_name.drop_last());
        let c = debug_name.last();
        let with_sep = if unicode_uppercase(c) && debug_name.len() > 1 {
            prev.push('_')
        } else {
            prev
        };
        with_sep.push(ascii_upper(c))
    }
}

/// Converts the SDK's `Debug` name of a status to its canonical name.
pub fn sdk_status_to_string(debug_name: &str) -> (r: String)
    ensures
        r@ == status_name(debug_name@),
{
    let cs = chars_of(debug_name);
    let mut out = String::new();
    let mut i: usize = 0;
    while i < cs.len()
        invariant
            i <= cs.len(),
            out@ == status_name(cs@.take(i as int)),
        decreases cs.len() - i,
    {
        let ch = cs[i];
        assert(cs@.take(i + 1).drop_last() =~= cs@.take(i as int));
        if is_uppercase(ch) && i > 0 {
            push_char(&mut out, '_');
        }
        let up = if 'a' <= ch && ch <= 'z' {
            let b: u8 = (ch as u32 - 32) as u8;
            b as char
        } else {
            ch
        };
        push_char(&mut out, up);
        i = i + 1;
    }
    assert(cs@.take(i as int) =~= cs@);
    out
}

/// An SDK error text that reports a receipt not found yet.
pub open spec fn receipt_not_found_text(text: Seq<char>) -> bool {
    contains(to_ascii_upper(text), "RECEIPTNOTFOUND"@) || contains(
        to_ascii_upper(text),
        "RECEIPT_NOT_FOUND"@,
    )
}

/// An SDK error text that reports a transient condition.
pub open spec fn transient_text(text: Seq<char>) -> bool {
    let upper = to_ascii_upper(text);
    ||| contains(upper, "BUSY"@)
    ||| contains(upper, "PLATFORM_TRANSACTION_NOT_CREATED"@)
    ||| contains(upper, "TRANSACTION_EXPIRED"@)
    ||| contains(upper, "TIMED OUT"@)
    ||| contains(upper, "TIMEOUT"@)
}

/// Whether an SDK error reports a receipt that does not exist yet.
pub fn is_receipt_not_found_error(err_text: &str) -> (r: bool)
    ensures
        r == receipt_not_found_text(err_text@),
{
    let cs = chars_of(err_text);
    let upper = to_ascii_upper_chars(&cs);
    contains_str(&upper, "RECEIPTNOTFOUND") || contains_str(&upper, "RECEIPT_NOT_FOUND")
}

/// Whether an SDK error reports a transient condition.
pub fn is_transient_error(err_text: &str) -> (r: bool)
    ensures
        r == transient_text(err_text@),
{
    let cs = chars_of(err_text);
    let upper = to_ascii_upper_chars(&cs);
    contains_str(&upper, "BUSY") || contains_str(&upper, "PLATFORM_TRANSACTION_NOT_CREATED")
        || contains_str(&upper, "TRANSACTION_EXPIRED") || contains_str(&upper, "TIMED OUT")
        || contains_str(&upper, "TIMEOUT")
}

/// The details that carry the SDK's description of an error.
pub open spec fn sdk_details(text: Seq<char>) -> Seq<(Seq<char>, DetailValueView)> {
    seq![("sdkError"@, DetailValueView::Text(text))]
}

fn sdk_detail_list(text: &str) -> (r: Vec<DetailEntry>)
    ensures
        details_view(r) == sdk_details(text@),
{
    let mut d: Vec<DetailEntry> = Vec::new();
    d.push(DetailEntry::text("sdkError", text));
    assert(details_view(d) =~= sdk_details(text@));
    d
}

/// The runtime error for a failed SDK call of the transaction runtime, with
/// the message `context: text`: a receipt not found yet is `NotFound`, a
/// transient condition a retryable `Consensus` error, anything else a
/// `Consensus` error that is not retried.
pub open spec fn sdk_error(context: Seq<char>, text: Seq<char>) -> RuntimeErrorView {
    if receipt_not_found_text(text) {
        detailed_error(RuntimeErrorCode::NotFound, context + ": "@ + text, sdk_details(text))
    } else if transient_text(text) {
        retryable_detailed_error(RuntimeErrorCode::Consensus, context + ": "@ + text, true, sdk_details(text))
    } else {
        detailed_error(RuntimeErrorCode::Consensus, context + ": "@ + text, sdk_details(text))
    }
}

/// Maps a failed SDK call of the transaction runtime (see `sdk_error`).
pub fn map_sdk_error(context: &str, err_text: &str) -> (r: RuntimeError)
    ensures
        r@ == sdk_error(context@, err_text@),
{
    let m = concat3(context, ": ", err_text);
    if is_receipt_not_found_error(err_text) {
        return RuntimeError::with_details(RuntimeErrorCode::NotFound, m.as_str(), sdk_detail_list(err_text));
    }
    if is_transient_error(err_text) {
        return RuntimeError::with_retryable_and_details(
            RuntimeErrorCode::Consensus,
            m.as_str(),
            true,
            sdk_detail_list(err_text),
        );
    }
    RuntimeError::with_details(RuntimeErrorCode::Consensus, m.as_str(), sdk_detail_list(err_text))
}

/// The runtime error for a failed SDK call of the schedule runtime, with
/// the message `context: text`: a transient condition is a retryable
/// `Consensus` error, anything else a `Schedule` error that is not retried.
pub open spec fn schedule_sdk_error(context: Seq<char>, text: Seq<char>) -> RuntimeErrorView {
    if transient_text(text) {
        retryable_detailed_error(RuntimeErrorCode::Consensus, context + ": "@ + text, true, sdk_details(text))
    } else {
        detailed_error(RuntimeErrorCode::Schedule, context + ": "@ + text, sdk_details(text))
    }
}

/// Maps a failed SDK call of the schedule runtime (see `schedule_sdk_error`).
pub fn map_schedule_sdk_error(context: &str, err_text: &str) -> (r: RuntimeError)
    ensures
        r@ == schedule_sdk_error(context@, err_text@),
{
    let m = concat3(context, ": ", err_text);
    if is_transient_error(err_text) {
        return RuntimeError::with_retryable_and_details(
            RuntimeErrorCode::Consensus,
            m.as_str(),
            true,
            sdk_detail_list(err_text),
        );
    }
    RuntimeError::with_details(RuntimeErrorCode::Schedule, m.as_str(), sdk_detail_list(err_text))
}

/// The receipt for a transaction: the id the network reported, else the
/// requested id, and the canonical name of the status.
pub fn receipt_from_sdk(requested_id: &str, reported_id: Option<String>, status_debug_name: &str) -> (r:
    ReceiptResult)
    ensures
        r.transaction_id@ == match reported_id {
            Some(id) => id@,
            None => requested_id@,
        },
        r.status@ == status_name(status_debug_name@),
{
    let transaction_id = match reported_id {
        Some(id) => id,
        None => string_of(requested_id),
    };
    ReceiptResult { transaction_id, status: sdk_status_to_string(status_debug_name) }
}

/// The outcome of a receipt query that the SDK failed: no receipt yet when
/// the receipt is not found, else the mapped error.
pub fn receipt_query_failure(err_text: &str) -> (r: Result<Option<ReceiptResult>, RuntimeError>)
    ensures
        receipt_not_found_text(err_text@) ==> r == Ok::<Option<ReceiptResult>, RuntimeError>(None),
        !receipt_not_found_text(err_text@) ==> (r matches Err(e) && e@ == sdk_error(
            "failed to query transaction receipt"@,
            err_text@,
        )),
{
    if is_receipt_not_found_error(err_text) {
        return Ok(None);
    }
    Err(map_sdk_error("failed to query transaction receipt", err_text))
}

} // verus!
