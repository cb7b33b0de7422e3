use vstd::prelude::*;

use crate::config::{FinalityPolicy, RetryPolicy};
use crate::dto::{record_of, MirrorTransactionDto, MirrorTransactionsResponseDto};
use crate::error::{
    detailed_error, details_view, plain_error, retryable_detailed_error, DetailEntry,
    DetailValueView, RuntimeError, RuntimeErrorCode, RuntimeErrorView,
};
use crate::model::{canonical_string, MirrorTransactionRecord, TransactionPage, TransactionRef, TransactionRefView};
use crate::poll::PollAction;
use crate::retry::{retry_decision, RetryDecision};
use crate::text::{
    chars_of, decimal, is_blank, push_decimal, push_signed_decimal, push_str, signed_decimal,
    string_from_chars, string_of, trim,
};

verus! {

// ── Transaction lookups ──────────────────────────────────────────────────────

/// A transaction as the Mirror Node shows it: the entry that matches the
/// requested reference, and the other entries under the same id.
#[derive(Debug, Clone, PartialEq, Eq)]
pub struct TransactionLookup {
    pub requested_transaction_id: String,
    pub primary: MirrorTransactionRecord,
    pub duplicates: Vec<MirrorTransactionRecord>,
    pub entries: Vec<MirrorTransactionRecord>,
}

impl TransactionLookup {
    /// Whether the Mirror Node reported more than the primary entry.
    pub fn has_duplicates(&self) -> (r: bool)
        ensures
            r == (self.duplicates@.len() > 0),
    {
        self.duplicates.len() > 0
    }
}

/// An entry matches a reference when its scheduled flag (absent meaning
/// false) and its nonce are those of the reference.
pub open spec fn entry_matches(e: MirrorTransactionRecord, t: TransactionRefView) -> bool {
    (match e.scheduled {
        Some(b) => b,
        None => false,
    }) == t.scheduled && e.nonce == t.nonce
}

/// The index of the first entry that matches the reference, or 0.
pub open spec fn primary_index(entries: Seq<MirrorTransactionRecord>, t: TransactionRefView) -> int
    decreases entries.len(),
{
    if entries.len() == 0 {
        0
    } else if primary_index(entries.drop_last(), t) != 0 || entry_matches(entries[0], t) {
        primary_index(entries.drop_last(), t)
    } else if entry_matches(entries.last(), t) {
        entries.len() - 1
    } else {
        0
    }
}

/// `primary_index` is the first matching entry when there is one.
pub proof fn lemma_primary_index(entries: Seq<MirrorTransactionRecord>, t: TransactionRefView)
    ensures
        0 <= primary_index(entries, t) <= if entries.len() == 0 {
            0
        } else {
            entries.len() - 1
        },
        (exists|i: int| 0 <= i < entries.len() && entry_matches(#[trigger] entries[i], t)) ==> {
            let p = primary_index(entries, t);
            entry_matches(entries[p], t) && forall|j: int|
                0 <= j < p ==> !entry_matches(#[trigger] entries[j], t)
        },
        (forall|i: int| 0 <= i < entries.len() ==> !entry_matches(#[trigger] entries[i], t))
            ==> primary_index(entries, t) == 0,
    decreases entries.len(),
{
    if entries.len() > 0 {
        let init = entries.drop_last();
        lemma_primary_index(init, t);
        assert forall|j: int| 0 <= j < init.len() implies init[j] == entries[j] by {}
        if exists|i: int| 0 <= i < entries.len() && entry_matches(#[trigger] entries[i], t) {
            let w = choose|i: int| 0 <= i < entries.len() && entry_matches(#[trigger] entries[i], t);
            if w < entries.len() - 1 {
                assert(entry_matches(init[w], t));
            }
        }
    }
}

/// The entries of a lookup, in the order the Mirror Node gave them.
pub open spec fn records_of(transactions: Seq<MirrorTransactionDto>) -> Seq<MirrorTransactionRecord> {
    transactions.map_values(|d: MirrorTransactionDto| record_of(d))
}

/// Splits Mirror Node entries into the primary entry (the first that
/// matches the reference, else the first) and the duplicates (all others,
/// in order).
pub fn normalize_transaction_lookup(
    tx_ref: &TransactionRef,
    transactions: Vec<MirrorTransactionDto>,
) -> (r: TransactionLookup)
    requires
        transactions@.len() > 0,
    ensures
        r.requested_transaction_id@ == canonical_string(tx_ref@),
        r.entries@ == records_of(transactions@),
        r.primary == r.entries@[primary_index(r.entries@, tx_ref@)],
        r.duplicates@ == r.entries@.remove(primary_index(r.entries@, tx_ref@)),
        (exists|i: int|
            0 <= i < r.entries@.len() && #[trigger] r.entries@[i].nonce == tx_ref.nonce && (
            r.entries@[i].scheduled == Some(true)) == tx_ref.scheduled) ==> r.primary.nonce
            == tx_ref.nonce && (r.primary.scheduled == Some(true)) == tx_ref.scheduled,
{
    let ghost dtos = transactions@;
    let mut entries: Vec<MirrorTransactionRecord> = Vec::new();
    for d in it: transactions
        invariant
            it.seq() == dtos,
            entries@ == records_of(dtos.take(it.index() as int)),
    {
        let ghost m: int = entries@.len() as int;
        entries.push(MirrorTransactionRecord::from(d));
        assert(records_of(dtos.take(m + 1)) =~= records_of(dtos.take(m)).push(
            record_of(dtos[m]),
        ));
    }
    let n = entries.len();
    assert(dtos.take(n as int) =~= dtos);
    let ghost t = tx_ref@;
    // The first entry that matches the reference.
    let mut primary_idx: usize = 0;
    let mut found = false;
    let mut i: usize = 0;
    while i < entries.len() && !found
        invariant
            i <= entries.len(),
            found ==> i > 0 && primary_idx == i - 1 && entry_matches(entries@[i - 1], t),
            !found ==> primary_idx == 0,
            forall|j: int| 0 <= j < (if found { i - 1 } else { i as int }) ==> !entry_matches(#[trigger] entries@[j], t),
            t == tx_ref@,
        decreases entries.len() - i,
    {
        let e = &entries[i];
        let sched = match e.scheduled {
            Some(b) => b,
            None => false,
        };
        if sched == tx_ref.scheduled && e.nonce == tx_ref.nonce {
            primary_idx = i;
            found = true;
        }
        i = i + 1;
    }
    proof {
        lemma_primary_index(entries@, t);
        if found {
            assert(exists|k: int| 0 <= k < entries@.len() && entry_matches(#[trigger] entries@[k], t));
            if primary_index(entries@, t) < primary_idx {
                assert(!entry_matches(entries@[primary_index(entries@, t)], t));
            }
            if primary_index(entries@, t) > primary_idx {
                assert(!entry_matches(entries@[primary_idx as int], t));
            }
        } else {
            assert forall|k: int| 0 <= k < entries@.len() implies !entry_matches(#[trigger] entries@[k], t) by {}
        }
    }
    let primary = entries[primary_idx].clone();
    let mut duplicates: Vec<MirrorTransactionRecord> = Vec::new();
    let mut j: usize = 0;
    while j < entries.len()
        invariant
            j <= entries.len(),
            primary_idx < entries.len(),
            duplicates@ == if j <= primary_idx {
                entries@.take(j as int)
            } else {
                entries@.take(j as int).remove(primary_idx as int)
            },
        decreases entries.len() - j,
    {
        let ghost before = duplicates@;
        if j != primary_idx {
            duplicates.push(entries[j].clone());
        }
        proof {
            if j < primary_idx {
                assert(entries@.take(j + 1) =~= entries@.take(j as int).push(entries@[j as int]));
            } else if j == primary_idx {
                assert(entries@.take(j + 1).remove(primary_idx as int) =~= entries@.take(j as int));
            } else {
                assert(entries@.take(j + 1).remove(primary_idx as int) =~= entries@.take(j as int).remove(
                    primary_idx as int,
                ).push(entries@[j as int]));
            }
        }
        j = j + 1;
    }
    assert(entries@.take(j as int) =~= entries@);
    proof {
        law_primary_entry_matches_reference(entries@, tx_ref@);
    }
    TransactionLookup {
        requested_transaction_id: tx_ref.to_canonical_string(),
        primary,
        duplicates,
        entries,
    }
}

} // verus!

verus! {

/// The primary entry follows the reference: when some entry has the
/// reference's nonce and scheduled flag (an absent flag counting as not
/// scheduled), the primary entry has them too and no earlier entry does;
/// an entry other than the first is primary only if it has them; and when
/// no entry has them, the first entry is primary.
pub proof fn law_primary_entry_matches_reference(
    entries: Seq<MirrorTransactionRecord>,
    t: TransactionRefView,
)
    requires
        entries.len() > 0,
    ensures
        ({
            let p = primary_index(entries, t);
            &&& 0 <= p < entries.len()
            &&& (exists|i: int|
                0 <= i < entries.len() && #[trigger] entries[i].nonce == t.nonce && (
                entries[i].scheduled == Some(true)) == t.scheduled) ==> {
                &&& entries[p].nonce == t.nonce
                &&& (entries[p].scheduled == Some(true)) == t.scheduled
                &&& forall|j: int|
                    0 <= j < p ==> !(#[trigger] entries[j].nonce == t.nonce && (entries[j].scheduled
                        == Some(true)) == t.scheduled)
            }
            &&& p != 0 ==> entries[p].nonce == t.nonce && (entries[p].scheduled == Some(true))
                == t.scheduled
            &&& (forall|i: int|
                0 <= i < entries.len() ==> !(#[trigger] entries[i].nonce == t.nonce && (
                entries[i].scheduled == Some(true)) == t.scheduled)) ==> p == 0
        }),
{
    lemma_primary_index(entries, t);
    let p = primary_index(entries, t);
    assert forall|i: int| 0 <= i < entries.len() implies entry_matches(entries[i], t) == (
    entries[i].nonce == t.nonce && (entries[i].scheduled == Some(true)) == t.scheduled) by {}
    if exists|i: int|
        0 <= i < entries.len() && #[trigger] entries[i].nonce == t.nonce && (entries[i].scheduled
            == Some(true)) == t.scheduled {
        let w = choose|i: int|
            0 <= i < entries.len() && #[trigger] entries[i].nonce == t.nonce && (
            entries[i].scheduled == Some(true)) == t.scheduled;
        assert(entry_matches(entries[w], t));
    }
    if p != 0 {
        assert(entry_matches(entries[p], t));
    }
}

/// While waiting for a transaction on the Mirror Node, a lookup that failed
/// with `NotFound` or with any error whose retryable flag is set, whatever
/// its code, polls again before the mirror timeout and ends the wait with a
/// `Timeout` after it; an error that is neither ends the wait with that very
/// error; and a lookup that found the transaction ends the wait with it.
pub proof fn law_mirror_wait_answers(
    tx: TransactionRefView,
    policy: FinalityPolicy,
    elapsed_ms: u64,
    e: RuntimeError,
)
    ensures
        (e.code == RuntimeErrorCode::NotFound || e.retryable) && elapsed_ms < policy.mirror_timeout_ms
            ==> mirror_wait_outcome(tx, policy, elapsed_ms, Some(e@)) is None,
        (e.code == RuntimeErrorCode::NotFound || e.retryable) && elapsed_ms >= policy.mirror_timeout_ms
            ==> mirror_wait_outcome(tx, policy, elapsed_ms, Some(e@)) == Some(
            Err::<(), RuntimeErrorView>(
                plain_error(
                    RuntimeErrorCode::Timeout,
                    mirror_timeout_message(tx, policy.mirror_timeout_ms),
                ),
            ),
        ),
        e.code != RuntimeErrorCode::NotFound && !e.retryable ==> mirror_wait_outcome(
            tx,
            policy,
            elapsed_ms,
            Some(e@),
        ) == Some(Err::<(), RuntimeErrorView>(e@)),
        mirror_wait_outcome(tx, policy, elapsed_ms, None) == Some(Ok::<(), RuntimeErrorView>(())),
{
}

/// A lookup keeps every entry: the primary entry plus the duplicates are
/// all the entries, and it has duplicates exactly when there are several.
pub proof fn law_lookup_partitions_entries(entries: Seq<MirrorTransactionRecord>, t: TransactionRefView)
    requires
        entries.len() > 0,
    ensures
        ({
            let p = primary_index(entries, t);
            &&& 0 <= p < entries.len()
            &&& entries.remove(p).len() + 1 == entries.len()
            &&& (entries.remove(p).len() > 0 <==> entries.len() > 1)
            &&& entries.remove(p).insert(p, entries[p]) == entries
        }),
{
    lemma_primary_index(entries, t);
    let p = primary_index(entries, t);
    assert(entries.remove(p).insert(p, entries[p]) =~= entries);
}

/// When some entry matches the reference, the primary entry is the first
/// one that does.
pub proof fn law_lookup_primary_matches(entries: Seq<MirrorTransactionRecord>, t: TransactionRefView, i: int)
    requires
        0 <= i < entries.len(),
        entry_matches(entries[i], t),
    ensures
        entry_matches(entries[primary_index(entries, t)], t),
        primary_index(entries, t) <= i,
{
    lemma_primary_index(entries, t);
    if primary_index(entries, t) > i {
        assert(!entry_matches(entries[i], t));
    }
}

// ── The Mirror Node endpoint ─────────────────────────────────────────────────

/// `s` without its trailing `/` characters (`trim_end_matches('/')`).
pub open spec fn strip_trailing_slashes(s: Seq<char>) -> Seq<char>
    decreases s.len(),
{
    if s.len() > 0 && s.last() == '/' {
        strip_trailing_slashes(s.drop_last())
    } else {
        s
    }
}

/// The Mirror Node endpoint a client talks to, with its retry policy.
#[derive(Debug, Clone)]
pub struct MirrorClient {
    base_url: String,
    retry: RetryPolicy,
}

impl MirrorClient {
    /// The base URL, without trailing slashes.
    pub closed spec fn spec_base_url(&self) -> Seq<char> {
        self.base_url@
    }

    /// The retry policy of the client.
    pub closed spec fn spec_retry(&self) -> RetryPolicy {
        self.retry
    }

    /// A client for the Mirror Node at `base_url`; trailing slashes are
    /// dropped, and an empty URL is refused.
    pub fn new(base_url: &str, retry: RetryPolicy) -> (r: Result<MirrorClient, RuntimeError>)
        ensures
            strip_trailing_slashes(base_url@).len() == 0 ==> (r matches Err(e) && e@
                == plain_error(RuntimeErrorCode::InvalidConfig, "mirror base URL must not be empty"@)),
            strip_trailing_slashes(base_url@).len() != 0 ==> (r matches Ok(c) && c.spec_base_url()
                == strip_trailing_slashes(base_url@) && c.spec_retry() == retry),
    {
        let cs = chars_of(base_url);
        let mut end = cs.len();
        assert(cs@.take(cs.len() as int) =~= cs@);
        while end > 0 && cs[end - 1] == '/'
            invariant
                end <= cs.len(),
                strip_trailing_slashes(cs@) == strip_trailing_slashes(cs@.take(end as int)),
            decreases end,
        {
            assert(cs@.take(end as int).drop_last() =~= cs@.take(end - 1));
            end = end - 1;
        }
        if end == 0 {
            assert(cs@.take(0) =~= Seq::<char>::empty());
            return Err(RuntimeError::invalid_config("mirror base URL must not be empty"));
        }
        let kept = crate::text::slice_chars(&cs, 0, end);
        assert(kept@ =~= cs@.take(end as int));
        Ok(MirrorClient { base_url: string_from_chars(&kept), retry })
    }

    /// The base URL of the Mirror Node.
    pub fn base_url(&self) -> (r: &str)
        ensures
            r@ == self.spec_base_url(),
    {
        self.base_url.as_str()
    }

    /// The retry policy that governs requests.
    pub fn retry(&self) -> (r: &RetryPolicy)
        ensures
            *r == self.spec_retry(),
    {
        &self.retry
    }

    /// The full URL of an API path.
    pub fn url_for(&self, path: &str) -> (r: String)
        ensures
            r@ == self.spec_base_url() + path@,
    {
        let mut url = self.base_url.clone();
        push_str(&mut url, path);
        url
    }

    /// Records a failed request: the count of completed attempts grows by
    /// one and the retry policy decides whether to try again.
    pub fn next_retry(&self, attempts_completed: u32, err: &RuntimeError) -> (r: (u32, RetryDecision))
        requires
            attempts_completed < u32::MAX,
        ensures
            r.0 == attempts_completed + 1,
            exists|entropy: u64| r.1 == retry_decision(self.spec_retry(), r.0, err.retryable, entropy),
            !self.spec_retry().jitter ==> r.1 == retry_decision(self.spec_retry(), r.0, err.retryable, 0),
    {
        let attempts = attempts_completed + 1;
        (attempts, self.retry.classify_retry(attempts, err))
    }
}

// ── Request paths ────────────────────────────────────────────────────────────

/// The path of an account query, or the error for a blank id.
pub fn account_path(id: &str) -> (r: Result<String, RuntimeError>)
    ensures
        trim(id@).len() == 0 ==> (r matches Err(e) && e@ == plain_error(
            RuntimeErrorCode::InvalidConfig,
            "account id must not be empty"@,
        )),
        trim(id@).len() != 0 ==> (r matches Ok(p) && p@ == "/api/v1/accounts/"@ + id@),
{
    if is_blank(id) {
        return Err(RuntimeError::invalid_config("account id must not be empty"));
    }
    let mut p = string_of("/api/v1/accounts/");
    push_str(&mut p, id);
    Ok(p)
}

/// The path of a contract result query, or the error for a blank id.
pub fn contract_result_path(transaction_id_or_hash: &str, nonce: Option<i32>) -> (r: Result<
    String,
    RuntimeError,
>)
    ensures
        trim(transaction_id_or_hash@).len() == 0 ==> (r matches Err(e) && e@ == plain_error(
            RuntimeErrorCode::InvalidConfig,
            "transactionIdOrHash must not be empty"@,
        )),
        trim(transaction_id_or_hash@).len() != 0 ==> (r matches Ok(p) && p@
            == "/api/v1/contracts/results/"@ + transaction_id_or_hash@ + match nonce {
            Some(n) => "?nonce="@ + signed_decimal(n as int),
            None => Seq::<char>::empty(),
        }),
{
    if is_blank(transaction_id_or_hash) {
        return Err(RuntimeError::invalid_config("transactionIdOrHash must not be empty"));
    }
    let mut p = string_of("/api/v1/contracts/results/");
    push_str(&mut p, transaction_id_or_hash);
    let ghost base = p@;
    if let Some(n) = nonce {
        push_str(&mut p, "?nonce=");
        push_signed_decimal(&mut p, n as i64);
        assert(p@ =~= base + ("?nonce="@ + signed_decimal(n as int)));
    } else {
        assert(p@ =~= base + Seq::<char>::empty());
    }
    Ok(p)
}

/// The path of a page of an account's transactions: the cursor of a
/// previous page when one is given and not blank, else the first page.
pub fn list_transactions_path(account_id: &str, limit: u32, cursor: Option<&str>) -> (r: Result<
    String,
    RuntimeError,
>)
    ensures
        trim(account_id@).len() == 0 ==> (r matches Err(e) && e@ == plain_error(
            RuntimeErrorCode::InvalidConfig,
            "accountId must not be empty"@,
        )),
        trim(account_id@).len() != 0 ==> (r matches Ok(p) && p@ == match cursor {
            Some(c) if trim(c@).len() != 0 => c@,
            _ => "/api/v1/transactions?account.id="@ + account_id@ + "&limit="@ + decimal(
                limit as nat,
            ) + "&order=desc"@,
        }),
{
    if is_blank(account_id) {
        return Err(RuntimeError::invalid_config("accountId must not be empty"));
    }
    if let Some(c) = cursor {
        if !is_blank(c) {
            return Ok(string_of(c));
        }
    }
    let mut p = string_of("/api/v1/transactions?account.id=");
    push_str(&mut p, account_id);
    push_str(&mut p, "&limit=");
    push_decimal(&mut p, limit as u64);
    push_str(&mut p, "&order=desc");
    Ok(p)
}

/// A page of an account's transactions from a Mirror Node list response.
pub fn transaction_page(response: MirrorTransactionsResponseDto) -> (r: TransactionPage)
    ensures
        r.items@ == records_of(response.transactions@),
        r.next_cursor == match response.links {
            Some(l) => l.next,
            None => None,
        },
{
    let mut items: Vec<MirrorTransactionRecord> = Vec::new();
    let ghost dtos = response.transactions@;
    for d in it: response.transactions
        invariant
            it.seq() == dtos,
            items@ == records_of(dtos.take(it.index() as int)),
    {
        let ghost m: int = items@.len() as int;
        items.push(MirrorTransactionRecord::from(d));
        assert(records_of(dtos.take(m + 1)) =~= records_of(dtos.take(m)).push(record_of(dtos[m])));
    }
    assert(dtos.take(dtos.len() as int) =~= dtos);
    let next_cursor = match response.links {
        Some(l) => l.next,
        None => None,
    };
    TransactionPage { items, next_cursor }
}

/// The lookup for a reference from the entries the Mirror Node returned,
/// or `NotFound` when it returned none.
pub fn lookup_from_entries(tx_ref: &TransactionRef, transactions: Vec<MirrorTransactionDto>) -> (r:
    Result<TransactionLookup, RuntimeError>)
    ensures
        transactions@.len() == 0 ==> (r matches Err(e) && e@ == plain_error(
            RuntimeErrorCode::NotFound,
            "mirror transaction lookup returned no records for "@ + canonical_string(tx_ref@),
        )),
        transactions@.len() != 0 ==> (r matches Ok(l) && l.requested_transaction_id@
            == canonical_string(tx_ref@) && l.entries@ == records_of(transactions@) && l.primary
            == l.entries@[primary_index(l.entries@, tx_ref@)] && l.duplicates@ == l.entries@.remove(
            primary_index(l.entries@, tx_ref@),
        )),
{
    if transactions.len() == 0 {
        let mut m = string_of("mirror transaction lookup returned no records for ");
        let c = tx_ref.to_canonical_string();
        push_str(&mut m, c.as_str());
        return Err(RuntimeError::not_found(m.as_str()));
    }
    Ok(normalize_transaction_lookup(tx_ref, transactions))
}

// ── HTTP error mapping ───────────────────────────────────────────────────────

/// The details naming the path of a request.
pub open spec fn path_details(path: Seq<char>) -> Seq<(Seq<char>, DetailValueView)> {
    seq![("path"@, DetailValueView::Text(path))]
}

/// The details naming the path and the HTTP status of a request.
pub open spec fn status_details(path: Seq<char>, status: u16) -> Seq<(Seq<char>, DetailValueView)> {
    seq![("path"@, DetailValueView::Text(path)), ("status"@, DetailValueView::Number(status as u64))]
}

fn path_detail_list(path: &str) -> (r: Vec<DetailEntry>)
    ensures
        details_view(r) == path_details(path@),
{
    let mut d: Vec<DetailEntry> = Vec::new();
    d.push(DetailEntry::text("path", path));
    assert(details_view(d) =~= path_details(path@));
    d
}

fn status_detail_list(path: &str, status: u16) -> (r: Vec<DetailEntry>)
    ensures
        details_view(r) == status_details(path@, status),
{
    let mut d: Vec<DetailEntry> = Vec::new();
    d.push(DetailEntry::text("path", path));
    d.push(DetailEntry::number("status", status as u64));
    assert(details_view(d) =~= status_details(path@, status));
    d
}

fn concat(a: &str, b: &str) -> (r: String)
    ensures
        r@ == a@ + b@,
{
    let mut s = string_of(a);
    push_str(&mut s, b);
    s
}

/// The error for a request that failed in transport: a retryable `Timeout`
/// when it timed out, else a retryable `Transport`; `err_text` is how the
/// HTTP client describes the failure.
pub fn map_transport_error(is_timeout: bool, err_text: &str, path: &str) -> (r: RuntimeError)
    ensures
        r@ == if is_timeout {
            retryable_detailed_error(
                RuntimeErrorCode::Timeout,
                "mirror request timed out: "@ + err_text@,
                true,
                path_details(path@),
            )
        } else {
            retryable_detailed_error(
                RuntimeErrorCode::Transport,
                "mirror transport error: "@ + err_text@,
                true,
                path_details(path@),
            )
        },
{
    if is_timeout {
        let m = concat("mirror request timed out: ", err_text);
        RuntimeError::with_retryable_and_details(
            RuntimeErrorCode::Timeout,
            m.as_str(),
            true,
            path_detail_list(path),
        )
    } else {
        let m = concat("mirror transport error: ", err_text);
        RuntimeError::with_retryable_and_details(
            RuntimeErrorCode::Transport,
            m.as_str(),
            true,
            path_detail_list(path),
        )
    }
}

/// The error for an unsuccessful HTTP status: 404 is `NotFound`, 429 a
/// retryable `RateLimited`, 5xx a retryable `MirrorHttp`, anything else a
/// `MirrorHttp` that is not retried.
pub open spec fn http_status_error(status: u16, path: Seq<char>) -> RuntimeErrorView {
    if status == 404 {
        detailed_error(
            RuntimeErrorCode::NotFound,
            "mirror resource not found at "@ + path,
            status_details(path, status),
        )
    } else if status == 429 {
        retryable_detailed_error(
            RuntimeErrorCode::RateLimited,
            "mirror rate limited request to "@ + path,
            true,
            status_details(path, status),
        )
    } else if 500 <= status <= 599 {
        retryable_detailed_error(
            RuntimeErrorCode::MirrorHttp,
            "mirror server error on "@ + path,
            true,
            status_details(path, status),
        )
    } else {
        detailed_error(
            RuntimeErrorCode::MirrorHttp,
            "mirror http error on "@ + path,
            status_details(path, status),
        )
    }
}

/// Maps an unsuccessful HTTP status (see `http_status_error`).
pub fn map_http_status(status: u16, path: &str) -> (r: RuntimeError)
    ensures
        r@ == http_status_error(status, path@),
{
    if status == 404 {
        let m = concat("mirror resource not found at ", path);
        RuntimeError::with_details(RuntimeErrorCode::NotFound, m.as_str(), status_detail_list(path, status))
    } else if status == 429 {
        let m = concat("mirror rate limited request to ", path);
        RuntimeError::with_retryable_and_details(
            RuntimeErrorCode::RateLimited,
            m.as_str(),
            true,
            status_detail_list(path, status),
        )
    } else if 500 <= status && status <= 599 {
        let m = concat("mirror server error on ", path);
        RuntimeError::with_retryable_and_details(
            RuntimeErrorCode::MirrorHttp,
            m.as_str(),
            true,
            status_detail_list(path, status),
        )
    } else {
        let m = concat("mirror http error on ", path);
        RuntimeError::with_details(RuntimeErrorCode::MirrorHttp, m.as_str(), status_detail_list(path, status))
    }
}

/// The error for a response body that could not be read as expected.
pub fn map_deserialize_error(err_text: &str, path: &str) -> (r: RuntimeError)
    ensures
        r@ == detailed_error(
            RuntimeErrorCode::Serialization,
            "failed to deserialize mirror response: "@ + err_text@,
            path_details(path@),
        ),
{
    let m = concat("failed to deserialize mirror response: ", err_text);
    RuntimeError::with_details(RuntimeErrorCode::Serialization, m.as_str(), path_detail_list(path))
}

// ── Waiting for a transaction to become visible ──────────────────────────────

/// The error when a transaction stays invisible past the timeout.
pub open spec fn mirror_timeout_message(tx: TransactionRefView, timeout_ms: u64) -> Seq<char> {
    "mirror transaction "@ + canonical_string(tx) + " not visible within "@ + decimal(
        timeout_ms as nat,
    ) + "ms"@
}

/// What waiting for a transaction does after one lookup made `elapsed_ms`
/// after the wait began: a lookup that found it ends the wait; `NotFound`
/// and retryable errors poll again after the poll interval, unless the
/// mirror timeout has passed, which ends the wait with a `Timeout`; any
/// other error ends the wait with that error.
pub open spec fn mirror_wait_outcome(
    tx: TransactionRefView,
    policy: FinalityPolicy,
    elapsed_ms: u64,
    err: Option<RuntimeErrorView>,
) -> Option<Result<(), RuntimeErrorView>> {
    match err {
        None => Some(Ok(())),
        Some(e) => if e.code == RuntimeErrorCode::NotFound || e.retryable {
            if elapsed_ms >= policy.mirror_timeout_ms {
                Some(Err(plain_error(RuntimeErrorCode::Timeout, mirror_timeout_message(tx, policy.mirror_timeout_ms))))
            } else {
                None
            }
        } else {
            Some(Err(e))
        },
    }
}

/// Decides the next step of waiting for a transaction to become visible on
/// the Mirror Node (see `mirror_wait_outcome`); `Sleep` carries the poll
/// interval.
pub fn mirror_wait_step(
    tx_ref: &TransactionRef,
    policy: &FinalityPolicy,
    elapsed_ms: u64,
    outcome: Result<TransactionLookup, RuntimeError>,
) -> (r: PollAction<TransactionLookup>)
    ensures
        ({
            let err = match outcome {
                Ok(_) => None,
                Err(e) => Some(e@),
            };
            match mirror_wait_outcome(tx_ref@, *policy, elapsed_ms, err) {
                None => r == PollAction::<TransactionLookup>::Sleep(policy.poll_interval_ms),
                Some(Ok(())) => r matches PollAction::Done(Ok(l)) && outcome == Ok::<
                    TransactionLookup,
                    RuntimeError,
                >(l),
                Some(Err(ev)) => r matches PollAction::Done(Err(e)) && e@ == ev,
            }
        }),
{
    match outcome {
        Ok(lookup) => PollAction::Done(Ok(lookup)),
        Err(err) => {
            if err.code == RuntimeErrorCode::NotFound || err.is_retryable() {
                if elapsed_ms >= policy.mirror_timeout_ms {
                    let mut m = string_of("mirror transaction ");
                    let c = tx_ref.to_canonical_string();
                    push_str(&mut m, c.as_str());
                    push_str(&mut m, " not visible within ");
                    push_decimal(&mut m, policy.mirror_timeout_ms);
                    push_str(&mut m, "ms");
                    PollAction::Done(Err(RuntimeError::timeout(m.as_str())))
                } else {
                    PollAction::Sleep(policy.poll_interval_ms)
                }
            } else {
                PollAction::Done(Err(err))
            }
        },
    }
}

/// Waiting for a transaction is bounded: once the mirror timeout has
/// passed, every lookup ends the wait.
pub proof fn law_mirror_wait_bounded(
    tx: TransactionRefView,
    policy: FinalityPolicy,
    elapsed_ms: u64,
    err: Option<RuntimeErrorView>,
)
    ensures
        elapsed_ms >= policy.mirror_timeout_ms ==> mirror_wait_outcome(tx, policy, elapsed_ms, err) is Some,
{
}

/// Of the HTTP failures, the request loop retries rate limiting and server
/// errors while attempts remain, and never a missing resource or another
/// client error.
pub proof fn law_http_status_retries(
    p: RetryPolicy,
    attempts_completed: u32,
    status: u16,
    path: Seq<char>,
    entropy: u64,
)
    ensures
        retry_decision(
            p,
            attempts_completed,
            http_status_error(status, path).retryable,
            entropy,
        ).should_retry <==> ((status == 429 || (500 <= status <= 599)) && attempts_completed
            < p.max_attempts),
{
}

} // verus!

verus! {

// ── A whole wait for a transaction ───────────────────────────────────────────

/// The error part of a lookup outcome.
pub open spec fn lookup_error(outcome: Result<TransactionLookup, RuntimeError>) -> Option<
    RuntimeErrorView,
> {
    match outcome {
        Ok(_) => None,
        Err(e) => Some(e@),
    }
}

/// A lookup after which the wait polls again: it failed with `NotFound` or
/// a retryable error before the mirror timeout.
pub open spec fn mirror_wait_goes_on(
    policy: FinalityPolicy,
    step: (u64, Result<TransactionLookup, RuntimeError>),
) -> bool {
    step.1 matches Err(e) && (e.code == RuntimeErrorCode::NotFound || e.retryable) && step.0
        < policy.mirror_timeout_ms
}

/// The number of lookups after which the wait polls again before it ends:
/// the index of the lookup that ends it, or the number of lookups when none
/// does.
pub open spec fn mirror_wait_stop(
    policy: FinalityPolicy,
    steps: Seq<(u64, Result<TransactionLookup, RuntimeError>)>,
) -> int
    decreases steps.len(),
{
    if steps.len() == 0 || !mirror_wait_goes_on(policy, steps[0]) {
        0
    } else {
        1 + mirror_wait_stop(policy, steps.drop_first())
    }
}

/// What waiting for a transaction gives when its lookups, in order, are
/// `steps` (each with the time since the wait began): the result of the
/// first lookup that ends the wait, or `None` while none has.
pub open spec fn mirror_wait_run(
    tx: TransactionRefView,
    policy: FinalityPolicy,
    steps: Seq<(u64, Result<TransactionLookup, RuntimeError>)>,
) -> Option<Result<TransactionLookup, RuntimeErrorView>>
    decreases steps.len(),
{
    if steps.len() == 0 {
        None
    } else {
        match mirror_wait_outcome(tx, policy, steps[0].0, lookup_error(steps[0].1)) {
            None => mirror_wait_run(tx, policy, steps.drop_first()),
            Some(Ok(())) => match steps[0].1 {
                Ok(l) => Some(Ok(l)),
                Err(e) => Some(Err(e@)),
            },
            Some(Err(e)) => Some(Err(e)),
        }
    }
}

/// A whole wait for a transaction: every lookup before the one that ends
/// the wait failed with `NotFound` or a retryable error before the timeout;
/// the wait ends with the first lookup that found the transaction, with the
/// `Timeout` error once a lookup fails that way past the timeout, or with
/// any other error as it came; and while no lookup ends it, it goes on.
pub proof fn law_mirror_wait_run(
    tx: TransactionRefView,
    policy: FinalityPolicy,
    steps: Seq<(u64, Result<TransactionLookup, RuntimeError>)>,
)
    ensures
        ({
            let k = mirror_wait_stop(policy, steps);
            let run = mirror_wait_run(tx, policy, steps);
            &&& 0 <= k <= steps.len()
            &&& forall|j: int| 0 <= j < k ==> mirror_wait_goes_on(policy, #[trigger] steps[j])
            &&& k == steps.len() ==> run is None
            &&& k < steps.len() ==> !mirror_wait_goes_on(policy, steps[k]) && match steps[k].1 {
                Ok(l) => run == Some(Ok::<TransactionLookup, RuntimeErrorView>(l)),
                Err(e) => if e.code == RuntimeErrorCode::NotFound || e.retryable {
                    run == Some(
                        Err::<TransactionLookup, RuntimeErrorView>(
                            plain_error(
                                RuntimeErrorCode::Timeout,
                                mirror_timeout_message(tx, policy.mirror_timeout_ms),
                            ),
                        ),
                    )
                } else {
                    run == Some(Err::<TransactionLookup, RuntimeErrorView>(e@))
                },
            }
        }),
    decreases steps.len(),
{
    if steps.len() > 0 && mirror_wait_goes_on(policy, steps[0]) {
        let rest = steps.drop_first();
        law_mirror_wait_run(tx, policy, rest);
        assert forall|j: int| 0 <= j < mirror_wait_stop(policy, steps) implies mirror_wait_goes_on(
            policy,
            #[trigger] steps[j],
        ) by {
            if j > 0 {
                assert(steps[j] == rest[j - 1]);
            }
        }
        if mirror_wait_stop(policy, steps) < steps.len() {
            assert(steps[mirror_wait_stop(policy, steps)] == rest[mirror_wait_stop(policy, rest)]);
        }
    }
}

} // verus!
