use vstd::prelude::*;

use crate::error::{plain_error, RuntimeError, RuntimeErrorCode};
use crate::text::{
    chars_of, find_char, first_index, lemma_first_index, lemma_first_index_after,
    lemma_parse_i32_signed_decimal, lemma_split_on_without_sep, lemma_trim_empty_iff_blank,
    lemma_trim_idempotent, lemma_trim_keeps_out, lemma_trim_of_trimmed, lemma_trimmed_ends,
    pad_left, parse_i32, parse_i32_chars, push_padded, push_signed_decimal, push_str,
    signed_decimal, slice_chars, split_chars, split_on, starts_with, string_from_chars, trim,
    trim_chars,
};

verus! {

// ── Transaction references ───────────────────────────────────────────────────

/// Parsed representation of a Hedera transaction reference.
#[derive(Debug, Clone, PartialEq, Eq)]
pub struct TransactionRef {
    pub base_id: String,
    pub scheduled: bool,
    pub nonce: Option<i32>,
}

/// Abstract value of a `TransactionRef`.
pub struct TransactionRefView {
    pub base_id: Seq<char>,
    pub scheduled: bool,
    pub nonce: Option<i32>,
}

impl View for TransactionRef {
    type V = TransactionRefView;

    open spec fn view(&self) -> TransactionRefView {
        TransactionRefView { base_id: self.base_id@, scheduled: self.scheduled, nonce: self.nonce }
    }
}

/// A query part that marks the reference as scheduled.
pub open spec fn part_is_scheduled(part: Seq<char>) -> bool {
    trim(part) == "scheduled"@ || trim(part) == "scheduled="@
}

/// The nonce that a query part gives, if it is a well formed `nonce=<i32>`.
pub open spec fn part_nonce(part: Seq<char>) -> Option<i32> {
    if !part_is_scheduled(part) && starts_with(trim(part), "nonce="@) {
        parse_i32(trim(part).skip(6))
    } else {
        None
    }
}

/// Some query part marks the reference as scheduled.
pub open spec fn query_scheduled(parts: Seq<Seq<char>>) -> bool {
    exists|i: int| 0 <= i < parts.len() && part_is_scheduled(#[trigger] parts[i])
}

/// The nonce of the last query part that gives one.
pub open spec fn query_nonce(parts: Seq<Seq<char>>) -> Option<i32>
    decreases parts.len(),
{
    if parts.len() == 0 {
        None
    } else {
        match part_nonce(parts.last()) {
            Some(n) => Some(n),
            None => query_nonce(parts.drop_last()),
        }
    }
}

/// What `TransactionRef::parse` gives for a raw transaction id: the
/// reference, or the message of the `InvalidConfig` error.
pub open spec fn parse_transaction_ref(raw: Seq<char>) -> Result<TransactionRefView, Seq<char>> {
    if trim(raw).len() == 0 {
        Err("transactionId must not be empty"@)
    } else {
        let r = match first_index(raw, '?') {
            Some(q) => {
                let parts = split_on(raw.skip(q + 1), '&');
                TransactionRefView {
                    base_id: trim(raw.take(q)),
                    scheduled: query_scheduled(parts),
                    nonce: query_nonce(parts),
                }
            },
            None => TransactionRefView { base_id: trim(raw), scheduled: false, nonce: None },
        };
        if r.base_id.len() == 0 {
            Err("transactionId base must not be empty"@)
        } else {
            Ok(r)
        }
    }
}

/// The suffix that marks a scheduled reference or carries its nonce.
pub open spec fn ref_suffix(scheduled: bool, nonce: Option<i32>, scheduled_text: Seq<char>) -> Seq<
    char,
> {
    if scheduled {
        scheduled_text
    } else {
        match nonce {
            Some(n) => "?nonce="@ + signed_decimal(n as int),
            None => Seq::<char>::empty(),
        }
    }
}

/// The canonical text of a reference.
pub open spec fn canonical_string(t: TransactionRefView) -> Seq<char> {
    t.base_id + ref_suffix(t.scheduled, t.nonce, "?scheduled"@)
}

/// The Mirror Node form of a transaction id: `account@seconds.nanos` becomes
/// `account-seconds-nanos`, the nanoseconds padded with zeros to nine digits.
pub open spec fn mirror_tx_id(base_id: Seq<char>) -> Seq<char> {
    match first_index(base_id, '@') {
        Some(at) => {
            let account = base_id.take(at);
            let timestamp = base_id.skip(at + 1);
            match first_index(timestamp, '.') {
                Some(dot) => account + "-"@ + timestamp.take(dot) + "-"@ + pad_left(
                    timestamp.skip(dot + 1),
                    9,
                    '0',
                ),
                None => base_id,
            }
        },
        None => base_id,
    }
}

/// The Mirror Node API path of a reference.
pub open spec fn mirror_path(t: TransactionRefView) -> Seq<char> {
    "/api/v1/transactions/"@ + mirror_tx_id(t.base_id) + ref_suffix(
        t.scheduled,
        t.nonce,
        "?scheduled=true"@,
    )
}

/// Scans the query parts for the scheduled marker and the last nonce.
fn scan_query(parts: &Vec<Vec<char>>) -> (r: (bool, Option<i32>))
    ensures
        r.0 == query_scheduled(parts@.map_values(|p: Vec<char>| p@)),
        r.1 == query_nonce(parts@.map_values(|p: Vec<char>| p@)),
{
    let ghost all = parts@.map_values(|p: Vec<char>| p@);
    proof {
        reveal_strlit("nonce=");
    }
    let scheduled_text = chars_of("scheduled");
    let scheduled_eq_text = chars_of("scheduled=");
    let nonce_text = chars_of("nonce=");
    let mut scheduled = false;
    let mut nonce: Option<i32> = None;
    let mut i: usize = 0;
    while i < parts.len()
        invariant
            i <= parts.len(),
            all == parts@.map_values(|p: Vec<char>| p@),
            scheduled_text@ == "scheduled"@,
            scheduled_eq_text@ == "scheduled="@,
            nonce_text@ == "nonce="@,
            scheduled == query_scheduled(all.take(i as int)),
            nonce == query_nonce(all.take(i as int)),
        decreases parts.len() - i,
    {
        let trimmed = trim_chars(&parts[i]);
        assert(all[i as int] == parts@[i as int]@);
        assert(all.take(i + 1).drop_last() =~= all.take(i as int));
        assert(all.take(i + 1).last() == all[i as int]);
        let is_sched = vec_eq(&trimmed, &scheduled_text) || vec_eq(&trimmed, &scheduled_eq_text);
        if is_sched {
            scheduled = true;
            assert(part_is_scheduled(all.take(i + 1)[i as int]));
        } else {
            proof {
                assert forall|k: int|
                    0 <= k < i + 1 && part_is_scheduled(#[trigger] all.take(i + 1)[k]) implies 0
                    <= k < i && part_is_scheduled(all.take(i as int)[k]) by {
                    if k < i {
                        assert(all.take(i + 1)[k] == all.take(i as int)[k]);
                    }
                }
                assert forall|k: int|
                    0 <= k < i && part_is_scheduled(#[trigger] all.take(i as int)[k]) implies 0
                    <= k < i + 1 && part_is_scheduled(all.take(i + 1)[k]) by {
                    assert(all.take(i + 1)[k] == all.take(i as int)[k]);
                }
            }
            if prefix_matches(&trimmed, &nonce_text) {
                proof {
                    reveal_strlit("nonce=");
                }
                let digits = slice_chars(&trimmed, 6, trimmed.len());
                assert(trimmed@.take(6) == "nonce="@);
                assert(digits@ == trimmed@.skip(6));
                match parse_i32_chars(&digits) {
                    Some(n) => {
                        nonce = Some(n);
                    },
                    None => {},
                }
            }
        }
        proof {
            if is_sched {
                assert forall|k: int|
                    0 <= k < i && part_is_scheduled(#[trigger] all.take(i as int)[k]) implies 0
                    <= k < i + 1 && part_is_scheduled(all.take(i + 1)[k]) by {
                    assert(all.take(i + 1)[k] == all.take(i as int)[k]);
                }
            }
        }
        i = i + 1;
    }
    assert(all.take(i as int) =~= all);
    (scheduled, nonce)
}

/// Tests two character vectors for equality.
fn vec_eq(a: &Vec<char>, b: &Vec<char>) -> (r: bool)
    ensures
        r == (a@ == b@),
{
    if a.len() != b.len() {
        return false;
    }
    let mut i: usize = 0;
    while i < a.len()
        invariant
            i <= a.len() == b.len(),
            forall|k: int| 0 <= k < i ==> a@[k] == b@[k],
        decreases a.len() - i,
    {
        if a[i] != b[i] {
            return false;
        }
        i = i + 1;
    }
    assert(a@ =~= b@);
    true
}

/// Tests whether `s` begins with `p`.
fn prefix_matches(s: &Vec<char>, p: &Vec<char>) -> (r: bool)
    ensures
        r == starts_with(s@, p@),
{
    if p.len() > s.len() {
        return false;
    }
    let mut i: usize = 0;
    while i < p.len()
        invariant
            i <= p.len() <= s.len(),
            forall|k: int| 0 <= k < i ==> s@[k] == p@[k],
        decreases p.len() - i,
    {
        if s[i] != p[i] {
            assert(s@.take(p.len() as int)[i as int] != p@[i as int]);
            return false;
        }
        i = i + 1;
    }
    assert(s@.take(p.len() as int) =~= p@);
    true
}

/// Appends the scheduled marker or the nonce of a reference.
fn push_suffix(s: &mut String, scheduled: bool, nonce: Option<i32>, scheduled_text: &str)
    ensures
        final(s)@ == old(s)@ + ref_suffix(scheduled, nonce, scheduled_text@),
{
    if scheduled {
        push_str(s, scheduled_text);
    } else {
        match nonce {
            Some(n) => {
                push_str(s, "?nonce=");
                push_signed_decimal(s, n as i64);
                assert(old(s)@ + ref_suffix(scheduled, nonce, scheduled_text@) =~= old(s)@
                    + "?nonce="@ + signed_decimal(n as int));
            },
            None => {
                assert(old(s)@ + Seq::<char>::empty() =~= old(s)@);
            },
        }
    }
}

impl TransactionRef {
    /// Parses `base[?query]`: the query may mark the reference as scheduled
    /// (`scheduled` or `scheduled=`) and carry a nonce (`nonce=<i32>`).
    pub fn parse(raw: &str) -> (r: Result<TransactionRef, RuntimeError>)
        ensures
            match r {
                Ok(t) => parse_transaction_ref(raw@) == Ok::<TransactionRefView, Seq<char>>(t@),
                Err(e) => parse_transaction_ref(raw@) matches Err(m) && e@ == plain_error(
                    RuntimeErrorCode::InvalidConfig,
                    m,
                ),
            },
    {
        let cs = chars_of(raw);
        let whole = trim_chars(&cs);
        if whole.len() == 0 {
            return Err(RuntimeError::new(RuntimeErrorCode::InvalidConfig, "transactionId must not be empty"));
        }
        let (base, scheduled, nonce) = match find_char(&cs, '?') {
            Some(q) => {
                let head = slice_chars(&cs, 0, q);
                let query = slice_chars(&cs, q + 1, cs.len());
                assert(head@ == cs@.take(q as int));
                assert(query@ == cs@.skip(q + 1));
                let parts = split_chars(&query, '&');
                let (scheduled, nonce) = scan_query(&parts);
                (trim_chars(&head), scheduled, nonce)
            },
            None => (whole, false, None),
        };
        if base.len() == 0 {
            return Err(RuntimeError::new(RuntimeErrorCode::InvalidConfig, "transactionId base must not be empty"));
        }
        Ok(TransactionRef { base_id: string_from_chars(&base), scheduled, nonce })
    }

    /// Returns the canonical string representation.
    pub fn to_canonical_string(&self) -> (r: String)
        ensures
            r@ == canonical_string(self@),
    {
        let mut s = self.base_id.clone();
        push_suffix(&mut s, self.scheduled, self.nonce, "?scheduled");
        s
    }

    /// Returns the Mirror Node API path for this transaction reference.
    pub fn to_mirror_path(&self) -> (r: String)
        ensures
            r@ == mirror_path(self@),
    {
        let normalized = normalize_tx_id_for_mirror(self.base_id.as_str());
        let mut path = string_of_prefix("/api/v1/transactions/");
        push_str(&mut path, normalized.as_str());
        push_suffix(&mut path, self.scheduled, self.nonce, "?scheduled=true");
        path
    }
}

/// A reference as `to_canonical_string` writes it and `parse` reads it: a
/// base id that is not empty, has no white space at either end and no `?`,
/// and not both the scheduled marker and a nonce (the text keeps only the
/// marker).
pub open spec fn is_canonical_ref(t: TransactionRefView) -> bool {
    &&& t.base_id.len() > 0
    &&& trim(t.base_id) == t.base_id
    &&& forall|i: int| 0 <= i < t.base_id.len() ==> t.base_id[i] != '?'
    &&& !(t.scheduled && t.nonce is Some)
}

/// `parse` reads back what `to_canonical_string` writes.
pub proof fn law_parse_reads_back_canonical_string(t: TransactionRefView)
    requires
        is_canonical_ref(t),
    ensures
        parse_transaction_ref(canonical_string(t)) == Ok::<TransactionRefView, Seq<char>>(t),
{
    let base = t.base_id;
    let raw = canonical_string(t);
    let suffix = ref_suffix(t.scheduled, t.nonce, "?scheduled"@);
    assert(raw == base + suffix);
    lemma_trimmed_ends(base);
    assert(raw[0] == base[0]);
    lemma_trim_empty_iff_blank(raw);
    assert(trim(raw).len() != 0);
    if suffix.len() == 0 {
        reveal_strlit("?scheduled");
        reveal_strlit("?nonce=");
        assert(!t.scheduled && t.nonce is None);
        assert(raw =~= base);
        lemma_first_index(raw, '?');
        assert(first_index(raw, '?') is None);
    } else {
        let rest = suffix.skip(1);
        let q = base.len() as int;
        proof_suffix_shape(t.scheduled, t.nonce);
        lemma_first_index_after(base, suffix, '?');
        assert(raw.take(q) =~= base);
        assert(raw.skip(q + 1) =~= rest);
        lemma_split_on_without_sep(rest, '&');
        let parts = split_on(rest, '&');
        assert(parts.drop_last() =~= Seq::<Seq<char>>::empty());
        assert(parts[0] == rest);
        assert(parts.last() == rest);
        assert(query_nonce(parts.drop_last()) == None::<i32>);
        assert(query_scheduled(parts) == part_is_scheduled(rest));
        assert(query_nonce(parts) == part_nonce(rest));
        assert(trim(raw.take(q)) == base);
        let r = TransactionRefView {
            base_id: trim(raw.take(q)),
            scheduled: query_scheduled(parts),
            nonce: query_nonce(parts),
        };
        assert(r == t);
    }
}

/// The query text after the `?` of a canonical suffix: `scheduled`, or
/// `nonce=` and the nonce; it holds no `&`, and its part reads back.
proof fn proof_suffix_shape(scheduled: bool, nonce: Option<i32>)
    requires
        ref_suffix(scheduled, nonce, "?scheduled"@).len() > 0,
    ensures
        ({
            let suffix = ref_suffix(scheduled, nonce, "?scheduled"@);
            let rest = suffix.skip(1);
            &&& suffix[0] == '?'
            &&& forall|i: int| 0 <= i < rest.len() ==> rest[i] != '&'
            &&& part_is_scheduled(rest) == scheduled
            &&& part_nonce(rest) == if scheduled {
                None
            } else {
                nonce
            }
        }),
{
    reveal_strlit("?scheduled");
    reveal_strlit("scheduled");
    reveal_strlit("scheduled=");
    reveal_strlit("?nonce=");
    reveal_strlit("nonce=");
    let suffix = ref_suffix(scheduled, nonce, "?scheduled"@);
    let rest = suffix.skip(1);
    if scheduled {
        assert(rest =~= "scheduled"@);
        lemma_trim_of_trimmed(rest);
    } else {
        let n = nonce->0;
        let sd = signed_decimal(n as int);
        lemma_parse_i32_signed_decimal(n);
        assert(rest =~= "nonce="@ + sd);
        assert forall|i: int| 0 <= i < rest.len() implies rest[i] != '&' by {
            if i >= 6 {
                assert(rest[i] == sd[i - 6]);
            }
        }
        assert(rest.last() == sd.last());
        lemma_trim_of_trimmed(rest);
        assert(rest[0] == 'n');
        assert(rest != "scheduled"@);
        assert(rest != "scheduled="@);
        assert(rest.take(6) =~= "nonce="@);
        assert(rest.skip(6) =~= sd);
    }
}

/// Writing a parsed reference canonically and reading it again gives it
/// back, except that a scheduled reference drops its nonce, which the
/// canonical text leaves out; so canonical text is stable.
pub proof fn law_canonical_string_is_stable(raw: Seq<char>)
    ensures
        parse_transaction_ref(raw) matches Ok(t) ==> {
            let kept = TransactionRefView {
                base_id: t.base_id,
                scheduled: t.scheduled,
                nonce: if t.scheduled {
                    None
                } else {
                    t.nonce
                },
            };
            &&& canonical_string(kept) == canonical_string(t)
            &&& parse_transaction_ref(canonical_string(t)) == Ok::<TransactionRefView, Seq<char>>(kept)
        },
{
    if parse_transaction_ref(raw) is Ok {
        let t = parse_transaction_ref(raw)->Ok_0;
        let kept = TransactionRefView {
            base_id: t.base_id,
            scheduled: t.scheduled,
            nonce: if t.scheduled {
                None
            } else {
                t.nonce
            },
        };
        lemma_first_index(raw, '?');
        match first_index(raw, '?') {
            Some(q) => {
                assert forall|i: int| 0 <= i < raw.take(q).len() implies raw.take(q)[i] != '?' by {
                    assert(raw.take(q)[i] == raw[i]);
                }
                lemma_trim_keeps_out(raw.take(q), '?');
                lemma_trim_idempotent(raw.take(q));
            },
            None => {
                lemma_trim_keeps_out(raw, '?');
                lemma_trim_idempotent(raw);
            },
        }
        assert(is_canonical_ref(kept));
        assert(canonical_string(kept) =~= canonical_string(t));
        law_parse_reads_back_canonical_string(kept);
    }
}

fn string_of_prefix(s: &str) -> (r: String)
    ensures
        r@ == s@,
{
    crate::text::string_of(s)
}

/// Rewrites `account@seconds.nanos` into the Mirror Node form
/// `account-seconds-nanos`; any other id is kept as it is.
pub fn normalize_tx_id_for_mirror(base_id: &str) -> (r: String)
    ensures
        r@ == mirror_tx_id(base_id@),
{
    let cs = chars_of(base_id);
    if let Some(at) = find_char(&cs, '@') {
        let account = slice_chars(&cs, 0, at);
        let timestamp = slice_chars(&cs, at + 1, cs.len());
        assert(account@ == cs@.take(at as int));
        assert(timestamp@ == cs@.skip(at + 1));
        if let Some(dot) = find_char(&timestamp, '.') {
            let seconds = slice_chars(&timestamp, 0, dot);
            let nanos = slice_chars(&timestamp, dot + 1, timestamp.len());
            assert(seconds@ == timestamp@.take(dot as int));
            assert(nanos@ == timestamp@.skip(dot + 1));
            let mut out = string_from_chars(&account);
            push_str(&mut out, "-");
            let sec = string_from_chars(&seconds);
            push_str(&mut out, sec.as_str());
            push_str(&mut out, "-");
            push_padded(&mut out, &nanos, 9, '0');
            return out;
        }
    }
    string_from_chars(&cs)
}

} // verus!

verus! {

// ── Domain models ────────────────────────────────────────────────────────────

/// A transaction accepted for submission.
#[derive(Debug, Clone, PartialEq, Eq)]
pub struct SubmittedTransaction {
    pub transaction_id: String,
}

/// Receipt oriented result returned once consensus receipt is available.
#[derive(Debug, Clone, PartialEq, Eq)]
pub struct ReceiptResult {
    pub transaction_id: String,
    pub status: String,
}

/// Normalized mirror transaction entry.
#[derive(Debug, PartialEq, Eq)]
pub struct MirrorTransactionRecord {
    pub transaction_id: String,
    pub result: String,
    pub consensus_timestamp: Option<String>,
    pub name: Option<String>,
    pub scheduled: Option<bool>,
    pub nonce: Option<i32>,
}

/// A copy of an optional string.
pub fn clone_opt_string(s: &Option<String>) -> (r: Option<String>)
    ensures
        r == *s,
{
    match s {
        Some(v) => Some(v.clone()),
        None => None,
    }
}

impl Clone for MirrorTransactionRecord {
    fn clone(&self) -> (r: MirrorTransactionRecord)
        ensures
            r == *self,
    {
        MirrorTransactionRecord {
            transaction_id: self.transaction_id.clone(),
            result: self.result.clone(),
            consensus_timestamp: clone_opt_string(&self.consensus_timestamp),
            name: clone_opt_string(&self.name),
            scheduled: self.scheduled,
            nonce: self.nonce,
        }
    }
}

/// Normalized mirror account view returned by `GET /api/v1/accounts/{id}`.
#[derive(Debug, Clone, PartialEq, Eq)]
pub struct MirrorAccountView {
    pub account: String,
    pub balance: String,
    pub evm_address: Option<String>,
    pub deleted: bool,
    pub memo: String,
}

/// Normalized contract execution result returned by
/// `GET /api/v1/contracts/results/{transactionIdOrHash}`.
#[derive(Debug, Clone, PartialEq, Eq)]
pub struct ContractResultView {
    pub contract_id: Option<String>,
    pub transaction_id: String,
    pub result: String,
    pub status: String,
    pub gas_used: String,
    pub error_message: Option<String>,
    pub call_result: Option<String>,
    pub from: Option<String>,
    pub to: Option<String>,
}

/// A single page of transaction records returned by list queries.
#[derive(Debug, Clone, PartialEq, Eq)]
pub struct TransactionPage {
    pub items: Vec<MirrorTransactionRecord>,
    pub next_cursor: Option<String>,
}

/// Finalized tx view combining receipt level state and Mirror visibility.
#[derive(Debug, Clone, PartialEq, Eq)]
pub struct FinalizedTransaction {
    pub transaction_id: String,
    pub receipt: ReceiptResult,
    pub primary_mirror_entry: Option<MirrorTransactionRecord>,
    pub duplicates: Vec<MirrorTransactionRecord>,
}

/// Stable schedule lifecycle states used by the runtime.
#[derive(Debug, Clone, Copy, PartialEq, Eq, Structural)]
pub enum ScheduleState {
    PendingSignatures,
    Executed,
    Expired,
    Deleted,
}

/// Result returned when a schedule has been created successfully.
#[derive(Debug, Clone, PartialEq, Eq)]
pub struct CreatedSchedule {
    pub schedule_id: String,
    pub scheduled_transaction_id: String,
    pub status: ScheduleState,
}

/// Schedule summary used across schedule orchestration APIs.
#[derive(Debug, Clone, PartialEq, Eq)]
pub struct ScheduleInfoView {
    pub schedule_id: String,
    pub payer_account_id: Option<String>,
    pub creator_account_id: Option<String>,
    pub signatories: Vec<String>,
    pub scheduled_transaction_id: Option<String>,
    pub status: ScheduleState,
    pub expiration_time: Option<String>,
    pub executed_timestamp: Option<String>,
    pub deletion_timestamp: Option<String>,
}

/// Final schedule execution result, normalized through the tx runtime.
#[derive(Debug, Clone, PartialEq, Eq)]
pub struct ScheduleExecution {
    pub schedule_id: String,
    pub scheduled_transaction_id: String,
    pub finalized: FinalizedTransaction,
}

} // verus!
