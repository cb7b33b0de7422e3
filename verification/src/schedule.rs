use vstd::prelude::*;

use crate::config::{finality_policy_problem, FinalityPolicy};
use crate::error::{
    detailed_error, details_view, plain_error, DetailEntry, DetailValueView, RuntimeError,
    RuntimeErrorCode, RuntimeErrorView,
};
use crate::model::{
    FinalizedTransaction, ReceiptResult, ScheduleExecution, ScheduleInfoView, ScheduleState,
};
use crate::sdk::{map_schedule_sdk_error, schedule_sdk_error};
use crate::text::{
    chars_of, contains, contains_str, decimal, is_blank, pad_left, push_decimal, push_padded,
    push_signed_decimal, push_str, signed_decimal, string_of, to_ascii_upper, to_ascii_upper_chars,
    trim,
};
use crate::mirror::TransactionLookup;
use crate::tx::{check_finality_policy, finality_result, law_two_phase_finality, receipt_is_final};

verus! {

// ── Requests ─────────────────────────────────────────────────────────────────

/// A scheduled transfer of tinybars, to be signed by its parties.
#[derive(Debug, Clone, PartialEq, Eq)]
pub struct CreateTransferRequest {
    pub from_account_id: String,
    pub to_account_id: String,
    pub payer_account_id: Option<String>,
    pub amount_tinybar: u64,
    pub memo: Option<String>,
}

/// What is wrong with a scheduled transfer request, if anything: the first
/// failed rule.
pub open spec fn create_transfer_problem(r: CreateTransferRequest) -> Option<Seq<char>> {
    if trim(r.from_account_id@).len() == 0 {
        Some("fromAccountId must not be empty"@)
    } else if trim(r.to_account_id@).len() == 0 {
        Some("toAccountId must not be empty"@)
    } else if r.payer_account_id matches Some(p) && trim(p@).len() == 0 {
        Some("payerAccountId must not be empty when provided"@)
    } else if r.amount_tinybar == 0 {
        Some("amountTinybar must be greater than zero"@)
    } else {
        None
    }
}

/// A scheduled transfer request is accepted exactly when the sender and
/// the recipient are given (not blank), a payer, if named, is not blank, and
/// the amount is positive; a blank recipient beside a given sender is
/// refused for that reason.
pub proof fn law_create_transfer_checks(r: CreateTransferRequest)
    ensures
        create_transfer_problem(r) is None <==> (trim(r.from_account_id@).len() > 0 && trim(
            r.to_account_id@,
        ).len() > 0 && match r.payer_account_id {
            Some(p) => trim(p@).len() > 0,
            None => true,
        } && r.amount_tinybar > 0),
        trim(r.from_account_id@).len() > 0 && trim(r.to_account_id@).len() == 0
            ==> create_transfer_problem(r) == Some("toAccountId must not be empty"@),
{
}

impl CreateTransferRequest {
    /// Checks the request; the `InvalidConfig` error names the first rule
    /// that fails.
    pub fn validate(&self) -> (r: Result<(), RuntimeError>)
        ensures
            match create_transfer_problem(*self) {
                None => r is Ok,
                Some(m) => r matches Err(e) && e@ == plain_error(RuntimeErrorCode::InvalidConfig, m),
            },
            r is Ok <==> (trim(self.from_account_id@).len() > 0 && trim(self.to_account_id@).len() > 0
                && match self.payer_account_id {
                Some(p) => trim(p@).len() > 0,
                None => true,
            } && self.amount_tinybar > 0),
            r matches Err(e) ==> e.code == RuntimeErrorCode::InvalidConfig && !e.retryable,
    {
        if is_blank(self.from_account_id.as_str()) {
            return Err(RuntimeError::invalid_config("fromAccountId must not be empty"));
        }
        if is_blank(self.to_account_id.as_str()) {
            return Err(RuntimeError::invalid_config("toAccountId must not be empty"));
        }
        if let Some(payer) = &self.payer_account_id {
            if is_blank(payer.as_str()) {
                return Err(
                    RuntimeError::invalid_config("payerAccountId must not be empty when provided"),
                );
            }
        }
        if self.amount_tinybar == 0 {
            return Err(RuntimeError::invalid_config("amountTinybar must be greater than zero"));
        }
        Ok(())
    }
}

/// A signature to add to a schedule.
#[derive(Debug, Clone, PartialEq, Eq)]
pub struct SignScheduleRequest {
    pub schedule_id: String,
    pub signer_private_key: String,
}

/// What is wrong with a signing request, if anything: the first failed rule.
pub open spec fn sign_schedule_problem(r: SignScheduleRequest) -> Option<Seq<char>> {
    if trim(r.schedule_id@).len() == 0 {
        Some("scheduleId must not be empty"@)
    } else if trim(r.signer_private_key@).len() == 0 {
        Some("signerPrivateKey must not be empty"@)
    } else {
        None
    }
}

impl SignScheduleRequest {
    /// Checks the request; the `InvalidConfig` error names the first rule
    /// that fails.
    pub fn validate(&self) -> (r: Result<(), RuntimeError>)
        ensures
            match sign_schedule_problem(*self) {
                None => r is Ok,
                Some(m) => r matches Err(e) && e@ == plain_error(RuntimeErrorCode::InvalidConfig, m),
            },
            r is Ok <==> (trim(self.schedule_id@).len() > 0 && trim(self.signer_private_key@).len() > 0),
    {
        if is_blank(self.schedule_id.as_str()) {
            return Err(RuntimeError::invalid_config("scheduleId must not be empty"));
        }
        if is_blank(self.signer_private_key.as_str()) {
            return Err(RuntimeError::invalid_config("signerPrivateKey must not be empty"));
        }
        Ok(())
    }
}

/// Checks that a schedule id is given.
pub fn validate_schedule_id(schedule_id: &str) -> (r: Result<(), RuntimeError>)
    ensures
        trim(schedule_id@).len() == 0 ==> (r matches Err(e) && e@ == plain_error(
            RuntimeErrorCode::InvalidConfig,
            "scheduleId must not be empty"@,
        )),
        trim(schedule_id@).len() != 0 ==> r is Ok,
{
    if is_blank(schedule_id) {
        return Err(RuntimeError::invalid_config("scheduleId must not be empty"));
    }
    Ok(())
}

// ── The schedule runtime ─────────────────────────────────────────────────────

/// The decisions of the schedule runtime: its (valid) wait policy.
pub struct ScheduleRuntime {
    wait_policy: FinalityPolicy,
}

/// What waiting for a schedule's execution does after one observation.
pub enum ScheduleWaitAction {
    /// The schedule executed: wait for the finality of this transaction.
    Finalize(String),
    /// The wait ends with this error.
    Fail(RuntimeError),
    /// Observe again after this many milliseconds.
    Sleep(u64),
}

/// `schedule {id} <text>`.
pub open spec fn schedule_message(schedule_id: Seq<char>, text: Seq<char>) -> Seq<char> {
    "schedule "@ + schedule_id + text
}

/// The next step of waiting for a schedule to execute, after an observation
/// made `elapsed_ms` after the wait began, as an abstract value: `Ok(Some(id))`
/// to go on with the finality of the transaction `id`, `Ok(None)` to sleep
/// for the poll interval, `Err(e)` to end the wait with `e`.
pub open spec fn schedule_wait_outcome(
    schedule_id: Seq<char>,
    policy: FinalityPolicy,
    elapsed_ms: u64,
    observed: Result<(ScheduleState, Option<Seq<char>>), RuntimeErrorView>,
) -> Result<Option<Seq<char>>, RuntimeErrorView> {
    let timed_out = elapsed_ms >= policy.mirror_timeout_ms;
    match observed {
        Ok((ScheduleState::PendingSignatures, _)) => if timed_out {
            Err(
                plain_error(
                    RuntimeErrorCode::Timeout,
                    schedule_message(
                        schedule_id,
                        " did not execute within "@ + decimal(policy.mirror_timeout_ms as nat)
                            + "ms"@,
                    ),
                ),
            )
        } else {
            Ok(None)
        },
        Ok((ScheduleState::Executed, Some(tx))) => Ok(Some(tx)),
        Ok((ScheduleState::Executed, None)) => Err(
            plain_error(
                RuntimeErrorCode::Schedule,
                schedule_message(schedule_id, " is executed but missing scheduledTransactionId"@),
            ),
        ),
        Ok((ScheduleState::Expired, _)) => Err(
            plain_error(
                RuntimeErrorCode::Schedule,
                schedule_message(schedule_id, " expired before execution"@),
            ),
        ),
        Ok((ScheduleState::Deleted, _)) => Err(
            plain_error(
                RuntimeErrorCode::Schedule,
                schedule_message(schedule_id, " was deleted before execution"@),
            ),
        ),
        Err(e) => if e.code == RuntimeErrorCode::NotFound || e.retryable {
            if timed_out {
                Err(
                    plain_error(
                        RuntimeErrorCode::Timeout,
                        schedule_message(
                            schedule_id,
                            " did not become observable within "@ + decimal(
                                policy.mirror_timeout_ms as nat,
                            ) + "ms"@,
                        ),
                    ),
                )
            } else {
                Ok(None)
            }
        } else {
            Err(e)
        },
    }
}

/// The abstract value of a schedule observation.
pub open spec fn observed(outcome: Result<ScheduleInfoView, RuntimeError>) -> Result<
    (ScheduleState, Option<Seq<char>>),
    RuntimeErrorView,
> {
    match outcome {
        Ok(info) => Ok(
            (
                info.status,
                match info.scheduled_transaction_id {
                    Some(t) => Some(t@),
                    None => None,
                },
            ),
        ),
        Err(e) => Err(e@),
    }
}

fn schedule_text(schedule_id: &str, text: &str) -> (r: String)
    ensures
        r@ == schedule_message(schedule_id@, text@),
{
    let mut m = string_of("schedule ");
    push_str(&mut m, schedule_id);
    push_str(&mut m, text);
    m
}

fn schedule_timeout(schedule_id: &str, text: &str, timeout_ms: u64) -> (r: RuntimeError)
    ensures
        r@ == plain_error(
            RuntimeErrorCode::Timeout,
            schedule_message(schedule_id@, text@ + decimal(timeout_ms as nat) + "ms"@),
        ),
{
    let mut m = schedule_text(schedule_id, text);
    push_decimal(&mut m, timeout_ms);
    push_str(&mut m, "ms");
    assert(m@ =~= schedule_message(schedule_id@, text@ + decimal(timeout_ms as nat) + "ms"@));
    RuntimeError::timeout(m.as_str())
}

impl ScheduleRuntime {
    pub closed spec fn spec_policy(&self) -> FinalityPolicy {
        self.wait_policy
    }

    /// A runtime, refused with `InvalidConfig` when the policy breaks a rule.
    pub fn new(wait_policy: FinalityPolicy) -> (r: Result<ScheduleRuntime, RuntimeError>)
        ensures
            match finality_policy_problem(wait_policy) {
                None => r matches Ok(rt) && rt.spec_policy() == wait_policy,
                Some(m) => r matches Err(e) && e@ == plain_error(RuntimeErrorCode::InvalidConfig, m),
            },
    {
        check_finality_policy(&wait_policy)?;
        Ok(ScheduleRuntime { wait_policy })
    }

    /// The policy that bounds waiting for execution.
    pub fn wait_policy(&self) -> (r: &FinalityPolicy)
        ensures
            *r == self.spec_policy(),
    {
        &self.wait_policy
    }

    /// Decides the next step of waiting for a schedule to execute (see
    /// `schedule_wait_outcome`).
    pub fn wait_for_execution_step(
        &self,
        schedule_id: &str,
        elapsed_ms: u64,
        outcome: Result<ScheduleInfoView, RuntimeError>,
    ) -> (r: ScheduleWaitAction)
        ensures
            match schedule_wait_outcome(schedule_id@, self.spec_policy(), elapsed_ms, observed(outcome)) {
                Ok(Some(tx)) => r matches ScheduleWaitAction::Finalize(t) && t@ == tx,
                Ok(None) => r matches ScheduleWaitAction::Sleep(ms) && ms == self.spec_policy().poll_interval_ms,
                Err(ev) => r matches ScheduleWaitAction::Fail(e) && e@ == ev,
            },
            match outcome {
                Err(e) => if e.code == RuntimeErrorCode::NotFound || e.retryable {
                    elapsed_ms < self.spec_policy().mirror_timeout_ms ==> (r matches ScheduleWaitAction::Sleep(
                        ms,
                    ) && ms == self.spec_policy().poll_interval_ms)
                } else {
                    r matches ScheduleWaitAction::Fail(e2) && e2@ == e@
                },
                Ok(info) => match info.status {
                    ScheduleState::PendingSignatures => elapsed_ms
                        < self.spec_policy().mirror_timeout_ms ==> (r matches ScheduleWaitAction::Sleep(
                        ms,
                    ) && ms == self.spec_policy().poll_interval_ms),
                    ScheduleState::Executed => match info.scheduled_transaction_id {
                        Some(t) => r matches ScheduleWaitAction::Finalize(t2) && t2 == t,
                        None => r matches ScheduleWaitAction::Fail(e2) && e2.code
                            == RuntimeErrorCode::Schedule,
                    },
                    _ => r matches ScheduleWaitAction::Fail(e2) && e2.code == RuntimeErrorCode::Schedule,
                },
            },
    {
        let policy = &self.wait_policy;
        let timed_out = elapsed_ms >= policy.mirror_timeout_ms;
        match outcome {
            Ok(info) => match info.status {
                ScheduleState::PendingSignatures => {
                    if timed_out {
                        ScheduleWaitAction::Fail(
                            schedule_timeout(schedule_id, " did not execute within ", policy.mirror_timeout_ms),
                        )
                    } else {
                        ScheduleWaitAction::Sleep(policy.poll_interval_ms)
                    }
                },
                ScheduleState::Executed => match info.scheduled_transaction_id {
                    Some(tx) => ScheduleWaitAction::Finalize(tx),
                    None => {
                        let m = schedule_text(
                            schedule_id,
                            " is executed but missing scheduledTransactionId",
                        );
                        ScheduleWaitAction::Fail(RuntimeError::new(RuntimeErrorCode::Schedule, m.as_str()))
                    },
                },
                ScheduleState::Expired => {
                    let m = schedule_text(schedule_id, " expired before execution");
                    ScheduleWaitAction::Fail(RuntimeError::new(RuntimeErrorCode::Schedule, m.as_str()))
                },
                ScheduleState::Deleted => {
                    let m = schedule_text(schedule_id, " was deleted before execution");
                    ScheduleWaitAction::Fail(RuntimeError::new(RuntimeErrorCode::Schedule, m.as_str()))
                },
            },
            Err(err) => {
                if err.code == RuntimeErrorCode::NotFound || err.is_retryable() {
                    if timed_out {
                        ScheduleWaitAction::Fail(
                            schedule_timeout(
                                schedule_id,
                                " did not become observable within ",
                                policy.mirror_timeout_ms,
                            ),
                        )
                    } else {
                        ScheduleWaitAction::Sleep(policy.poll_interval_ms)
                    }
                } else {
                    ScheduleWaitAction::Fail(err)
                }
            },
        }
    }
}

/// While waiting for a schedule to execute, an observation that failed
/// with `NotFound` or with any error whose retryable flag is set, whatever
/// its code, observes again before the timeout and ends the wait with a
/// `Timeout` after it; an error that is neither ends the wait with that very
/// error at any time; a schedule still waiting for signatures is observed
/// again before the timeout; and an executed schedule moves on to the
/// finality of its scheduled transaction.
pub proof fn law_schedule_wait_answers(
    schedule_id: Seq<char>,
    policy: FinalityPolicy,
    elapsed_ms: u64,
    e: RuntimeError,
    tx: Option<Seq<char>>,
)
    ensures
        (e.code == RuntimeErrorCode::NotFound || e.retryable) && elapsed_ms < policy.mirror_timeout_ms
            ==> schedule_wait_outcome(schedule_id, policy, elapsed_ms, Err(e@)) == Ok::<
            Option<Seq<char>>,
            RuntimeErrorView,
        >(None),
        (e.code == RuntimeErrorCode::NotFound || e.retryable) && elapsed_ms >= policy.mirror_timeout_ms
            ==> (schedule_wait_outcome(schedule_id, policy, elapsed_ms, Err(e@)) matches Err(t)
            && t.code == RuntimeErrorCode::Timeout),
        e.code != RuntimeErrorCode::NotFound && !e.retryable ==> schedule_wait_outcome(
            schedule_id,
            policy,
            elapsed_ms,
            Err(e@),
        ) == Err::<Option<Seq<char>>, RuntimeErrorView>(e@),
        elapsed_ms < policy.mirror_timeout_ms ==> schedule_wait_outcome(
            schedule_id,
            policy,
            elapsed_ms,
            Ok((ScheduleState::PendingSignatures, tx)),
        ) == Ok::<Option<Seq<char>>, RuntimeErrorView>(None),
        tx is Some ==> schedule_wait_outcome(
            schedule_id,
            policy,
            elapsed_ms,
            Ok((ScheduleState::Executed, tx)),
        ) == Ok::<Option<Seq<char>>, RuntimeErrorView>(tx),
{
}

/// Waiting for a schedule is bounded: once the timeout has passed, every
/// observation ends the wait or moves on to the transaction's finality.
pub proof fn law_schedule_wait_bounded(
    schedule_id: Seq<char>,
    policy: FinalityPolicy,
    elapsed_ms: u64,
    obs: Result<(ScheduleState, Option<Seq<char>>), RuntimeErrorView>,
)
    ensures
        elapsed_ms >= policy.mirror_timeout_ms ==> !(schedule_wait_outcome(
            schedule_id,
            policy,
            elapsed_ms,
            obs,
        ) matches Ok(None)),
{
}

/// An expired or deleted schedule ends the wait with a `Schedule` error,
/// and an executed one moves on to the finality of its transaction.
pub proof fn law_schedule_wait_terminal_states(
    schedule_id: Seq<char>,
    policy: FinalityPolicy,
    elapsed_ms: u64,
    state: ScheduleState,
    tx: Option<Seq<char>>,
)
    ensures
        (state == ScheduleState::Expired || state == ScheduleState::Deleted) ==> (schedule_wait_outcome(
            schedule_id,
            policy,
            elapsed_ms,
            Ok((state, tx)),
        ) matches Err(e) && e.code == RuntimeErrorCode::Schedule),
        state == ScheduleState::Executed && tx is Some ==> schedule_wait_outcome(
            schedule_id,
            policy,
            elapsed_ms,
            Ok((state, tx)),
        ) == Ok::<Option<Seq<char>>, RuntimeErrorView>(tx),
{
}

/// The result of a schedule's execution, once its transaction is final.
pub fn schedule_execution(
    schedule_id: &str,
    scheduled_transaction_id: String,
    finalized: FinalizedTransaction,
) -> (r: ScheduleExecution)
    ensures
        r.schedule_id@ == schedule_id@,
        r.scheduled_transaction_id == scheduled_transaction_id,
        r.finalized == finalized,
{
    ScheduleExecution { schedule_id: string_of(schedule_id), scheduled_transaction_id, finalized }
}

} // verus!

verus! {

// ── Schedule information from the network ────────────────────────────────────

/// An instant as seconds since the Unix epoch and nanoseconds within the
/// second.
#[derive(Debug, Clone, Copy, PartialEq, Eq)]
pub struct Timestamp {
    pub seconds: i64,
    pub nanos: u32,
}

/// `a` is earlier than `b`.
pub open spec fn is_before(a: Timestamp, b: Timestamp) -> bool {
    a.seconds < b.seconds || (a.seconds == b.seconds && a.nanos < b.nanos)
}

/// `time::OffsetDateTime::now_utc`, read as seconds and nanoseconds: the
/// reading depends on the clock; its nanoseconds are below one billion.
#[verifier::external_body]
fn utc_now() -> (r: Timestamp)
    ensures
        r.nanos < 1_000_000_000,
{
    let now = time::OffsetDateTime::now_utc();
    Timestamp { seconds: now.unix_timestamp(), nanos: now.nanosecond() }
}

/// The lifecycle state of a schedule: executed if it has an execution time,
/// else deleted if it has a deletion time, else expired if its expiration
/// time is before `now`, else pending signatures.
pub open spec fn schedule_state_at(
    executed_at: Option<Timestamp>,
    deleted_at: Option<Timestamp>,
    expiration_time: Option<Timestamp>,
    now: Timestamp,
) -> ScheduleState {
    if executed_at is Some {
        ScheduleState::Executed
    } else if deleted_at is Some {
        ScheduleState::Deleted
    } else if expiration_time matches Some(e) && is_before(e, now) {
        ScheduleState::Expired
    } else {
        ScheduleState::PendingSignatures
    }
}

/// Derives the lifecycle state of a schedule at the instant `now`.
pub fn derive_schedule_state(
    executed_at: Option<Timestamp>,
    deleted_at: Option<Timestamp>,
    expiration_time: Option<Timestamp>,
    now: Timestamp,
) -> (r: ScheduleState)
    ensures
        r == schedule_state_at(executed_at, deleted_at, expiration_time, now),
{
    if executed_at.is_some() {
        return ScheduleState::Executed;
    }
    if deleted_at.is_some() {
        return ScheduleState::Deleted;
    }
    if let Some(expiry) = expiration_time {
        if expiry.seconds < now.seconds || (expiry.seconds == now.seconds && expiry.nanos
            < now.nanos) {
            return ScheduleState::Expired;
        }
    }
    ScheduleState::PendingSignatures
}

/// The text of a timestamp: the seconds, a dot, and the nanoseconds padded
/// with zeros to nine digits.
pub open spec fn timestamp_text(t: Timestamp) -> Seq<char> {
    signed_decimal(t.seconds as int) + "."@ + pad_left(decimal(t.nanos as nat), 9, '0')
}

/// Formats a timestamp as `seconds.nanoseconds`.
pub fn format_timestamp(t: Timestamp) -> (r: String)
    ensures
        r@ == timestamp_text(t),
{
    let mut s = String::new();
    push_signed_decimal(&mut s, t.seconds);
    push_str(&mut s, ".");
    let mut digits = String::new();
    push_decimal(&mut digits, t.nanos as u64);
    let cs = chars_of(digits.as_str());
    push_padded(&mut s, &cs, 9, '0');
    assert(s@ =~= timestamp_text(t));
    s
}

/// Formats an optional timestamp.
pub fn format_optional_timestamp(t: Option<Timestamp>) -> (r: Option<String>)
    ensures
        match t {
            Some(v) => r matches Some(s) && s@ == timestamp_text(v),
            None => r is None,
        },
{
    match t {
        Some(v) => Some(format_timestamp(v)),
        None => None,
    }
}

/// A key of the network, as far as the signatories of a schedule need it.
#[derive(Debug)]
pub enum KeyNode {
    /// A single public key, in its text form.
    Single(String),
    /// A list of keys.
    List(Vec<KeyNode>),
    /// Any other kind of key.
    Other,
}

/// The public keys of a key, depth first and in order.
pub open spec fn key_strings(k: KeyNode) -> Seq<Seq<char>>
    decreases k, 1nat,
{
    match k {
        KeyNode::Single(s) => seq![s@],
        KeyNode::List(v) => keys_strings(v@),
        KeyNode::Other => Seq::empty(),
    }
}

/// The public keys of a list of keys, depth first and in order.
pub open spec fn keys_strings(ks: Seq<KeyNode>) -> Seq<Seq<char>>
    decreases ks, 0nat,
{
    if ks.len() == 0 {
        Seq::empty()
    } else {
        keys_strings(ks.drop_last()) + key_strings(ks.last())
    }
}

/// Collects the public keys of a key.
pub fn collect_key_strings(key: &KeyNode) -> (r: Vec<String>)
    ensures
        r@.map_values(|s: String| s@) == key_strings(*key),
    decreases key, 1nat,
{
    match key {
        KeyNode::Single(s) => {
            let mut r: Vec<String> = Vec::new();
            r.push(s.clone());
            assert(r@.map_values(|s: String| s@) =~= seq![s@]);
            r
        },
        KeyNode::List(v) => collect_keys_strings(v),
        KeyNode::Other => {
            let r: Vec<String> = Vec::new();
            assert(r@.map_values(|s: String| s@) =~= Seq::<Seq<char>>::empty());
            r
        },
    }
}

/// Collects the public keys of a list of keys.
pub fn collect_keys_strings(keys: &Vec<KeyNode>) -> (r: Vec<String>)
    ensures
        r@.map_values(|s: String| s@) == keys_strings(keys@),
    decreases keys, 0nat,
{
    let mut out: Vec<String> = Vec::new();
    let mut i: usize = 0;
    while i < keys.len()
        invariant
            i <= keys.len(),
            out@.map_values(|s: String| s@) == keys_strings(keys@.take(i as int)),
        decreases keys.len() - i,
    {
        assert(decreases_to!(keys => keys@[i as int]));
        let part = collect_key_strings(&keys[i]);
        let ghost before = out@.map_values(|s: String| s@);
        let mut j: usize = 0;
        while j < part.len()
            invariant
                j <= part.len(),
                out@.map_values(|s: String| s@) == before + part@.map_values(|s: String| s@).take(
                    j as int,
                ),
            decreases part.len() - j,
        {
            out.push(part[j].clone());
            assert(before + part@.map_values(|s: String| s@).take(j + 1) =~= (before + part@.map_values(
                |s: String| s@,
            ).take(j as int)).push(part@[j as int]@));
            assert(out@.map_values(|s: String| s@) =~= (before + part@.map_values(|s: String| s@).take(
                j as int,
            )).push(part@[j as int]@));
            j = j + 1;
        }
        assert(part@.map_values(|s: String| s@).take(part.len() as int) =~= part@.map_values(
            |s: String| s@,
        ));
        assert(keys@.take(i + 1).drop_last() =~= keys@.take(i as int));
        i = i + 1;
    }
    assert(keys@.take(i as int) =~= keys@);
    out
}

} // verus!

verus! {

/// What the network reports of a schedule, as plain values.
#[derive(Debug)]
pub struct ScheduleInfoParts {
    pub schedule_id: String,
    pub payer_account_id: Option<String>,
    pub creator_account_id: String,
    pub signatories: Vec<KeyNode>,
    pub scheduled_transaction_id: String,
    pub expiration_time: Option<Timestamp>,
    pub executed_at: Option<Timestamp>,
    pub deleted_at: Option<Timestamp>,
}

/// The text form of an optional timestamp.
pub open spec fn optional_timestamp_text(t: Option<Timestamp>) -> Option<Seq<char>> {
    match t {
        Some(v) => Some(timestamp_text(v)),
        None => None,
    }
}

/// The text form of an optional string.
pub open spec fn optional_text(s: Option<String>) -> Option<Seq<char>> {
    match s {
        Some(v) => Some(v@),
        None => None,
    }
}

/// The schedule summary for what the network reported, its state judged at
/// the instant `now`.
pub fn schedule_info_view_at(parts: ScheduleInfoParts, now: Timestamp) -> (r: ScheduleInfoView)
    ensures
        r.schedule_id == parts.schedule_id,
        r.payer_account_id == parts.payer_account_id,
        r.creator_account_id == Some(parts.creator_account_id),
        r.signatories@.map_values(|s: String| s@) == keys_strings(parts.signatories@),
        r.scheduled_transaction_id == Some(parts.scheduled_transaction_id),
        r.status == schedule_state_at(parts.executed_at, parts.deleted_at, parts.expiration_time, now),
        optional_text(r.expiration_time) == optional_timestamp_text(parts.expiration_time),
        optional_text(r.executed_timestamp) == optional_timestamp_text(parts.executed_at),
        optional_text(r.deletion_timestamp) == optional_timestamp_text(parts.deleted_at),
{
    let status = derive_schedule_state(parts.executed_at, parts.deleted_at, parts.expiration_time, now);
    let signatories = collect_keys_strings(&parts.signatories);
    ScheduleInfoView {
        schedule_id: parts.schedule_id,
        payer_account_id: parts.payer_account_id,
        creator_account_id: Some(parts.creator_account_id),
        signatories,
        scheduled_transaction_id: Some(parts.scheduled_transaction_id),
        status,
        expiration_time: format_optional_timestamp(parts.expiration_time),
        executed_timestamp: format_optional_timestamp(parts.executed_at),
        deletion_timestamp: format_optional_timestamp(parts.deleted_at),
    }
}

/// The schedule summary for what the network reported, its state judged
/// at the current time.
pub fn schedule_info_view(parts: ScheduleInfoParts) -> (r: ScheduleInfoView)
    ensures
        exists|now: Timestamp|
            now.nanos < 1_000_000_000 && r.status == schedule_state_at(
                parts.executed_at,
                parts.deleted_at,
                parts.expiration_time,
                now,
            ),
        r.schedule_id == parts.schedule_id,
        r.payer_account_id == parts.payer_account_id,
        r.creator_account_id == Some(parts.creator_account_id),
        r.signatories@.map_values(|s: String| s@) == keys_strings(parts.signatories@),
        r.scheduled_transaction_id == Some(parts.scheduled_transaction_id),
        optional_text(r.expiration_time) == optional_timestamp_text(parts.expiration_time),
        optional_text(r.executed_timestamp) == optional_timestamp_text(parts.executed_at),
        optional_text(r.deletion_timestamp) == optional_timestamp_text(parts.deleted_at),
{
    let now = utc_now();
    schedule_info_view_at(parts, now)
}

/// An SDK error text that reports a schedule that does not exist.
pub open spec fn schedule_not_found_text(text: Seq<char>) -> bool {
    let upper = to_ascii_upper(text);
    contains(upper, "INVALID_SCHEDULE_ID"@) || contains(upper, "SCHEDULE_DELETED"@) || contains(
        upper,
        "NOT_FOUND"@,
    )
}

/// Whether an SDK error reports a schedule that does not exist.
pub fn is_not_found_error(err_text: &str) -> (r: bool)
    ensures
        r == schedule_not_found_text(err_text@),
{
    let cs = chars_of(err_text);
    let upper = to_ascii_upper_chars(&cs);
    contains_str(&upper, "INVALID_SCHEDULE_ID") || contains_str(&upper, "SCHEDULE_DELETED")
        || contains_str(&upper, "NOT_FOUND")
}

/// The error when the network does not know a schedule.
pub open spec fn schedule_not_found(schedule_id: Seq<char>) -> RuntimeErrorView {
    detailed_error(
        RuntimeErrorCode::NotFound,
        schedule_message(schedule_id, " not found"@),
        seq![("scheduleId"@, DetailValueView::Text(schedule_id))],
    )
}

/// The error for a schedule query that the SDK failed: `NotFound` when the
/// schedule does not exist, else the mapped SDK error.
pub fn schedule_query_failure(schedule_id: &str, err_text: &str) -> (r: RuntimeError)
    ensures
        schedule_not_found_text(err_text@) ==> r@ == schedule_not_found(schedule_id@),
        !schedule_not_found_text(err_text@) ==> r@ == schedule_sdk_error(
            "failed to query schedule info"@,
            err_text@,
        ),
{
    if is_not_found_error(err_text) {
        let m = schedule_text(schedule_id, " not found");
        let mut d: Vec<DetailEntry> = Vec::new();
        d.push(DetailEntry::text("scheduleId", schedule_id));
        assert(details_view(d) =~= seq![("scheduleId"@, DetailValueView::Text(schedule_id@))]);
        return RuntimeError::with_details(RuntimeErrorCode::NotFound, m.as_str(), d);
    }
    map_schedule_sdk_error("failed to query schedule info", err_text)
}

/// The ids that the receipt of a schedule creation must carry: the schedule
/// id, then the scheduled transaction id; a missing one is a `Schedule`
/// error.
pub fn created_schedule_ids(schedule_id: Option<String>, scheduled_transaction_id: Option<String>) -> (r:
    Result<(String, String), RuntimeError>)
    ensures
        match (schedule_id, scheduled_transaction_id) {
            (Some(s), Some(t)) => r == Ok::<(String, String), RuntimeError>((s, t)),
            (None, _) => r matches Err(e) && e@ == plain_error(
                RuntimeErrorCode::Schedule,
                "ScheduleCreateTransaction receipt missing scheduleId"@,
            ),
            (Some(_), None) => r matches Err(e) && e@ == plain_error(
                RuntimeErrorCode::Schedule,
                "ScheduleCreateTransaction receipt missing scheduledTransactionId"@,
            ),
        },
{
    let s = match schedule_id {
        Some(s) => s,
        None => {
            return Err(
                RuntimeError::new(
                    RuntimeErrorCode::Schedule,
                    "ScheduleCreateTransaction receipt missing scheduleId",
                ),
            );
        },
    };
    let t = match scheduled_transaction_id {
        Some(t) => t,
        None => {
            return Err(
                RuntimeError::new(
                    RuntimeErrorCode::Schedule,
                    "ScheduleCreateTransaction receipt missing scheduledTransactionId",
                ),
            );
        },
    };
    Ok((s, t))
}

} // verus!

verus! {

// ── A whole wait for a schedule's execution ──────────────────────────────────

/// An observation after which the wait observes again: the schedule still
/// waits for signatures, or could not be observed (`NotFound` or a
/// retryable error), before the timeout.
pub open spec fn schedule_wait_goes_on(
    policy: FinalityPolicy,
    step: (u64, Result<ScheduleInfoView, RuntimeError>),
) -> bool {
    &&& step.0 < policy.mirror_timeout_ms
    &&& match step.1 {
        Ok(info) => info.status == ScheduleState::PendingSignatures,
        Err(e) => e.code == RuntimeErrorCode::NotFound || e.retryable,
    }
}

/// The index of the observation that ends the wait, or the number of
/// observations when none does.
pub open spec fn schedule_wait_stop(
    policy: FinalityPolicy,
    steps: Seq<(u64, Result<ScheduleInfoView, RuntimeError>)>,
) -> int
    decreases steps.len(),
{
    if steps.len() == 0 || !schedule_wait_goes_on(policy, steps[0]) {
        0
    } else {
        1 + schedule_wait_stop(policy, steps.drop_first())
    }
}

/// What the observing gives when the observations, in order, are `steps`
/// (each with the time since the wait began): the end that the first
/// deciding observation gives, `Ok` with the id of the transaction to
/// finalize, or `None` while none has decided.
pub open spec fn schedule_wait_run(
    schedule_id: Seq<char>,
    policy: FinalityPolicy,
    steps: Seq<(u64, Result<ScheduleInfoView, RuntimeError>)>,
) -> Option<Result<Seq<char>, RuntimeErrorView>>
    decreases steps.len(),
{
    if steps.len() == 0 {
        None
    } else {
        match schedule_wait_outcome(schedule_id, policy, steps[0].0, observed(steps[0].1)) {
            Ok(None) => schedule_wait_run(schedule_id, policy, steps.drop_first()),
            Ok(Some(tx)) => Some(Ok(tx)),
            Err(e) => Some(Err(e)),
        }
    }
}

/// A whole wait for execution: the schedule id is checked, the schedule is
/// observed until it decides, and an executed schedule's transaction is
/// taken through two-phase finality (with `tx_policy`, its receipt queries
/// `receipt_steps` and its Mirror Node lookups `mirror_steps`). The result
/// holds the scheduled transaction id, the receipt and the lookup that
/// `schedule_execution` and `finalized_transaction` put together.
pub open spec fn execution_result(
    schedule_id: Seq<char>,
    policy: FinalityPolicy,
    steps: Seq<(u64, Result<ScheduleInfoView, RuntimeError>)>,
    tx_policy: FinalityPolicy,
    receipt_steps: Seq<(u64, Result<Option<ReceiptResult>, RuntimeError>)>,
    mirror_steps: Seq<(u64, Result<TransactionLookup, RuntimeError>)>,
) -> Option<Result<(Seq<char>, ReceiptResult, TransactionLookup), RuntimeErrorView>> {
    if trim(schedule_id).len() == 0 {
        Some(Err(plain_error(RuntimeErrorCode::InvalidConfig, "scheduleId must not be empty"@)))
    } else {
        match schedule_wait_run(schedule_id, policy, steps) {
            None => None,
            Some(Err(e)) => Some(Err(e)),
            Some(Ok(tx)) => match finality_result(tx, tx_policy, receipt_steps, mirror_steps) {
                None => None,
                Some(Err(e)) => Some(Err(e)),
                Some(Ok((receipt, lookup))) => Some(Ok((tx, receipt, lookup))),
            },
        }
    }
}

/// A whole wait for execution: every observation before the deciding one
/// saw the schedule waiting for signatures or not observable, before the
/// timeout; a success comes only from an observation of the executed
/// schedule, whose scheduled transaction id it carries, together with the
/// final receipt and the Mirror Node lookup of that very transaction; and
/// an expired or deleted schedule ends the wait with a `Schedule` error.
pub proof fn law_execution_wait(
    schedule_id: Seq<char>,
    policy: FinalityPolicy,
    steps: Seq<(u64, Result<ScheduleInfoView, RuntimeError>)>,
    tx_policy: FinalityPolicy,
    receipt_steps: Seq<(u64, Result<Option<ReceiptResult>, RuntimeError>)>,
    mirror_steps: Seq<(u64, Result<TransactionLookup, RuntimeError>)>,
)
    ensures
        ({
            let k = schedule_wait_stop(policy, steps);
            let run = schedule_wait_run(schedule_id, policy, steps);
            &&& 0 <= k <= steps.len()
            &&& forall|j: int| 0 <= j < k ==> schedule_wait_goes_on(policy, #[trigger] steps[j])
            &&& k == steps.len() ==> run is None
            &&& k < steps.len() ==> !schedule_wait_goes_on(policy, steps[k]) && run == match schedule_wait_outcome(
                schedule_id,
                policy,
                steps[k].0,
                observed(steps[k].1),
            ) {
                Ok(Some(tx)) => Some(Ok::<Seq<char>, RuntimeErrorView>(tx)),
                Ok(None) => None,
                Err(e) => Some(Err(e)),
            }
            &&& run matches Some(Ok(tx)) ==> k < steps.len() && (steps[k].1 matches Ok(info)
                && info.status == ScheduleState::Executed && (info.scheduled_transaction_id matches Some(t) && t@ == tx))
            &&& k < steps.len() ==> (steps[k].1 matches Ok(info) && (info.status
                == ScheduleState::Expired || info.status == ScheduleState::Deleted)) ==> (run matches Some(Err(e))
                && e.code == RuntimeErrorCode::Schedule)
        }),
        execution_result(schedule_id, policy, steps, tx_policy, receipt_steps, mirror_steps) matches Some(
            Ok((tx, r, l)),
        ) ==> {
            &&& schedule_wait_run(schedule_id, policy, steps) == Some(
                Ok::<Seq<char>, RuntimeErrorView>(tx),
            )
            &&& finality_result(tx, tx_policy, receipt_steps, mirror_steps) == Some(
                Ok::<(ReceiptResult, TransactionLookup), RuntimeErrorView>((r, l)),
            )
            &&& receipt_is_final(r)
        },
    decreases steps.len(),
{
    lemma_execution_receipt_final(schedule_id, policy, steps, tx_policy, receipt_steps, mirror_steps);
    if steps.len() > 0 && schedule_wait_goes_on(policy, steps[0]) {
        let rest = steps.drop_first();
        law_execution_wait(schedule_id, policy, rest, tx_policy, receipt_steps, mirror_steps);
        assert forall|j: int| 0 <= j < schedule_wait_stop(policy, steps) implies schedule_wait_goes_on(
            policy,
            #[trigger] steps[j],
        ) by {
            if j > 0 {
                assert(steps[j] == rest[j - 1]);
            }
        }
        if schedule_wait_stop(policy, steps) < steps.len() {
            assert(steps[schedule_wait_stop(policy, steps)] == rest[schedule_wait_stop(policy, rest)]);
        }
    }
}

proof fn lemma_execution_receipt_final(
    schedule_id: Seq<char>,
    policy: FinalityPolicy,
    steps: Seq<(u64, Result<ScheduleInfoView, RuntimeError>)>,
    tx_policy: FinalityPolicy,
    receipt_steps: Seq<(u64, Result<Option<ReceiptResult>, RuntimeError>)>,
    mirror_steps: Seq<(u64, Result<TransactionLookup, RuntimeError>)>,
)
    ensures
        execution_result(schedule_id, policy, steps, tx_policy, receipt_steps, mirror_steps) matches Some(
            Ok((tx, r, l)),
        ) ==> receipt_is_final(r),
{
    if let Some(Ok(tx)) = schedule_wait_run(schedule_id, policy, steps) {
        law_two_phase_finality(tx, tx_policy, receipt_steps, mirror_steps);
    }
}

} // verus!
