use vstd::prelude::*;

use crate::config::{finality_policy_problem, FinalityPolicy};
use crate::error::{
    detailed_error, details_view, plain_error, DetailEntry,
    DetailValueView, RuntimeError, RuntimeErrorCode, RuntimeErrorView,
};
use crate::mirror::{mirror_wait_run, MirrorClient, TransactionLookup};
use crate::model::{parse_transaction_ref, FinalizedTransaction, ReceiptResult};
use crate::poll::PollAction;
use crate::text::{
    chars_of, decimal, eq_ignore_ascii_case,
    eq_ignore_ascii_case_chars, is_blank, push_decimal, push_str, string_of,
    trim,
};

verus! {

// ── Requests ─────────────────────────────────────────────────────────────────

/// A transfer of tinybars from one account to another.
#[derive(Debug, Clone, PartialEq, Eq)]
pub struct HbarTransferRequest {
    pub from_account_id: String,
    pub to_account_id: String,
    pub amount_tinybar: u64,
}

/// What is wrong with a transfer request, if anything: the first failed rule.
pub open spec fn transfer_request_problem(r: HbarTransferRequest) -> Option<Seq<char>> {
    if trim(r.from_account_id@).len() == 0 {
        Some("fromAccountId must not be empty"@)
    } else if trim(r.to_account_id@).len() == 0 {
        Some("toAccountId must not be empty"@)
    } else if r.amount_tinybar == 0 {
        Some("amountTinybar must be greater than zero"@)
    } else {
        None
    }
}

/// A transfer request is accepted exactly when both accounts are given
/// (not blank) and the amount is positive; a blank recipient beside a given
/// sender is refused for that reason.
pub proof fn law_transfer_request_checks(r: HbarTransferRequest)
    ensures
        transfer_request_problem(r) is None <==> (trim(r.from_account_id@).len() > 0 && trim(
            r.to_account_id@,
        ).len() > 0 && r.amount_tinybar > 0),
        trim(r.from_account_id@).len() > 0 && trim(r.to_account_id@).len() == 0
            ==> transfer_request_problem(r) == Some("toAccountId must not be empty"@),
{
}

impl HbarTransferRequest {
    /// Checks the request; the `InvalidConfig` error names the first rule
    /// that fails.
    pub fn validate(&self) -> (r: Result<(), RuntimeError>)
        ensures
            match transfer_request_problem(*self) {
                None => r is Ok,
                Some(m) => r matches Err(e) && e@ == plain_error(RuntimeErrorCode::InvalidConfig, m),
            },
            r is Ok <==> (trim(self.from_account_id@).len() > 0 && trim(self.to_account_id@).len() > 0
                && self.amount_tinybar > 0),
            r matches Err(e) ==> e.code == RuntimeErrorCode::InvalidConfig && !e.retryable,
    {
        if is_blank(self.from_account_id.as_str()) {
            return Err(RuntimeError::invalid_config("fromAccountId must not be empty"));
        }
        if is_blank(self.to_account_id.as_str()) {
            return Err(RuntimeError::invalid_config("toAccountId must not be empty"));
        }
        if self.amount_tinybar == 0 {
            return Err(RuntimeError::invalid_config("amountTinybar must be greater than zero"));
        }
        Ok(())
    }
}

/// Checks a finality policy for a runtime: a policy that breaks a rule is
/// an `InvalidConfig` error carrying the rule.
pub fn check_finality_policy(policy: &FinalityPolicy) -> (r: Result<(), RuntimeError>)
    ensures
        match finality_policy_problem(*policy) {
            None => r is Ok,
            Some(m) => r matches Err(e) && e@ == plain_error(RuntimeErrorCode::InvalidConfig, m),
        },
{
    match policy.validate() {
        Ok(()) => Ok(()),
        Err(m) => Err(RuntimeError::invalid_config(m.as_str())),
    }
}

/// Checks that a transaction id is given.
pub fn check_transaction_id(transaction_id: &str) -> (r: Result<(), RuntimeError>)
    ensures
        trim(transaction_id@).len() == 0 ==> (r matches Err(e) && e@ == plain_error(
            RuntimeErrorCode::InvalidConfig,
            "transactionId must not be empty"@,
        )),
        trim(transaction_id@).len() != 0 ==> r is Ok,
{
    if is_blank(transaction_id) {
        return Err(RuntimeError::invalid_config("transactionId must not be empty"));
    }
    Ok(())
}

/// The answer to a transfer when no submitter is configured.
pub fn submission_disabled_error() -> (r: RuntimeError)
    ensures
        r@ == detailed_error(
            RuntimeErrorCode::Unsupported,
            "HBAR transfer submission is not configured yet for this runtime"@,
            seq![("reason"@, DetailValueView::Text("no submitter configured"@))],
        ),
{
    let mut d: Vec<DetailEntry> = Vec::new();
    d.push(DetailEntry::text("reason", "no submitter configured"));
    let ghost expected = seq![("reason"@, DetailValueView::Text("no submitter configured"@))];
    assert(details_view(d) =~= expected);
    RuntimeError::with_details(
        RuntimeErrorCode::Unsupported,
        "HBAR transfer submission is not configured yet for this runtime",
        d,
    )
}

// ── The transaction runtime ──────────────────────────────────────────────────

/// The decisions of the transaction runtime: its Mirror Node endpoint and
/// its (valid) finality policy.
pub struct TxRuntime {
    mirror: MirrorClient,
    finality_policy: FinalityPolicy,
}

/// A transaction the runtime follows by its id.
#[derive(Debug, Clone, PartialEq, Eq)]
pub struct AttachedTransaction {
    transaction_id: String,
}

impl AttachedTransaction {
    pub closed spec fn spec_transaction_id(&self) -> Seq<char> {
        self.transaction_id@
    }

    /// The id of the attached transaction.
    pub fn transaction_id(&self) -> (r: &str)
        ensures
            r@ == self.spec_transaction_id(),
    {
        self.transaction_id.as_str()
    }
}

impl TxRuntime {
    pub closed spec fn spec_policy(&self) -> FinalityPolicy {
        self.finality_policy
    }

    pub closed spec fn spec_mirror(&self) -> MirrorClient {
        self.mirror
    }

    /// A runtime, refused with `InvalidConfig` when the policy breaks a rule.
    pub fn new(mirror: MirrorClient, finality_policy: FinalityPolicy) -> (r: Result<TxRuntime, RuntimeError>)
        ensures
            match finality_policy_problem(finality_policy) {
                None => r matches Ok(rt) && rt.spec_policy() == finality_policy && rt.spec_mirror() == mirror,
                Some(m) => r matches Err(e) && e@ == plain_error(RuntimeErrorCode::InvalidConfig, m),
            },
    {
        check_finality_policy(&finality_policy)?;
        Ok(TxRuntime { mirror, finality_policy })
    }

    /// The finality policy of the runtime.
    pub fn finality_policy(&self) -> (r: &FinalityPolicy)
        ensures
            *r == self.spec_policy(),
    {
        &self.finality_policy
    }

    /// The Mirror Node endpoint of the runtime.
    pub fn mirror(&self) -> (r: &MirrorClient)
        ensures
            *r == self.spec_mirror(),
    {
        &self.mirror
    }

    /// Follows a transaction by its id; a blank id is refused.
    pub fn attach(&self, transaction_id: &str) -> (r: Result<AttachedTransaction, RuntimeError>)
        ensures
            trim(transaction_id@).len() == 0 ==> (r matches Err(e) && e@ == plain_error(
                RuntimeErrorCode::InvalidConfig,
                "transactionId must not be empty"@,
            )),
            trim(transaction_id@).len() != 0 ==> (r matches Ok(a) && a.spec_transaction_id()
                == transaction_id@),
    {
        check_transaction_id(transaction_id)?;
        Ok(AttachedTransaction { transaction_id: string_of(transaction_id) })
    }
}

// ── Waiting for a receipt ────────────────────────────────────────────────────

/// The checks made before waiting for a receipt: the id must be given and
/// the policy must keep its rules.
pub fn begin_receipt_wait(transaction_id: &str, policy: &FinalityPolicy) -> (r: Result<(), RuntimeError>)
    ensures
        trim(transaction_id@).len() == 0 ==> (r matches Err(e) && e@ == plain_error(
            RuntimeErrorCode::InvalidConfig,
            "transactionId must not be empty"@,
        )),
        trim(transaction_id@).len() != 0 ==> match finality_policy_problem(*policy) {
            None => r is Ok,
            Some(m) => r matches Err(e) && e@ == plain_error(RuntimeErrorCode::InvalidConfig, m),
        },
{
    check_transaction_id(transaction_id)?;
    check_finality_policy(policy)
}

/// The message when a receipt stays unavailable past the timeout.
pub open spec fn receipt_timeout_message(transaction_id: Seq<char>, timeout_ms: u64) -> Seq<char> {
    "receipt for "@ + transaction_id + " not available within "@ + decimal(timeout_ms as nat) + "ms"@
}

/// A receipt whose status is `UNKNOWN` (in any ASCII case) is not final.
pub open spec fn receipt_is_final(receipt: ReceiptResult) -> bool {
    !eq_ignore_ascii_case(receipt.status@, "UNKNOWN"@)
}

/// A receipt query outcome after which the wait goes on: no receipt, a
/// receipt that is not final, or a `NotFound` or retryable error.
pub open spec fn receipt_pending(outcome: Result<Option<ReceiptResult>, RuntimeError>) -> bool {
    match outcome {
        Ok(Some(receipt)) => !receipt_is_final(receipt),
        Ok(None) => true,
        Err(e) => e.code == RuntimeErrorCode::NotFound || e.retryable,
    }
}

/// The next step of waiting for a receipt after one query made
/// `elapsed_ms` after the wait began: `Some` ends the wait with the result,
/// `None` polls again after the poll interval. A final receipt ends the
/// wait; a pending outcome polls again unless the receipt timeout has
/// passed, which ends the wait with a `Timeout`; any other error ends the
/// wait with that error.
pub open spec fn receipt_wait_decision(
    transaction_id: Seq<char>,
    policy: FinalityPolicy,
    elapsed_ms: u64,
    outcome: Result<Option<ReceiptResult>, RuntimeError>,
) -> Option<Result<ReceiptResult, RuntimeErrorView>> {
    if receipt_pending(outcome) {
        if elapsed_ms >= policy.receipt_timeout_ms {
            Some(
                Err(
                    plain_error(
                        RuntimeErrorCode::Timeout,
                        receipt_timeout_message(transaction_id, policy.receipt_timeout_ms),
                    ),
                ),
            )
        } else {
            None
        }
    } else {
        match outcome {
            Ok(Some(receipt)) => Some(Ok(receipt)),
            Err(e) => Some(Err(e@)),
            Ok(None) => None,
        }
    }
}

/// Decides the next step of waiting for a receipt (see
/// `receipt_wait_decision`); `Sleep` carries the poll interval.
pub fn receipt_wait_step(
    transaction_id: &str,
    policy: &FinalityPolicy,
    elapsed_ms: u64,
    outcome: Result<Option<ReceiptResult>, RuntimeError>,
) -> (r: PollAction<ReceiptResult>)
    ensures
        match receipt_wait_decision(transaction_id@, *policy, elapsed_ms, outcome) {
            None => r == PollAction::<ReceiptResult>::Sleep(policy.poll_interval_ms),
            Some(Ok(receipt)) => r == PollAction::Done(Ok::<ReceiptResult, RuntimeError>(receipt)),
            Some(Err(ev)) => r matches PollAction::Done(Err(e)) && e@ == ev,
        },
        match outcome {
            Err(e) => if e.code == RuntimeErrorCode::NotFound || e.retryable {
                elapsed_ms < policy.receipt_timeout_ms ==> r == PollAction::<ReceiptResult>::Sleep(
                    policy.poll_interval_ms,
                )
            } else {
                r matches PollAction::Done(Err(e2)) && e2@ == e@
            },
            Ok(None) => elapsed_ms < policy.receipt_timeout_ms ==> r == PollAction::<
                ReceiptResult,
            >::Sleep(policy.poll_interval_ms),
            Ok(Some(receipt)) => !eq_ignore_ascii_case(receipt.status@, "UNKNOWN"@) ==> r
                == PollAction::Done(Ok::<ReceiptResult, RuntimeError>(receipt)),
        },
{
    let unknown = chars_of("UNKNOWN");
    let pending = match &outcome {
        Ok(Some(receipt)) => {
            let status = chars_of(receipt.status.as_str());
            eq_ignore_ascii_case_chars(&status, &unknown)
        },
        Ok(None) => true,
        Err(e) => e.code == RuntimeErrorCode::NotFound || e.is_retryable(),
    };
    if pending {
        if elapsed_ms >= policy.receipt_timeout_ms {
            let mut m = string_of("receipt for ");
            push_str(&mut m, transaction_id);
            push_str(&mut m, " not available within ");
            push_decimal(&mut m, policy.receipt_timeout_ms);
            push_str(&mut m, "ms");
            return PollAction::Done(Err(RuntimeError::timeout(m.as_str())));
        }
        return PollAction::Sleep(policy.poll_interval_ms);
    }
    match outcome {
        Ok(Some(receipt)) => PollAction::Done(Ok(receipt)),
        Ok(None) => PollAction::Sleep(policy.poll_interval_ms),
        Err(e) => PollAction::Done(Err(e)),
    }
}

/// While waiting for a receipt, a query that failed with `NotFound` or with
/// any error whose retryable flag is set, whatever its code, polls again
/// before the receipt timeout and ends the wait with a `Timeout` after it;
/// an error that is neither ends the wait with that very error at any time;
/// no receipt yet polls again before the timeout; and a receipt whose status
/// is not `UNKNOWN` (in any ASCII case) ends the wait with that receipt.
pub proof fn law_receipt_wait_answers(
    transaction_id: Seq<char>,
    policy: FinalityPolicy,
    elapsed_ms: u64,
    e: RuntimeError,
    receipt: ReceiptResult,
)
    ensures
        (e.code == RuntimeErrorCode::NotFound || e.retryable) && elapsed_ms
            < policy.receipt_timeout_ms ==> receipt_wait_decision(
            transaction_id,
            policy,
            elapsed_ms,
            Err(e),
        ) is None,
        (e.code == RuntimeErrorCode::NotFound || e.retryable) && elapsed_ms
            >= policy.receipt_timeout_ms ==> receipt_wait_decision(
            transaction_id,
            policy,
            elapsed_ms,
            Err(e),
        ) == Some(
            Err::<ReceiptResult, RuntimeErrorView>(
                plain_error(
                    RuntimeErrorCode::Timeout,
                    receipt_timeout_message(transaction_id, policy.receipt_timeout_ms),
                ),
            ),
        ),
        e.code != RuntimeErrorCode::NotFound && !e.retryable ==> receipt_wait_decision(
            transaction_id,
            policy,
            elapsed_ms,
            Err(e),
        ) == Some(Err::<ReceiptResult, RuntimeErrorView>(e@)),
        elapsed_ms < policy.receipt_timeout_ms ==> receipt_wait_decision(
            transaction_id,
            policy,
            elapsed_ms,
            Ok(None),
        ) is None,
        !eq_ignore_ascii_case(receipt.status@, "UNKNOWN"@) ==> receipt_wait_decision(
            transaction_id,
            policy,
            elapsed_ms,
            Ok(Some(receipt)),
        ) == Some(Ok::<ReceiptResult, RuntimeErrorView>(receipt)),
{
}

/// Waiting for a receipt is bounded: once the receipt timeout has passed,
/// every outcome ends the wait; and under a valid policy the wait sleeps a
/// positive interval between queries.
pub proof fn law_receipt_wait_bounded(
    transaction_id: Seq<char>,
    policy: FinalityPolicy,
    elapsed_ms: u64,
    outcome: Result<Option<ReceiptResult>, RuntimeError>,
)
    ensures
        elapsed_ms >= policy.receipt_timeout_ms ==> receipt_wait_decision(
            transaction_id,
            policy,
            elapsed_ms,
            outcome,
        ) is Some,
        finality_policy_problem(policy) is None ==> policy.poll_interval_ms > 0,
{
}

/// A final receipt, or an error that is neither `NotFound` nor retryable,
/// ends the wait at once, whatever the time.
pub proof fn law_receipt_wait_ends_on_answer(
    transaction_id: Seq<char>,
    policy: FinalityPolicy,
    elapsed_ms: u64,
    outcome: Result<Option<ReceiptResult>, RuntimeError>,
)
    requires
        !receipt_pending(outcome),
    ensures
        receipt_wait_decision(transaction_id, policy, elapsed_ms, outcome) == match outcome {
            Ok(Some(receipt)) => Some(Ok::<ReceiptResult, RuntimeErrorView>(receipt)),
            Err(e) => Some(Err(e@)),
            Ok(None) => None,
        },
{
}

/// The finalized view of a transaction: its receipt and the Mirror Node
/// lookup's primary entry and duplicates.
pub fn finalized_transaction(
    transaction_id: &str,
    receipt: ReceiptResult,
    lookup: TransactionLookup,
) -> (r: FinalizedTransaction)
    ensures
        r.transaction_id@ == transaction_id@,
        r.receipt == receipt,
        r.primary_mirror_entry == Some(lookup.primary),
        r.duplicates == lookup.duplicates,
{
    FinalizedTransaction {
        transaction_id: string_of(transaction_id),
        receipt,
        primary_mirror_entry: Some(lookup.primary),
        duplicates: lookup.duplicates,
    }
}

} // verus!

verus! {

// ── A whole wait for a receipt, and two-phase finality ──────────────────────

/// A receipt query after which the wait polls again: its outcome is pending
/// and it was made before the receipt timeout.
pub open spec fn receipt_wait_goes_on(
    policy: FinalityPolicy,
    step: (u64, Result<Option<ReceiptResult>, RuntimeError>),
) -> bool {
    receipt_pending(step.1) && step.0 < policy.receipt_timeout_ms
}

/// The index of the receipt query that ends the wait, or the number of
/// queries when none does.
pub open spec fn receipt_wait_stop(
    policy: FinalityPolicy,
    steps: Seq<(u64, Result<Option<ReceiptResult>, RuntimeError>)>,
) -> int
    decreases steps.len(),
{
    if steps.len() == 0 || !receipt_wait_goes_on(policy, steps[0]) {
        0
    } else {
        1 + receipt_wait_stop(policy, steps.drop_first())
    }
}

/// What the polling gives when the receipt queries, in order, are `steps`
/// (each with the time since the wait began): the end that the first
/// deciding query gives, or `None` while none has decided.
pub open spec fn receipt_wait_run(
    transaction_id: Seq<char>,
    policy: FinalityPolicy,
    steps: Seq<(u64, Result<Option<ReceiptResult>, RuntimeError>)>,
) -> Option<Result<ReceiptResult, RuntimeErrorView>>
    decreases steps.len(),
{
    if steps.len() == 0 {
        None
    } else {
        match receipt_wait_decision(transaction_id, policy, steps[0].0, steps[0].1) {
            Some(end) => Some(end),
            None => receipt_wait_run(transaction_id, policy, steps.drop_first()),
        }
    }
}

/// A whole wait for a receipt: the checks of `begin_receipt_wait`, then the
/// polling.
pub open spec fn receipt_wait_result(
    transaction_id: Seq<char>,
    policy: FinalityPolicy,
    steps: Seq<(u64, Result<Option<ReceiptResult>, RuntimeError>)>,
) -> Option<Result<ReceiptResult, RuntimeErrorView>> {
    if trim(transaction_id).len() == 0 {
        Some(Err(plain_error(RuntimeErrorCode::InvalidConfig, "transactionId must not be empty"@)))
    } else {
        match finality_policy_problem(policy) {
            Some(m) => Some(Err(plain_error(RuntimeErrorCode::InvalidConfig, m))),
            None => receipt_wait_run(transaction_id, policy, steps),
        }
    }
}

/// A whole wait for a receipt: every query before the one that ends the
/// wait was pending and made before the timeout; the wait succeeds only
/// with a receipt that query returned and whose status is not `UNKNOWN`;
/// it times out only when that query was pending and made at or after the
/// timeout; any other failure is the error that query returned; and while
/// no query decides, the wait goes on.
pub proof fn law_receipt_wait_run(
    transaction_id: Seq<char>,
    policy: FinalityPolicy,
    steps: Seq<(u64, Result<Option<ReceiptResult>, RuntimeError>)>,
)
    ensures
        ({
            let k = receipt_wait_stop(policy, steps);
            let run = receipt_wait_run(transaction_id, policy, steps);
            &&& 0 <= k <= steps.len()
            &&& forall|j: int| 0 <= j < k ==> receipt_wait_goes_on(policy, #[trigger] steps[j])
            &&& k == steps.len() ==> run is None
            &&& k < steps.len() ==> !receipt_wait_goes_on(policy, steps[k])
                && run == receipt_wait_decision(transaction_id, policy, steps[k].0, steps[k].1)
            &&& run matches Some(Ok(r)) ==> k < steps.len() && steps[k].1 == Ok::<
                Option<ReceiptResult>,
                RuntimeError,
            >(Some(r)) && receipt_is_final(r)
            &&& run matches Some(Err(e)) ==> k < steps.len() && ((receipt_pending(steps[k].1)
                && steps[k].0 >= policy.receipt_timeout_ms && e == plain_error(
                RuntimeErrorCode::Timeout,
                receipt_timeout_message(transaction_id, policy.receipt_timeout_ms),
            )) || (!receipt_pending(steps[k].1) && (steps[k].1 matches Err(pe) && e == pe@)))
        }),
    decreases steps.len(),
{
    if steps.len() > 0 && receipt_wait_goes_on(policy, steps[0]) {
        let rest = steps.drop_first();
        law_receipt_wait_run(transaction_id, policy, rest);
        assert forall|j: int| 0 <= j < receipt_wait_stop(policy, steps) implies receipt_wait_goes_on(
            policy,
            #[trigger] steps[j],
        ) by {
            if j > 0 {
                assert(steps[j] == rest[j - 1]);
            }
        }
        if receipt_wait_stop(policy, steps) < steps.len() {
            assert(steps[receipt_wait_stop(policy, steps)] == rest[receipt_wait_stop(policy, rest)]);
        }
    }
}

/// Two-phase finality: the whole receipt wait first; then, with the receipt
/// in hand, the reference is read and the whole wait for the transaction on
/// the Mirror Node (its lookups, in order, `mirror_steps`). The result holds
/// the receipt and the lookup that `finalized_transaction` combines.
pub open spec fn finality_result(
    transaction_id: Seq<char>,
    policy: FinalityPolicy,
    receipt_steps: Seq<(u64, Result<Option<ReceiptResult>, RuntimeError>)>,
    mirror_steps: Seq<(u64, Result<TransactionLookup, RuntimeError>)>,
) -> Option<Result<(ReceiptResult, TransactionLookup), RuntimeErrorView>> {
    match receipt_wait_result(transaction_id, policy, receipt_steps) {
        None => None,
        Some(Err(e)) => Some(Err(e)),
        Some(Ok(receipt)) => match parse_transaction_ref(transaction_id) {
            Err(m) => Some(Err(plain_error(RuntimeErrorCode::InvalidConfig, m))),
            Ok(tx) => match mirror_wait_run(tx, policy, mirror_steps) {
                None => None,
                Some(Err(e)) => Some(Err(e)),
                Some(Ok(lookup)) => Some(Ok((receipt, lookup))),
            },
        },
    }
}

/// Two-phase finality: a failed receipt phase is the result whatever the
/// Mirror Node would answer, so the Mirror Node is not asked; and a
/// finalized transaction has a final receipt from the receipt phase and the
/// lookup that ended the Mirror Node phase, on the reference read from the
/// transaction id.
pub proof fn law_two_phase_finality(
    transaction_id: Seq<char>,
    policy: FinalityPolicy,
    receipt_steps: Seq<(u64, Result<Option<ReceiptResult>, RuntimeError>)>,
    mirror_steps: Seq<(u64, Result<TransactionLookup, RuntimeError>)>,
)
    ensures
        receipt_wait_result(transaction_id, policy, receipt_steps) matches Some(Err(e)) ==> finality_result(
            transaction_id,
            policy,
            receipt_steps,
            mirror_steps,
        ) == Some(Err::<(ReceiptResult, TransactionLookup), RuntimeErrorView>(e)),
        finality_result(transaction_id, policy, receipt_steps, mirror_steps) matches Some(
            Ok((r, l)),
        ) ==> {
            &&& receipt_wait_result(transaction_id, policy, receipt_steps) == Some(
                Ok::<ReceiptResult, RuntimeErrorView>(r),
            )
            &&& receipt_is_final(r)
            &&& parse_transaction_ref(transaction_id) matches Ok(tx) && mirror_wait_run(
                tx,
                policy,
                mirror_steps,
            ) == Some(Ok::<TransactionLookup, RuntimeErrorView>(l))
        },
{
    law_receipt_wait_run(transaction_id, policy, receipt_steps);
}

} // verus!
