use vstd::prelude::*;
use vstd::arithmetic::power2::{lemma_pow2_strictly_increases, lemma_pow2_unfold, pow2};
use vstd::arithmetic::mul::lemma_mul_inequality;
use vstd::bits::{lemma_u64_pow2_no_overflow, lemma_u64_shl_is_mul};

use crate::text::{is_blank, string_of, trim};

verus! {

/// The kind of Hedera network a runtime talks to.
#[derive(Debug, Clone, Copy, PartialEq, Eq, Structural)]
pub enum NetworkKind {
    Mainnet,
    Testnet,
    Previewnet,
    Custom,
}

/// A single consensus node endpoint used for custom network configurations.
#[derive(Debug, Clone, PartialEq, Eq)]
pub struct ConsensusNodeConfig {
    /// Host and port of the consensus node, e.g. `"34.94.106.61:50211"`.
    pub url: String,
    /// Hedera account ID of the node, e.g. `"0.0.3"`.
    pub account_id: String,
}

/// Network level runtime configuration.
#[derive(Debug, Clone, PartialEq, Eq)]
pub struct NetworkConfig {
    pub kind: NetworkKind,
    pub mirror_base_url: String,
    pub consensus_nodes: Option<Vec<ConsensusNodeConfig>>,
}

/// Optional operator identity used by write oriented runtimes.
#[derive(Debug, Clone, PartialEq, Eq)]
pub struct OperatorConfig {
    pub account_id: String,
    pub private_key: String,
}

/// Exponential retry policy shared across runtime subsystems.
#[derive(Debug, Clone, PartialEq, Eq)]
pub struct RetryPolicy {
    pub max_attempts: u32,
    pub initial_delay_ms: u64,
    pub max_delay_ms: u64,
    pub jitter: bool,
}

impl Default for RetryPolicy {
    fn default() -> (r: RetryPolicy)
        ensures
            r.max_attempts == 8,
            r.initial_delay_ms == 250,
            r.max_delay_ms == 3_000,
            r.jitter,
    {
        RetryPolicy { max_attempts: 8, initial_delay_ms: 250, max_delay_ms: 3_000, jitter: true }
    }
}

/// What is wrong with a retry policy, if anything: the first failed rule.
pub open spec fn retry_policy_problem(p: RetryPolicy) -> Option<Seq<char>> {
    if p.max_attempts == 0 {
        Some("retry.maxAttempts must be greater than zero"@)
    } else if p.initial_delay_ms == 0 {
        Some("retry.initialDelayMs must be greater than zero"@)
    } else if p.max_delay_ms == 0 {
        Some("retry.maxDelayMs must be greater than zero"@)
    } else if p.initial_delay_ms > p.max_delay_ms {
        Some("retry.initialDelayMs must be less than or equal to retry.maxDelayMs"@)
    } else {
        None
    }
}

/// `2^min(attempt, 63)`: the factor of the backoff for a 0 based attempt index.
pub open spec fn backoff_factor(attempt_index: u32) -> nat {
    pow2(if attempt_index < 63 {
        attempt_index as nat
    } else {
        63
    })
}

/// The exponential backoff delay: `initial * 2^min(attempt, 63)`, saturated
/// at `u64::MAX`, and capped at `max`.
pub open spec fn backoff_delay(initial: u64, max: u64, attempt_index: u32) -> u64 {
    let raw = initial * backoff_factor(attempt_index);
    let saturated: u64 = if raw > u64::MAX {
        u64::MAX
    } else {
        raw as u64
    };
    if saturated <= max {
        saturated
    } else {
        max
    }
}

impl RetryPolicy {
    /// Checks the policy; the error names the first rule that fails.
    pub fn validate(&self) -> (r: Result<(), String>)
        ensures
            match r {
                Ok(()) => retry_policy_problem(*self) is None,
                Err(m) => retry_policy_problem(*self) == Some(m@),
            },
    {
        if self.max_attempts == 0 {
            return Err(string_of("retry.maxAttempts must be greater than zero"));
        }
        if self.initial_delay_ms == 0 {
            return Err(string_of("retry.initialDelayMs must be greater than zero"));
        }
        if self.max_delay_ms == 0 {
            return Err(string_of("retry.maxDelayMs must be greater than zero"));
        }
        if self.initial_delay_ms > self.max_delay_ms {
            return Err(
                string_of("retry.initialDelayMs must be less than or equal to retry.maxDelayMs"),
            );
        }
        Ok(())
    }

    /// Deterministic exponential backoff delay for a 0 based attempt index.
    pub fn delay_ms_for_attempt(&self, attempt_index: u32) -> (r: u64)
        ensures
            r == backoff_delay(self.initial_delay_ms, self.max_delay_ms, attempt_index),
    {
        let shift: u64 = if attempt_index < 63 {
            attempt_index as u64
        } else {
            63
        };
        proof {
            lemma_u64_pow2_no_overflow(shift as nat);
            lemma_u64_shl_is_mul(1, shift);
        }
        let factor: u64 = 1u64 << shift;
        assert(factor == backoff_factor(attempt_index));
        let raw: u64 = match self.initial_delay_ms.checked_mul(factor) {
            Some(v) => v,
            None => u64::MAX,
        };
        if raw <= self.max_delay_ms {
            raw
        } else {
            self.max_delay_ms
        }
    }
}

/// The backoff delay never exceeds the policy's maximum delay.
pub proof fn law_backoff_capped(initial: u64, max: u64, attempt_index: u32)
    ensures
        backoff_delay(initial, max, attempt_index) <= max,
{
}

/// The backoff delay never shrinks as attempts go on.
pub proof fn law_backoff_monotone(initial: u64, max: u64, i: u32, j: u32)
    requires
        i <= j,
    ensures
        backoff_delay(initial, max, i) <= backoff_delay(initial, max, j),
{
    let a: nat = if i < 63 { i as nat } else { 63 };
    let b: nat = if j < 63 { j as nat } else { 63 };
    if a < b {
        lemma_pow2_strictly_increases(a, b);
    }
    lemma_mul_inequality(pow2(a) as int, pow2(b) as int, initial as int);
    assert(initial * pow2(a) <= initial * pow2(b)) by (nonlinear_arith)
        requires
            pow2(a) <= pow2(b),
    ;
}

/// Each further attempt doubles the previous delay, up to the maximum delay
/// (while the exponent is below its limit of 63).
pub proof fn law_backoff_doubles(initial: u64, max: u64, i: u32)
    requires
        i < 63,
    ensures
        backoff_delay(initial, max, (i + 1) as u32) == if 2 * backoff_delay(initial, max, i)
            <= max {
            2 * backoff_delay(initial, max, i)
        } else {
            max as int
        },
{
    lemma_pow2_unfold((i + 1) as nat);
    let p = pow2(i as nat);
    assert(pow2((i + 1) as nat) == 2 * p);
    assert(initial * pow2((i + 1) as nat) == 2 * (initial * p)) by (nonlinear_arith)
        requires
            pow2((i + 1) as nat) == 2 * p,
    ;
}

/// Finality and polling behavior used by tx/schedule runtimes.
#[derive(Debug, Clone, PartialEq, Eq)]
pub struct FinalityPolicy {
    pub receipt_timeout_ms: u64,
    pub mirror_timeout_ms: u64,
    pub poll_interval_ms: u64,
}

impl Default for FinalityPolicy {
    fn default() -> (r: FinalityPolicy)
        ensures
            r.receipt_timeout_ms == 15_000,
            r.mirror_timeout_ms == 20_000,
            r.poll_interval_ms == 500,
    {
        FinalityPolicy { receipt_timeout_ms: 15_000, mirror_timeout_ms: 20_000, poll_interval_ms: 500 }
    }
}

/// What is wrong with a finality policy, if anything: the first failed rule.
pub open spec fn finality_policy_problem(p: FinalityPolicy) -> Option<Seq<char>> {
    if p.receipt_timeout_ms == 0 {
        Some("finality.receiptTimeoutMs must be greater than zero"@)
    } else if p.mirror_timeout_ms == 0 {
        Some("finality.mirrorTimeoutMs must be greater than zero"@)
    } else if p.poll_interval_ms == 0 {
        Some("finality.pollIntervalMs must be greater than zero"@)
    } else {
        None
    }
}

impl FinalityPolicy {
    /// Checks the policy; the error names the first rule that fails.
    pub fn validate(&self) -> (r: Result<(), String>)
        ensures
            match r {
                Ok(()) => finality_policy_problem(*self) is None,
                Err(m) => finality_policy_problem(*self) == Some(m@),
            },
    {
        if self.receipt_timeout_ms == 0 {
            return Err(string_of("finality.receiptTimeoutMs must be greater than zero"));
        }
        if self.mirror_timeout_ms == 0 {
            return Err(string_of("finality.mirrorTimeoutMs must be greater than zero"));
        }
        if self.poll_interval_ms == 0 {
            return Err(string_of("finality.pollIntervalMs must be greater than zero"));
        }
        Ok(())
    }
}

/// Top level runtime config shared by native and TS facing layers.
#[derive(Debug, Clone, PartialEq, Eq)]
pub struct RuntimeConfig {
    pub network: NetworkConfig,
    pub operator: Option<OperatorConfig>,
    pub retry: RetryPolicy,
    pub finality: FinalityPolicy,
}

/// What is wrong with an operator identity, if anything.
pub open spec fn operator_problem(operator: Option<OperatorConfig>) -> Option<Seq<char>> {
    match operator {
        Some(op) => if trim(op.account_id@).len() == 0 {
            Some("operator.accountId must not be empty"@)
        } else if trim(op.private_key@).len() == 0 {
            Some("operator.privateKey must not be empty"@)
        } else {
            None
        },
        None => None,
    }
}

/// What is wrong with a runtime configuration, if anything: the first
/// failed rule, in the order network, retry, finality, operator.
pub open spec fn runtime_config_problem(c: RuntimeConfig) -> Option<Seq<char>> {
    if trim(c.network.mirror_base_url@).len() == 0 {
        Some("network.mirrorBaseUrl must not be empty"@)
    } else if retry_policy_problem(c.retry) is Some {
        retry_policy_problem(c.retry)
    } else if finality_policy_problem(c.finality) is Some {
        finality_policy_problem(c.finality)
    } else {
        operator_problem(c.operator)
    }
}

impl RuntimeConfig {
    /// Checks the configuration; the error names the first rule that fails.
    pub fn validate(&self) -> (r: Result<(), String>)
        ensures
            match r {
                Ok(()) => runtime_config_problem(*self) is None,
                Err(m) => runtime_config_problem(*self) == Some(m@),
            },
    {
        if is_blank(self.network.mirror_base_url.as_str()) {
            return Err(string_of("network.mirrorBaseUrl must not be empty"));
        }
        self.retry.validate()?;
        self.finality.validate()?;
        if let Some(operator) = &self.operator {
            if is_blank(operator.account_id.as_str()) {
                return Err(string_of("operator.accountId must not be empty"));
            }
            if is_blank(operator.private_key.as_str()) {
                return Err(string_of("operator.privateKey must not be empty"));
            }
        }
        Ok(())
    }
}

} // verus!
