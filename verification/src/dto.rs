use vstd::prelude::*;
use vstd::std_specs::convert::FromSpecImpl;

use crate::error::{detailed_error, details_view, DetailEntry, RuntimeError, RuntimeErrorCode};
use crate::model::{ContractResultView, MirrorAccountView, MirrorTransactionRecord};
use crate::text::{decimal, decimal_string, signed_decimal, signed_decimal_string};

verus! {

/// Cursor links returned by Mirror Node list responses.
#[derive(Debug)]
pub struct MirrorLinksDto {
    pub next: Option<String>,
}

/// Body of a Mirror Node transaction list response.
#[derive(Debug)]
pub struct MirrorTransactionsResponseDto {
    pub transactions: Vec<MirrorTransactionDto>,
    pub links: Option<MirrorLinksDto>,
}

/// One transaction as the Mirror Node reports it.
#[derive(Debug)]
pub struct MirrorTransactionDto {
    pub transaction_id: String,
    pub result: String,
    pub consensus_timestamp: Option<String>,
    pub name: Option<String>,
    pub scheduled: Option<bool>,
    pub nonce: Option<i32>,
}

/// The record that a mirror transaction entry normalizes to.
pub open spec fn record_of(value: MirrorTransactionDto) -> MirrorTransactionRecord {
    MirrorTransactionRecord {
        transaction_id: value.transaction_id,
        result: value.result,
        consensus_timestamp: value.consensus_timestamp,
        name: value.name,
        scheduled: value.scheduled,
        nonce: value.nonce,
    }
}

impl From<MirrorTransactionDto> for MirrorTransactionRecord {
    fn from(value: MirrorTransactionDto) -> (r: MirrorTransactionRecord)
        ensures
            r == record_of(value),
    {
        MirrorTransactionRecord {
            transaction_id: value.transaction_id,
            result: value.result,
            consensus_timestamp: value.consensus_timestamp,
            name: value.name,
            scheduled: value.scheduled,
            nonce: value.nonce,
        }
    }
}

impl FromSpecImpl<MirrorTransactionDto> for MirrorTransactionRecord {
    open spec fn obeys_from_spec() -> bool {
        true
    }

    open spec fn from_spec(value: MirrorTransactionDto) -> MirrorTransactionRecord {
        record_of(value)
    }
}

/// Raw DTO for `GET /api/v1/accounts/{idOrAliasOrEvmAddress}`.
#[derive(Debug)]
pub struct MirrorAccountDto {
    pub account: String,
    pub balance: Option<MirrorAccountBalanceDto>,
    pub evm_address: Option<String>,
    pub deleted: bool,
    pub memo: String,
}

/// Balance part of a Mirror Node account response.
#[derive(Debug)]
pub struct MirrorAccountBalanceDto {
    pub balance: i64,
}

/// The serialization error for a response that lacks a required field.
pub open spec fn missing_field_error(message: Seq<char>) -> crate::error::RuntimeErrorView {
    detailed_error(RuntimeErrorCode::Serialization, message, Seq::empty())
}

/// The balance in tinybars that an account response reports, 0 when absent.
pub open spec fn balance_of(value: MirrorAccountDto) -> i64 {
    match value.balance {
        Some(b) => b.balance,
        None => 0,
    }
}

impl MirrorAccountView {
    /// Normalizes a Mirror Node account response; the account id is required.
    pub fn try_from(value: MirrorAccountDto) -> (r: Result<MirrorAccountView, RuntimeError>)
        ensures
            value.account@.len() == 0 ==> (r matches Err(e) && e@ == missing_field_error(
                "mirror account response missing required field: account"@,
            )),
            value.account@.len() != 0 ==> (r matches Ok(v) && v.account == value.account
                && v.balance@ == signed_decimal(balance_of(value) as int) && v.evm_address
                == value.evm_address && v.deleted == value.deleted && v.memo == value.memo),
    {
        if value.account.as_str().is_empty() {
            let details: Vec<DetailEntry> = Vec::new();
            assert(details_view(details) =~= Seq::empty());
            return Err(
                RuntimeError::with_details(
                    RuntimeErrorCode::Serialization,
                    "mirror account response missing required field: account",
                    details,
                ),
            );
        }
        let balance: i64 = match &value.balance {
            Some(b) => b.balance,
            None => 0,
        };
        Ok(MirrorAccountView {
            account: value.account,
            balance: signed_decimal_string(balance),
            evm_address: value.evm_address,
            deleted: value.deleted,
            memo: value.memo,
        })
    }
}

/// Raw DTO for `GET /api/v1/contracts/results/{transactionIdOrHash}`.
#[derive(Debug)]
pub struct MirrorContractResultDto {
    pub contract_id: Option<String>,
    pub transaction_id: Option<String>,
    pub result: Option<String>,
    pub status: Option<String>,
    pub gas_used: Option<u64>,
    pub error_message: Option<String>,
    pub call_result: Option<String>,
    pub from: Option<String>,
    pub to: Option<String>,
}

/// The first required field that a contract result response lacks.
pub open spec fn contract_result_missing(value: MirrorContractResultDto) -> Option<Seq<char>> {
    if value.transaction_id is None {
        Some("mirror contract result response missing required field: transaction_id"@)
    } else if value.result is None {
        Some("mirror contract result response missing required field: result"@)
    } else if value.status is None {
        Some("mirror contract result response missing required field: status"@)
    } else {
        None
    }
}

fn missing_field(message: &str) -> (r: RuntimeError)
    ensures
        r@ == missing_field_error(message@),
{
    let details: Vec<DetailEntry> = Vec::new();
    assert(details_view(details) =~= Seq::empty());
    RuntimeError::with_details(RuntimeErrorCode::Serialization, message, details)
}

impl ContractResultView {
    /// Normalizes a Mirror Node contract result; the transaction id, result
    /// and status are required, the gas used defaults to 0.
    pub fn try_from(value: MirrorContractResultDto) -> (r: Result<ContractResultView, RuntimeError>)
        ensures
            match contract_result_missing(value) {
                Some(m) => r matches Err(e) && e@ == missing_field_error(m),
                None => r matches Ok(v) && v.contract_id == value.contract_id && Some(
                    v.transaction_id,
                ) == value.transaction_id && Some(v.result) == value.result && Some(v.status)
                    == value.status && v.gas_used@ == decimal(
                    (match value.gas_used {
                        Some(g) => g,
                        None => 0u64,
                    }) as nat,
                ) && v.error_message == value.error_message && v.call_result
                    == value.call_result && v.from == value.from && v.to == value.to,
            },
    {
        let transaction_id = match value.transaction_id {
            Some(t) => t,
            None => {
                return Err(
                    missing_field(
                        "mirror contract result response missing required field: transaction_id",
                    ),
                );
            },
        };
        let result = match value.result {
            Some(t) => t,
            None => {
                return Err(
                    missing_field("mirror contract result response missing required field: result"),
                );
            },
        };
        let status = match value.status {
            Some(t) => t,
            None => {
                return Err(
                    missing_field("mirror contract result response missing required field: status"),
                );
            },
        };
        let gas: u64 = match value.gas_used {
            Some(g) => g,
            None => 0,
        };
        Ok(ContractResultView {
            contract_id: value.contract_id,
            transaction_id,
            result,
            status,
            gas_used: decimal_string(gas),
            error_message: value.error_message,
            call_result: value.call_result,
            from: value.from,
            to: value.to,
        })
    }
}

} // verus!
