use vstd::prelude::*;

use crate::text::{push_str, string_of};

verus! {

/// Stable machine readable runtime error codes.
#[derive(Debug, Clone, Copy, PartialEq, Eq, Structural)]
pub enum RuntimeErrorCode {
    InvalidConfig,
    Transport,
    MirrorHttp,
    Consensus,
    Schedule,
    Timeout,
    RateLimited,
    NotFound,
    Serialization,
    Unsupported,
    Internal,
}

/// A value attached to an error for diagnosis.
#[derive(Debug, Clone, PartialEq, Eq)]
pub enum DetailValue {
    Text(String),
    Number(u64),
}

/// Abstract value of a `DetailValue`.
pub enum DetailValueView {
    Text(Seq<char>),
    Number(u64),
}

impl View for DetailValue {
    type V = DetailValueView;

    open spec fn view(&self) -> DetailValueView {
        match self {
            DetailValue::Text(s) => DetailValueView::Text(s@),
            DetailValue::Number(n) => DetailValueView::Number(*n),
        }
    }
}

/// One named value of an error's details.
#[derive(Debug, Clone, PartialEq, Eq)]
pub struct DetailEntry {
    pub key: String,
    pub value: DetailValue,
}

impl View for DetailEntry {
    type V = (Seq<char>, DetailValueView);

    open spec fn view(&self) -> (Seq<char>, DetailValueView) {
        (self.key@, self.value@)
    }
}

impl DetailEntry {
    /// An entry holding text.
    pub fn text(key: &str, value: &str) -> (r: DetailEntry)
        ensures
            r@ == (key@, DetailValueView::Text(value@)),
    {
        DetailEntry { key: string_of(key), value: DetailValue::Text(string_of(value)) }
    }

    /// An entry holding a number.
    pub fn number(key: &str, value: u64) -> (r: DetailEntry)
        ensures
            r@ == (key@, DetailValueView::Number(value)),
    {
        DetailEntry { key: string_of(key), value: DetailValue::Number(value) }
    }
}

/// Abstract value of a list of detail entries.
pub open spec fn details_view(d: Vec<DetailEntry>) -> Seq<(Seq<char>, DetailValueView)> {
    d@.map_values(|e: DetailEntry| e@)
}

/// Shared runtime error payload.
#[derive(Debug, Clone, PartialEq, Eq)]
pub struct RuntimeError {
    pub code: RuntimeErrorCode,
    pub message: String,
    pub retryable: bool,
    pub details: Option<Vec<DetailEntry>>,
}

/// Abstract value of a `RuntimeError`.
pub struct RuntimeErrorView {
    pub code: RuntimeErrorCode,
    pub message: Seq<char>,
    pub retryable: bool,
    pub details: Option<Seq<(Seq<char>, DetailValueView)>>,
}

impl View for RuntimeError {
    type V = RuntimeErrorView;

    open spec fn view(&self) -> RuntimeErrorView {
        RuntimeErrorView {
            code: self.code,
            message: self.message@,
            retryable: self.retryable,
            details: match self.details {
                Some(d) => Some(details_view(d)),
                None => None,
            },
        }
    }
}

/// Codes whose errors are retryable unless stated otherwise.
pub open spec fn default_retryable(code: RuntimeErrorCode) -> bool {
    code == RuntimeErrorCode::Transport || code == RuntimeErrorCode::Timeout || code
        == RuntimeErrorCode::RateLimited
}

/// The error that `RuntimeError::new` builds.
pub open spec fn plain_error(code: RuntimeErrorCode, message: Seq<char>) -> RuntimeErrorView {
    RuntimeErrorView { code, message, retryable: default_retryable(code), details: None }
}

/// The error that `RuntimeError::with_details` builds.
pub open spec fn detailed_error(
    code: RuntimeErrorCode,
    message: Seq<char>,
    details: Seq<(Seq<char>, DetailValueView)>,
) -> RuntimeErrorView {
    RuntimeErrorView { code, message, retryable: default_retryable(code), details: Some(details) }
}

/// The error that `RuntimeError::with_retryable_and_details` builds.
pub open spec fn retryable_detailed_error(
    code: RuntimeErrorCode,
    message: Seq<char>,
    retryable: bool,
    details: Seq<(Seq<char>, DetailValueView)>,
) -> RuntimeErrorView {
    RuntimeErrorView { code, message, retryable, details: Some(details) }
}

/// The name that `Debug` gives a code.
pub open spec fn code_name(code: RuntimeErrorCode) -> Seq<char> {
    match code {
        RuntimeErrorCode::InvalidConfig => "InvalidConfig"@,
        RuntimeErrorCode::Transport => "Transport"@,
        RuntimeErrorCode::MirrorHttp => "MirrorHttp"@,
        RuntimeErrorCode::Consensus => "Consensus"@,
        RuntimeErrorCode::Schedule => "Schedule"@,
        RuntimeErrorCode::Timeout => "Timeout"@,
        RuntimeErrorCode::RateLimited => "RateLimited"@,
        RuntimeErrorCode::NotFound => "NotFound"@,
        RuntimeErrorCode::Serialization => "Serialization"@,
        RuntimeErrorCode::Unsupported => "Unsupported"@,
        RuntimeErrorCode::Internal => "Internal"@,
    }
}

impl RuntimeErrorCode {
    /// The name of the code, as `Debug` writes it.
    pub fn name(&self) -> (r: &'static str)
        ensures
            r@ == code_name(*self),
    {
        match self {
            RuntimeErrorCode::InvalidConfig => "InvalidConfig",
            RuntimeErrorCode::Transport => "Transport",
            RuntimeErrorCode::MirrorHttp => "MirrorHttp",
            RuntimeErrorCode::Consensus => "Consensus",
            RuntimeErrorCode::Schedule => "Schedule",
            RuntimeErrorCode::Timeout => "Timeout",
            RuntimeErrorCode::RateLimited => "RateLimited",
            RuntimeErrorCode::NotFound => "NotFound",
            RuntimeErrorCode::Serialization => "Serialization",
            RuntimeErrorCode::Unsupported => "Unsupported",
            RuntimeErrorCode::Internal => "Internal",
        }
    }
}

impl RuntimeError {
    /// An error whose retryability follows from its code.
    pub fn new(code: RuntimeErrorCode, message: &str) -> (r: RuntimeError)
        ensures
            r@ == plain_error(code, message@),
    {
        RuntimeError {
            code,
            message: string_of(message),
            retryable: Self::default_retryable(code),
            details: None,
        }
    }

    /// An error with details, whose retryability follows from its code.
    pub fn with_details(code: RuntimeErrorCode, message: &str, details: Vec<DetailEntry>) -> (r:
        RuntimeError)
        ensures
            r@ == detailed_error(code, message@, details_view(details)),
    {
        RuntimeError {
            code,
            message: string_of(message),
            retryable: Self::default_retryable(code),
            details: Some(details),
        }
    }

    /// An error whose retryability is given.
    pub fn with_retryable(code: RuntimeErrorCode, message: &str, retryable: bool) -> (r:
        RuntimeError)
        ensures
            r@ == (RuntimeErrorView { code, message: message@, retryable, details: None }),
    {
        RuntimeError { code, message: string_of(message), retryable, details: None }
    }

    /// An error with details whose retryability is given.
    pub fn with_retryable_and_details(
        code: RuntimeErrorCode,
        message: &str,
        retryable: bool,
        details: Vec<DetailEntry>,
    ) -> (r: RuntimeError)
        ensures
            r@ == retryable_detailed_error(code, message@, retryable, details_view(details)),
    {
        RuntimeError { code, message: string_of(message), retryable, details: Some(details) }
    }

    /// Whether the operation that failed may be attempted again.
    pub fn is_retryable(&self) -> (r: bool)
        ensures
            r == self.retryable,
    {
        self.retryable
    }

    pub fn invalid_config(message: &str) -> (r: RuntimeError)
        ensures
            r@ == plain_error(RuntimeErrorCode::InvalidConfig, message@),
    {
        Self::new(RuntimeErrorCode::InvalidConfig, message)
    }

    pub fn timeout(message: &str) -> (r: RuntimeError)
        ensures
            r@ == plain_error(RuntimeErrorCode::Timeout, message@),
    {
        Self::new(RuntimeErrorCode::Timeout, message)
    }

    pub fn not_found(message: &str) -> (r: RuntimeError)
        ensures
            r@ == plain_error(RuntimeErrorCode::NotFound, message@),
    {
        Self::new(RuntimeErrorCode::NotFound, message)
    }

    pub fn transport(message: &str) -> (r: RuntimeError)
        ensures
            r@ == plain_error(RuntimeErrorCode::Transport, message@),
    {
        Self::new(RuntimeErrorCode::Transport, message)
    }

    pub fn internal(message: &str) -> (r: RuntimeError)
        ensures
            r@ == plain_error(RuntimeErrorCode::Internal, message@),
    {
        Self::new(RuntimeErrorCode::Internal, message)
    }

    fn default_retryable(code: RuntimeErrorCode) -> (r: bool)
        ensures
            r == default_retryable(code),
    {
        match code {
            RuntimeErrorCode::Transport | RuntimeErrorCode::Timeout
            | RuntimeErrorCode::RateLimited => true,
            _ => false,
        }
    }

    /// The text that `Display` shows: the message, then the code in brackets.
    pub fn to_string(&self) -> (r: String)
        ensures
            r@ == self.message@ + " ("@ + code_name(self.code) + ")"@,
    {
        let mut r = self.message.clone();
        push_str(&mut r, " (");
        push_str(&mut r, self.code.name());
        push_str(&mut r, ")");
        r
    }
}

} // verus!
