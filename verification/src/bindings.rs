use vstd::prelude::*;

use crate::error::{detailed_error, details_view, DetailEntry, DetailValueView, RuntimeError, RuntimeErrorCode};
use crate::text::{parse_u64, parse_u64_chars, push_str, string_of, trim, trim_str};

verus! {

/// The number of transactions in a page when the caller names no limit.
pub open spec fn default_page_limit() -> u32 {
    25
}

/// The page size to ask for: the caller's limit, else 25.
pub fn page_limit(limit: Option<u32>) -> (r: u32)
    ensures
        r == match limit {
            Some(l) => l,
            None => default_page_limit(),
        },
{
    match limit {
        Some(l) => l,
        None => 25,
    }
}

/// Reads a tinybar amount given as a decimal string, white space around it
/// allowed; anything else is an `InvalidConfig` error that quotes the input.
pub fn parse_tinybar_string(value: &str) -> (r: Result<u64, RuntimeError>)
    ensures
        match parse_u64(trim(value@)) {
            Some(n) => r == Ok::<u64, RuntimeError>(n),
            None => r matches Err(e) && e@ == detailed_error(
                RuntimeErrorCode::InvalidConfig,
                "amountTinybar must be a valid positive integer string, got: "@ + value@,
                seq![("amountTinybar"@, DetailValueView::Text(value@))],
            ),
        },
{
    let t = trim_str(value);
    match parse_u64_chars(&t) {
        Some(n) => Ok(n),
        None => {
            let mut m = string_of("amountTinybar must be a valid positive integer string, got: ");
            push_str(&mut m, value);
            let mut d: Vec<DetailEntry> = Vec::new();
            d.push(DetailEntry::text("amountTinybar", value));
            assert(details_view(d) =~= seq![("amountTinybar"@, DetailValueView::Text(value@))]);
            Err(RuntimeError::with_details(RuntimeErrorCode::InvalidConfig, m.as_str(), d))
        },
    }
}

} // verus!
