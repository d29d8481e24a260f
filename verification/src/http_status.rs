//! HTTP status codes as plain numbers: their classes and their display form.

use vstd::prelude::*;

use crate::text::{concat3, decimal, u64_to_decimal};

verus! {

/// A status code that `http::StatusCode` can hold (three digits).
pub open spec fn valid_status(code: u16) -> bool {
    100 <= code <= 999
}

/// 2xx.
pub open spec fn is_success_spec(code: u16) -> bool {
    200 <= code <= 299
}

/// 4xx.
pub open spec fn is_client_error_spec(code: u16) -> bool {
    400 <= code <= 499
}

/// 5xx.
pub open spec fn is_server_error_spec(code: u16) -> bool {
    500 <= code <= 599
}

/// Status is within 200-299.
pub fn is_success(code: u16) -> (r: bool)
    ensures
        r == is_success_spec(code),
{
    200 <= code && code <= 299
}

/// Status is within 400-499.
pub fn is_client_error(code: u16) -> (r: bool)
    ensures
        r == is_client_error_spec(code),
{
    400 <= code && code <= 499
}

/// Status is within 500-599.
pub fn is_server_error(code: u16) -> (r: bool)
    ensures
        r == is_server_error_spec(code),
{
    500 <= code && code <= 599
}

/// The reason phrase that `http::StatusCode::canonical_reason` gives a code.
pub uninterp spec fn canonical_reason_of(code: u16) -> Option<Seq<char>>;

/// `http::StatusCode::canonical_reason` (reached through `reqwest`): the
/// standard reason phrase of a status code, if it has one. The phrase table
/// itself is not stated; the result is named by `canonical_reason_of`.
#[verifier::external_body]
fn canonical_reason(code: u16) -> (r: Option<String>)
    requires
        valid_status(code),
    ensures
        match r {
            Some(s) => canonical_reason_of(code) == Some(s@),
            None => canonical_reason_of(code) is None,
        },
{
    match reqwest::StatusCode::from_u16(code) {
        Ok(status) => status.canonical_reason().map(|reason| reason.to_string()),
        Err(_) => None,
    }
}

/// The display form of a status: its number, a space and the reason phrase
/// (`<unknown status code>` where there is none), as `StatusCode` displays.
pub open spec fn status_text_spec(code: u16) -> Seq<char> {
    decimal(code as nat) + " "@ + match canonical_reason_of(code) {
        Some(r) => r,
        None => "<unknown status code>"@,
    }
}

/// The display form of a status code, such as `404 Not Found`.
pub fn status_text(code: u16) -> (r: String)
    requires
        valid_status(code),
    ensures
        r@ == status_text_spec(code),
{
    let number = u64_to_decimal(code as u64);
    match canonical_reason(code) {
        Some(reason) => concat3(number.as_str(), " ", reason.as_str()),
        None => concat3(number.as_str(), " ", "<unknown status code>"),
    }
}

} // verus!
