//! Shared helpers of the service modules.

use vstd::prelude::*;

use crate::models::error::{AppError, AppErrorKind};
use crate::text::{concat2, owned};

verus! {

/// A non-empty API key from an optional slot; an absent or empty key is a
/// configuration error naming the variable.
pub fn require_api_key(slot: Option<&String>, var_name: &str) -> (r: Result<String, AppError>)
    ensures
        match slot {
            Some(k) if k@.len() > 0 => r matches Ok(s) && s@ == k@,
            _ => r matches Err(AppError::Configuration(m)) && m@ == var_name@ + " not configured"@,
        },
{
    match slot {
        Some(k) => {
            if !k.as_str().is_empty() {
                return Ok(owned(k.as_str()));
            }
        },
        None => {},
    }
    Err(AppError::Configuration(concat2(var_name, " not configured")))
}

/// The error of a default HTTP client that cannot be built.
pub fn http_client_error(detail: &str) -> (r: AppError)
    ensures
        r.is(AppErrorKind::Configuration, "HTTP client error: "@ + detail@),
{
    AppError::Configuration(concat2("HTTP client error: ", detail))
}

/// The error of a service's own HTTP client (built with its timeout) that
/// cannot be built.
pub fn client_setup_error(detail: &str) -> (r: AppError)
    ensures
        r.is(AppErrorKind::Configuration, "Failed to create HTTP client: "@ + detail@),
{
    AppError::Configuration(concat2("Failed to create HTTP client: ", detail))
}

} // verus!
