//! Bearer-token parsing of `Authorization` header values.

use vstd::prelude::*;
use vstd::string::*;

use crate::models::error::AppError;
use crate::text::{concat2, owned, starts_with};

verus! {

/// The token of an `Authorization` value: what follows `Bearer ` or
/// `bearer `, or nothing when the value has neither prefix.
pub open spec fn bearer_token_spec(h: Seq<char>) -> Option<Seq<char>> {
    if "Bearer "@.is_prefix_of(h) {
        Some(h.subrange("Bearer "@.len() as int, h.len() as int))
    } else if "bearer "@.is_prefix_of(h) {
        Some(h.subrange("bearer "@.len() as int, h.len() as int))
    } else {
        None
    }
}

/// The message for a value that is not a bearer token.
pub open spec fn bad_scheme_message() -> Seq<char> {
    "Invalid Authorization header format. Expected: Bearer <token>"@
}

/// The token value of a raw `Authorization` header value (without `Bearer `).
pub fn bearer_token_from_value(header: &str) -> (r: Result<&str, AppError>)
    ensures
        match bearer_token_spec(header@) {
            Some(t) => r matches Ok(s) && s@ == t,
            None => r matches Err(AppError::Unauthorized(m)) && m@ == bad_scheme_message(),
        },
{
    proof {
        reveal_strlit("Bearer ");
        reveal_strlit("bearer ");
    }
    if starts_with(header, "Bearer ") || starts_with(header, "bearer ") {
        let n = header.unicode_len();
        Ok(header.substring_char(7, n))
    } else {
        Err(
            AppError::Unauthorized(
                owned("Invalid Authorization header format. Expected: Bearer <token>"),
            ),
        )
    }
}

/// The bearer token of a request, given its `Authorization` header value
/// (`None` when the header is missing or not visible ASCII).
pub fn bearer_token_from_headers(authorization: Option<&str>) -> (r: Result<String, AppError>)
    ensures
        match authorization {
            None => r matches Err(AppError::Unauthorized(m)) && m@
                == "Missing Authorization header"@,
            Some(h) => match bearer_token_spec(h@) {
                Some(t) => r matches Ok(s) && s@ == t,
                None => r matches Err(AppError::Unauthorized(m)) && m@ == bad_scheme_message(),
            },
        },
{
    match authorization {
        None => Err(AppError::Unauthorized(owned("Missing Authorization header"))),
        Some(h) => match bearer_token_from_value(h) {
            Ok(t) => Ok(owned(t)),
            Err(e) => Err(e),
        },
    }
}

/// The `Authorization` value that presents `token` as a bearer token.
pub fn bearer_header_value(token: &str) -> (r: String)
    ensures
        r@ == "Bearer "@ + token@,
{
    concat2("Bearer ", token)
}

/// Reading back a bearer header that `bearer_header_value` wrote gives the
/// token that was written, for every token.
pub proof fn bearer_header_round_trip(token: Seq<char>)
    ensures
        bearer_token_spec("Bearer "@ + token) == Some(token),
{
    reveal_strlit("Bearer ");
    let h = "Bearer "@ + token;
    assert("Bearer "@.is_prefix_of(h)) by {
        assert(h.subrange(0, 7) =~= "Bearer "@);
    }
    assert(h.subrange(7, h.len() as int) =~= token);
}

} // verus!
