//! Shared helpers of the API layer: bearer-token extraction and byte-bounded
//! log previews.

use vstd::prelude::*;
use vstd::string::*;
use vstd::utf8::{decode_utf8, encode_utf8_decode_utf8, is_char_boundary};

use crate::http_auth::{bad_scheme_message, bearer_token_spec};
use crate::models::error::AppError;
use crate::text::{concat2, owned, starts_with};

verus! {

/// The bearer token of a request given its `Authorization` header value,
/// accepting both `Bearer ` and `bearer ` prefixes.
pub fn extract_bearer_token(authorization: Option<&str>) -> (r: Result<String, AppError>)
    ensures
        match authorization {
            None => r matches Err(AppError::Unauthorized(m)) && m@
                == "Missing Authorization header"@,
            Some(h) => match bearer_token_spec(h@) {
                Some(t) => r matches Ok(s) && s@ == t,
                None => r matches Err(AppError::Unauthorized(m)) && m@ == bad_scheme_message(),
            },
        },
{
    let value = match authorization {
        Some(v) => v,
        None => {
            return Err(AppError::Unauthorized(owned("Missing Authorization header")));
        },
    };
    proof {
        reveal_strlit("Bearer ");
        reveal_strlit("bearer ");
    }
    if starts_with(value, "Bearer ") || starts_with(value, "bearer ") {
        let n = value.unicode_len();
        Ok(owned(value.substring_char(7, n)))
    } else {
        Err(
            AppError::Unauthorized(
                owned("Invalid Authorization header format. Expected: Bearer <token>"),
            ),
        )
    }
}

/// A log preview bounded in bytes: `s` itself when it has at most `max_len`
/// bytes, otherwise its first `max_len` bytes followed by `...`.
pub open spec fn byte_preview(s: &str, max_len: usize) -> Seq<char> {
    if s.spec_bytes().len() <= max_len {
        s@
    } else {
        decode_utf8(s.spec_bytes().subrange(0, max_len as int)) + "..."@
    }
}

/// Truncates a string for safe logging, appending `...` when shortened.
/// The cut is made at byte `max_len`, which must then fall on a character
/// boundary.
pub fn truncate_for_log(s: &str, max_len: usize) -> (r: String)
    requires
        s.spec_bytes().len() > max_len ==> is_char_boundary(s.spec_bytes(), max_len as int),
    ensures
        r@ == byte_preview(s, max_len),
{
    if s.as_bytes().len() <= max_len {
        owned(s)
    } else {
        let (head, _) = s.split_at(max_len);
        proof {
            encode_utf8_decode_utf8(head@);
        }
        concat2(head, "...")
    }
}

} // verus!
