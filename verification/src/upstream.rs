//! What came back from a call to an upstream HTTP service, as the decision
//! functions of the service modules read it.

use vstd::prelude::*;

use crate::http_status::{is_success_spec, valid_status};

verus! {

/// The result of one request to an upstream service.
pub enum UpstreamReply<T> {
    /// The request could not be sent or no response arrived; the error's description.
    SendFailed(String),
    /// A response with a status outside 2xx, and its body text where the
    /// caller read it (`Err` with the description when reading failed).
    Rejected(u16, Option<Result<String, String>>),
    /// A 2xx response whose body could not be decoded; the error's description.
    Unparsable(String),
    /// A 2xx response and its decoded body.
    Parsed(T),
}

impl<T> UpstreamReply<T> {
    /// A rejection carries a valid status outside 2xx.
    pub open spec fn wf(&self) -> bool {
        *self matches UpstreamReply::Rejected(s, _) ==> valid_status(s) && !is_success_spec(s)
    }
}

/// The body of a rejected response, or the empty text where it was not read
/// or could not be read (`text().await.unwrap_or_default()`).
pub open spec fn body_or_empty(body: Option<Result<String, String>>) -> Seq<char> {
    match body {
        Some(Ok(b)) => b@,
        _ => Seq::<char>::empty(),
    }
}

/// The body of a rejected response, or the empty text.
pub fn body_text_or_empty(body: &Option<Result<String, String>>) -> (r: String)
    ensures
        r@ == body_or_empty(*body),
{
    match body {
        Some(Ok(b)) => crate::text::owned(b.as_str()),
        _ => String::new(),
    }
}

} // verus!
