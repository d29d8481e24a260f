//! LLM endpoint decisions.

use vstd::prelude::*;

use crate::text::{chars_of, concat2, owned, string_of_chars};

verus! {

/// A preview of `s` for logs: `s` when it has at most `max_len`
/// characters, otherwise its first `max_len` characters followed by `...`.
pub open spec fn truncate_spec(s: Seq<char>, max_len: usize) -> Seq<char> {
    if s.len() <= max_len {
        s
    } else {
        s.subrange(0, max_len as int) + "..."@
    }
}

/// Truncates a string for logging, counting characters (never splits one).
pub fn truncate(s: &str, max_len: usize) -> (r: String)
    ensures
        r@ == truncate_spec(s@, max_len),
{
    let cs = chars_of(s);
    if cs.len() <= max_len {
        owned(s)
    } else {
        let head = string_of_chars(&cs, 0, max_len);
        concat2(head.as_str(), "...")
    }
}

} // verus!
