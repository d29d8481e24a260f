//! Character-bounded previews of request text for logs.

use vstd::prelude::*;

use crate::text::{chars_of, concat2, owned, string_of_chars};

verus! {

/// Default max characters to include for short request previews in logs.
pub const LOG_PREVIEW_CHARS: usize = 50;

/// A preview of at most `max_chars` characters of `s`, with `...` appended
/// when characters were left out.
pub open spec fn char_preview(s: Seq<char>, max_chars: nat) -> Seq<char> {
    if s.len() <= max_chars {
        s
    } else {
        s.subrange(0, max_chars as int) + "..."@
    }
}

/// Truncates a string for a log preview, counting characters (never splits
/// one).
pub fn truncate_for_log(s: &str, max_chars: usize) -> (r: String)
    ensures
        r@ == char_preview(s@, max_chars as nat),
{
    let cs = chars_of(s);
    if cs.len() <= max_chars {
        owned(s)
    } else {
        let preview = string_of_chars(&cs, 0, max_chars);
        concat2(preview.as_str(), "...")
    }
}

} // verus!
