//! Shared defaults for model fields.

use vstd::prelude::*;

use crate::text::owned;

verus! {

/// Default OpenAI embedding model.
pub fn default_embedding_model() -> (r: String)
    ensures
        r@ == "text-embedding-3-small"@,
{
    owned("text-embedding-3-small")
}

} // verus!
