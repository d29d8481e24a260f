//! Vector database endpoint decisions: the owner id that scopes every
//! stored document and every search.

use vstd::prelude::*;

use crate::json::{json_string, json_string_of};
use crate::models::error::AppError;
use crate::models::vectordb::Document;
use crate::services::vectordb::qdrant::DocumentData;
use crate::string_map::StringMap;
use crate::text::{owned, owned_opt};

verus! {

/// The metadata key that records which user a document or search belongs to.
pub open spec fn user_id_key() -> Seq<char> {
    "user_id"@
}

/// Every document's metadata with `user_id` set to the authenticated user
/// (as a JSON string), whatever the client sent under that key.
pub fn user_scoped_metadata(documents: &Vec<Document>, user_id: &str) -> (r: Vec<StringMap>)
    requires
        forall|i: int| 0 <= i < documents@.len() ==> (#[trigger] documents@[i]).metadata.wf(),
    ensures
        r@.len() == documents@.len(),
        forall|i: int|
            0 <= i < r@.len() ==> (#[trigger] r@[i]).wf() && r@[i]@ == documents@[i].metadata@.insert(
                user_id_key(),
                json_string_of(user_id@),
            ),
        forall|i: int|
            0 <= i < r@.len() ==> (#[trigger] r@[i])@[user_id_key()] == json_string_of(user_id@),
{
    let mut out: Vec<StringMap> = Vec::new();
    let n = documents.len();
    for i in 0..n
        invariant
            n == documents@.len(),
            forall|j: int| 0 <= j < documents@.len() ==> (#[trigger] documents@[j]).metadata.wf(),
            out@.len() == i,
            forall|j: int|
                0 <= j < i ==> (#[trigger] out@[j]).wf() && out@[j]@ == documents@[j].metadata@.insert(
                    user_id_key(),
                    json_string_of(user_id@),
                ),
    {
        let mut metadata = documents[i].metadata.duplicate();
        metadata.insert(owned("user_id"), json_string(user_id));
        out.push(metadata);
    }
    out
}

/// The client's search filter (or an empty one) with `user_id` set to the
/// authenticated user (as a JSON string), overriding any client value.
pub fn user_scoped_filter(filter_metadata: Option<&StringMap>, user_id: &str) -> (r: StringMap)
    requires
        filter_metadata matches Some(f) ==> f.wf(),
    ensures
        r.wf(),
        r@ == match filter_metadata {
            Some(f) => f@,
            None => Map::<Seq<char>, Seq<char>>::empty(),
        }.insert(user_id_key(), json_string_of(user_id@)),
        r@[user_id_key()] == json_string_of(user_id@),
{
    let mut scoped = match filter_metadata {
        Some(f) => f.duplicate(),
        None => StringMap::new(),
    };
    scoped.insert(owned("user_id"), json_string(user_id));
    scoped
}

/// The text and title of each document, for storage.
pub fn documents_for_storage(documents: &Vec<Document>) -> (r: Vec<DocumentData>)
    ensures
        r@.len() == documents@.len(),
        forall|i: int|
            0 <= i < r@.len() ==> (#[trigger] r@[i]).text@ == documents@[i].text@ && match (
                r@[i].title,
                documents@[i].title,
            ) {
                (Some(a), Some(b)) => a@ == b@,
                (None, None) => true,
                _ => false,
            },
{
    let mut out: Vec<DocumentData> = Vec::new();
    let n = documents.len();
    for i in 0..n
        invariant
            n == documents@.len(),
            out@.len() == i,
            forall|j: int|
                0 <= j < i ==> (#[trigger] out@[j]).text@ == documents@[j].text@ && match (
                    out@[j].title,
                    documents@[j].title,
                ) {
                    (Some(a), Some(b)) => a@ == b@,
                    (None, None) => true,
                    _ => false,
                },
    {
        let d = &documents[i];
        out.push(DocumentData { text: owned(d.text.as_str()), title: owned_opt(&d.title) });
    }
    out
}

/// The answer to a deletion: `204 No Content` when the store reports
/// success, otherwise a bad-request error.
pub fn delete_outcome(success: bool) -> (r: Result<u16, AppError>)
    ensures
        success ==> r == Ok::<u16, AppError>(204),
        !success ==> (r matches Err(AppError::BadRequest(m)) && m@
            == "Failed to delete one or more documents"@),
{
    if success {
        Ok(204)
    } else {
        Err(AppError::BadRequest(owned("Failed to delete one or more documents")))
    }
}

} // verus!
