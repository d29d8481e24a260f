//! Vector database models: documents, searches and deletions, with the
//! validation rules the API applies to them. Metadata values are held as
//! their JSON text.

use vstd::prelude::*;

use crate::string_map::StringMap;
use crate::text::{is_blank, is_blank_spec, owned};
use crate::validation::{
    field_error, item_error, push_if, FieldErrorView, ValidationError, ValidationErrors,
};

verus! {

/// Rejects empty or whitespace-only text with the code `trim_non_empty`.
pub fn validate_trim_non_empty(s: &str) -> (r: Result<(), ValidationError>)
    ensures
        r is Ok <==> !is_blank_spec(s@),
        r matches Err(e) ==> e.code@ == "trim_non_empty"@ && e.message is None,
{
    if is_blank(s) {
        return Err(ValidationError { code: owned("trim_non_empty"), message: None });
    }
    Ok(())
}

/// A document to be stored in the vector database.
#[derive(Debug, Clone)]
pub struct Document {
    pub text: String,
    pub title: Option<String>,
    pub metadata: StringMap,
}

/// The message for a document whose text is blank.
pub open spec fn blank_document_message() -> Seq<char> {
    "Document text cannot be empty or whitespace only"@
}

impl Document {
    /// Checks the document: its text must not be blank.
    pub fn validate(&self) -> (r: Result<(), ValidationErrors>)
        ensures
            r is Ok <==> !is_blank_spec(self.text@),
            r matches Err(e) ==> e@ == seq![
                field_error("text"@, "trim_non_empty"@, blank_document_message()),
            ],
    {
        let mut errors = ValidationErrors::new();
        if is_blank(self.text.as_str()) {
            errors.add(
                "text",
                "trim_non_empty",
                "Document text cannot be empty or whitespace only",
            );
        }
        proof {
            if is_blank_spec(self.text@) {
                assert(errors@ =~= seq![
                    field_error("text"@, "trim_non_empty"@, blank_document_message()),
                ]);
            }
        }
        errors.into_result()
    }
}

/// The texts of a list of documents.
pub open spec fn texts_of(docs: Seq<Document>) -> Seq<Seq<char>> {
    docs.map_values(|d: Document| d.text@)
}

/// The errors of the documents whose text is blank, in order.
pub open spec fn document_item_errors(texts: Seq<Seq<char>>) -> Seq<FieldErrorView>
    decreases texts.len(),
{
    if texts.len() == 0 {
        Seq::<FieldErrorView>::empty()
    } else {
        push_if(
            document_item_errors(texts.drop_last()),
            is_blank_spec(texts.last()),
            item_error(
                "documents"@,
                texts.len() - 1,
                "text"@,
                "trim_non_empty"@,
                blank_document_message(),
            ),
        )
    }
}

/// Input for adding documents to the vector database.
#[derive(Debug, Clone)]
pub struct DocumentInput {
    pub documents: Vec<Document>,
    pub embedding_model: String,
}

impl DocumentInput {
    /// The rules broken by an upload: no documents, then each blank document.
    pub open spec fn broken_rules(texts: Seq<Seq<char>>) -> Seq<FieldErrorView> {
        push_if(
            Seq::<FieldErrorView>::empty(),
            texts.len() == 0,
            field_error("documents"@, "length"@, "At least one document is required"@),
        ) + document_item_errors(texts)
    }

    /// Checks the upload: at least one document, and no document with blank text.
    pub fn validate(&self) -> (r: Result<(), ValidationErrors>)
        ensures
            r is Ok <==> Self::broken_rules(texts_of(self.documents@)).len() == 0,
            r matches Err(e) ==> e@ == Self::broken_rules(texts_of(self.documents@)),
    {
        let mut errors = ValidationErrors::new();
        let n = self.documents.len();
        if n == 0 {
            errors.add("documents", "length", "At least one document is required");
        }
        let ghost head = errors@;
        let ghost texts = texts_of(self.documents@);
        assert(errors@ =~= head + document_item_errors(texts.subrange(0, 0)));
        for i in 0..n
            invariant
                n == self.documents@.len(),
                texts == texts_of(self.documents@),
                errors@ == head + document_item_errors(texts.subrange(0, i as int)),
        {
            assert(texts.subrange(0, i + 1).drop_last() =~= texts.subrange(0, i as int));
            assert(texts.subrange(0, i + 1).last() == self.documents@[i as int].text@);
            let ghost before = errors@;
            if is_blank(self.documents[i].text.as_str()) {
                errors.add_item(
                    "documents",
                    i,
                    "text",
                    "trim_non_empty",
                    "Document text cannot be empty or whitespace only",
                );
            }
            assert(errors@ =~= head + document_item_errors(texts.subrange(0, i + 1)));
        }
        assert(texts.subrange(0, n as int) =~= texts);
        errors.into_result()
    }
}

/// Response from adding documents.
#[derive(Debug, Clone)]
pub struct DocumentUploadResponse {
    pub document_ids: Vec<String>,
}

/// The default number of search results.
pub fn default_limit() -> (r: u32)
    ensures
        r == 10,
{
    10
}

/// Query for searching the vector database.
#[derive(Debug, Clone)]
pub struct SearchQuery {
    pub query_text: String,
    pub embedding_model: String,
    pub limit: u32,
    pub filter_metadata: Option<StringMap>,
}

impl SearchQuery {
    /// The rules broken by a search: blank query text, then a limit outside 1 to 100.
    pub open spec fn broken_rules(query_text: Seq<char>, limit: u32) -> Seq<FieldErrorView> {
        push_if(
            push_if(
                Seq::<FieldErrorView>::empty(),
                is_blank_spec(query_text),
                field_error(
                    "query_text"@,
                    "trim_non_empty"@,
                    "Query text cannot be empty or whitespace only"@,
                ),
            ),
            !(1 <= limit <= 100),
            field_error("limit"@, "range"@, "Limit must be between 1 and 100"@),
        )
    }

    /// Checks the search: query text not blank, limit between 1 and 100.
    pub fn validate(&self) -> (r: Result<(), ValidationErrors>)
        ensures
            r is Ok <==> Self::broken_rules(self.query_text@, self.limit).len() == 0,
            r matches Err(e) ==> e@ == Self::broken_rules(self.query_text@, self.limit),
    {
        let mut errors = ValidationErrors::new();
        if is_blank(self.query_text.as_str()) {
            errors.add(
                "query_text",
                "trim_non_empty",
                "Query text cannot be empty or whitespace only",
            );
        }
        if !(1 <= self.limit && self.limit <= 100) {
            errors.add("limit", "range", "Limit must be between 1 and 100");
        }
        errors.into_result()
    }
}

/// Document content from search results.
#[derive(Debug, Clone)]
pub struct DocumentContent {
    pub text: String,
    pub title: Option<String>,
}

/// Request to delete documents.
#[derive(Debug, Clone)]
pub struct DeleteDocumentsRequest {
    pub document_ids: Vec<String>,
}

impl DeleteDocumentsRequest {
    /// Checks the request: at least one document ID.
    pub fn validate(&self) -> (r: Result<(), ValidationErrors>)
        ensures
            r is Ok <==> self.document_ids@.len() > 0,
            r matches Err(e) ==> e@ == seq![
                field_error("document_ids"@, "length"@, "At least one document ID is required"@),
            ],
    {
        let mut errors = ValidationErrors::new();
        if self.document_ids.len() == 0 {
            errors.add("document_ids", "length", "At least one document ID is required");
            assert(errors@ =~= seq![
                field_error("document_ids"@, "length"@, "At least one document ID is required"@),
            ]);
        }
        errors.into_result()
    }
}

} // verus!
