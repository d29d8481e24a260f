//! Field-level validation results for request bodies: which field broke
//! which rule, with the rule's code and message.

use vstd::prelude::*;

use crate::text::owned;

verus! {

/// One broken rule: a machine-readable code and an optional human message.
#[derive(Debug, Clone)]
pub struct ValidationError {
    pub code: String,
    pub message: Option<String>,
}

/// Where a broken rule sits: a field of the request, or a field of one item
/// of a list field (`documents[2].text`).
#[derive(Debug, Clone, Copy)]
pub enum FieldPath {
    Field(&'static str),
    Item(&'static str, usize, &'static str),
}

/// A broken rule at a field.
#[derive(Debug, Clone)]
pub struct FieldError {
    pub path: FieldPath,
    pub error: ValidationError,
}

/// Every broken rule of a request, in the order the fields are declared.
#[derive(Debug, Clone)]
pub struct ValidationErrors {
    pub errors: Vec<FieldError>,
}

/// What a broken rule says: field, list position and inner field where the
/// rule is on a list item, code and message.
pub struct FieldErrorView {
    pub field: Seq<char>,
    pub item: Option<(int, Seq<char>)>,
    pub code: Seq<char>,
    pub message: Option<Seq<char>>,
}

impl View for FieldError {
    type V = FieldErrorView;

    open spec fn view(&self) -> FieldErrorView {
        FieldErrorView {
            field: match self.path {
                FieldPath::Field(f) => f@,
                FieldPath::Item(f, _, _) => f@,
            },
            item: match self.path {
                FieldPath::Field(_) => None,
                FieldPath::Item(_, i, g) => Some((i as int, g@)),
            },
            code: self.error.code@,
            message: match self.error.message {
                Some(m) => Some(m@),
                None => None,
            },
        }
    }
}

impl View for ValidationErrors {
    type V = Seq<FieldErrorView>;

    open spec fn view(&self) -> Seq<FieldErrorView> {
        self.errors@.map_values(|e: FieldError| e@)
    }
}

/// The view of a rule broken at a top-level field.
pub open spec fn field_error(field: Seq<char>, code: Seq<char>, message: Seq<char>) -> FieldErrorView {
    FieldErrorView { field, item: None, code, message: Some(message) }
}

/// The view of a rule broken at field `inner` of item `index` of the list field `field`.
pub open spec fn item_error(
    field: Seq<char>,
    index: int,
    inner: Seq<char>,
    code: Seq<char>,
    message: Seq<char>,
) -> FieldErrorView {
    FieldErrorView { field, item: Some((index, inner)), code, message: Some(message) }
}

/// `s` followed by `e` when `broken` holds, else `s`.
pub open spec fn push_if(s: Seq<FieldErrorView>, broken: bool, e: FieldErrorView) -> Seq<
    FieldErrorView,
> {
    if broken {
        s.push(e)
    } else {
        s
    }
}

impl ValidationErrors {
    /// No broken rule yet.
    pub fn new() -> (r: ValidationErrors)
        ensures
            r@ == Seq::<FieldErrorView>::empty(),
    {
        let r = ValidationErrors { errors: Vec::new() };
        assert(r@ =~= Seq::<FieldErrorView>::empty());
        r
    }

    /// Records that `field` broke the rule `code`, explained by `message`.
    pub fn add(&mut self, field: &'static str, code: &str, message: &str)
        ensures
            final(self)@ == old(self)@.push(field_error(field@, code@, message@)),
    {
        let ghost before = self@;
        let e = FieldError {
            path: FieldPath::Field(field),
            error: ValidationError { code: owned(code), message: Some(owned(message)) },
        };
        self.errors.push(e);
        assert(self@ =~= before.push(field_error(field@, code@, message@)));
    }

    /// Records that field `inner` of item `index` of the list `field` broke
    /// the rule `code`, explained by `message`.
    pub fn add_item(
        &mut self,
        field: &'static str,
        index: usize,
        inner: &'static str,
        code: &str,
        message: &str,
    )
        ensures
            final(self)@ == old(self)@.push(
                item_error(field@, index as int, inner@, code@, message@),
            ),
    {
        let ghost before = self@;
        let e = FieldError {
            path: FieldPath::Item(field, index, inner),
            error: ValidationError { code: owned(code), message: Some(owned(message)) },
        };
        self.errors.push(e);
        assert(self@ =~= before.push(item_error(field@, index as int, inner@, code@, message@)));
    }

    /// Records a broken rule whose code and message are already built.
    pub fn add_error(&mut self, field: &'static str, error: ValidationError)
        ensures
            final(self)@ == old(self)@.push(
                FieldErrorView {
                    field: field@,
                    item: None,
                    code: error.code@,
                    message: match error.message {
                        Some(m) => Some(m@),
                        None => None,
                    },
                },
            ),
    {
        let ghost before = self@;
        let ghost ev = error;
        self.errors.push(FieldError { path: FieldPath::Field(field), error });
        assert(self@ =~= before.push(FieldError { path: FieldPath::Field(field), error: ev }@));
    }

    /// Whether no rule was broken.
    pub fn is_empty(&self) -> (r: bool)
        ensures
            r == (self@.len() == 0),
    {
        self.errors.len() == 0
    }

    /// `Ok(())` when no rule was broken, otherwise these errors.
    pub fn into_result(self) -> (r: Result<(), ValidationErrors>)
        ensures
            r is Ok <==> self@.len() == 0,
            r matches Err(e) ==> e@ == self@,
    {
        if self.is_empty() {
            Ok(())
        } else {
            Err(self)
        }
    }
}

} // verus!
