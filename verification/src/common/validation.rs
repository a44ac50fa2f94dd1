//! Failed checks of single fields.
use vstd::prelude::*;

verus! {

/// A failed check of one field.
pub struct FieldError {
    pub field: String,
    pub code: String,
    pub message: String,
}

pub open spec fn field_error_is(e: FieldError, field: Seq<char>, message: Seq<char>) -> bool {
    e.field@ == field && e.code@ == "length"@ && e.message@ == message
}

pub(crate) fn length_error(field: &str, message: &str) -> (e: FieldError)
    ensures
        field_error_is(e, field@, message@),
{
    FieldError { field: field.to_owned(), code: "length".to_owned(), message: message.to_owned() }
}

} // verus!
