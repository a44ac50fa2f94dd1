//! Payloads of events: the limit on their values.
use crate::common::validation::{field_error_is, length_error, FieldError};
use vstd::prelude::*;
use vstd::string::*;

verus! {

/// The most characters that a payload value may have.
pub const PAYLOAD_VALUE_MAX_CHARS: usize = 50;

/// Length check of a payload value.
pub struct Validator {
    pub value: String,
}

impl Validator {
    /// The field errors of the value: one when it has more than fifty characters.
    pub fn validate(&self) -> (r: Vec<FieldError>)
        ensures
            self.value@.len() <= PAYLOAD_VALUE_MAX_CHARS ==> r@.len() == 0,
            self.value@.len() > PAYLOAD_VALUE_MAX_CHARS ==> r@.len() == 1 && field_error_is(
                r@[0],
                "value"@,
                "Value cannot exceed 50 characters"@,
            ),
    {
        let mut errors = Vec::new();
        if self.value.as_str().unicode_len() > PAYLOAD_VALUE_MAX_CHARS {
            errors.push(length_error("value", "Value cannot exceed 50 characters"));
        }
        errors
    }
}

/// A payload value may have at most fifty characters.
pub proof fn lemma_payload_value_limit()
    ensures
        PAYLOAD_VALUE_MAX_CHARS == 50,
{
}

} // verus!
