//! Checks made before an event and its payloads are stored.
use crate::common::errors::ApiError;
use crate::common::text::{json_string, json_string_text};
use crate::models::allowed_payloads::is_allowed;
use crate::models::payload_types::{self, value_fits};
use crate::models::payloads::{self, PAYLOAD_VALUE_MAX_CHARS};
use vstd::prelude::*;
use vstd::string::*;

verus! {

broadcast use vstd::seq_lib::group_seq_properties;

/// The start of the field errors, as JSON text, of a payload value that is
/// too long; the value follows as a JSON string.
pub const VALUE_TOO_LONG_PREFIX: &'static str = "{\"value\":[{\"code\":\"length\",\"message\":\"Value cannot exceed 50 characters\",\"params\":{\"max\":50,\"value\":";

/// The end of the field errors of a payload value that is too long.
pub const VALUE_TOO_LONG_SUFFIX: &'static str = "}}]}";

/// The field errors, as JSON text, of a payload value that is too long: one
/// length error of the field `value`, whose parameters are the limit and the
/// offending value.
pub open spec fn value_too_long_errors(value: Seq<char>) -> Seq<char> {
    VALUE_TOO_LONG_PREFIX@ + json_string(value) + VALUE_TOO_LONG_SUFFIX@
}

/// The field errors, as JSON text, of a payload value that is too long.
pub fn value_too_long_text(value: &str) -> (r: String)
    ensures
        r@ == value_too_long_errors(value@),
{
    let quoted = json_string_text(value);
    VALUE_TOO_LONG_PREFIX.to_owned().concat(quoted.as_str()).concat(VALUE_TOO_LONG_SUFFIX)
}

/// The error with which an event whose payload types are not the allowed
/// ones is refused, if they are not.
pub fn check_allowed(allowed: &[i64], requested: &[i64]) -> (r: Result<(), ApiError>)
    ensures
        r is Ok <==> allowed@.to_set() == requested@.to_set(),
        r matches Err(e) ==> (e matches ApiError::BadRequest(m) && m@
            == "This payload types not allowed for that event"@),
{
    if is_allowed(allowed, requested) {
        Ok(())
    } else {
        Err(ApiError::BadRequest("This payload types not allowed for that event".to_owned()))
    }
}

/// The value type of the payload type with an identifier; a later entry for
/// an identifier hides an earlier one.
pub open spec fn spec_type_of(types: Seq<payload_types::Model>, id: i64) -> Option<i64>
    decreases types.len(),
{
    if types.len() == 0 {
        None
    } else if types.last().id == id {
        Some(types.last().value_type_id)
    } else {
        spec_type_of(types.drop_last(), id)
    }
}

/// Whether one of the payloads has a known type that its value does not suit.
pub open spec fn has_ill_typed_value(payloads: Seq<(i64, String)>, types: Seq<payload_types::Model>) -> bool {
    exists|i: int|
        0 <= i < payloads.len() && #[trigger] spec_type_of(types, payloads[i].0) is Some
            && !value_fits(spec_type_of(types, payloads[i].0)->0, payloads[i].1@)
}

/// Whether payload `k` is the first whose value is longer than fifty
/// characters.
pub open spec fn is_first_overlong(payloads: Seq<(i64, String)>, k: int) -> bool {
    &&& 0 <= k < payloads.len()
    &&& payloads[k].1@.len() > PAYLOAD_VALUE_MAX_CHARS
    &&& forall|j: int| 0 <= j < k ==> (#[trigger] payloads[j]).1@.len() <= PAYLOAD_VALUE_MAX_CHARS
}

/// Whether one of the payload values is longer than fifty characters.
pub open spec fn has_overlong_value(payloads: Seq<(i64, String)>) -> bool {
    exists|i: int|
        0 <= i < payloads.len() && (#[trigger] payloads[i]).1@.len() > PAYLOAD_VALUE_MAX_CHARS
}

fn type_of(types: &[payload_types::Model], id: i64) -> (r: Option<i64>)
    ensures
        r == spec_type_of(types@, id),
{
    let ghost ts = types@;
    let mut i = types.len();
    assert(ts.take(i as int) =~= ts);
    while i > 0
        invariant
            i <= types.len(),
            ts == types@,
            spec_type_of(ts, id) == spec_type_of(ts.take(i as int), id),
        decreases i,
    {
        i = i - 1;
        assert(ts.take((i + 1) as int).drop_last() =~= ts.take(i as int));
        if types[i].id == id {
            return Some(types[i].value_type_id);
        }
    }
    None
}

/// Checks the values of an event's payloads against the payload types: a
/// value that does not suit its known type refuses the event as an
/// unprocessable entity; otherwise a value of more than fifty characters
/// refuses it with the field errors of the first such value. A payload whose type is
/// not among `types` is not checked against a type.
pub fn check_payload_values(payloads: &[(i64, String)], types: &[payload_types::Model]) -> (r: Result<
    (),
    ApiError,
>)
    ensures
        has_ill_typed_value(payloads@, types@) ==> (r matches Err(
            ApiError::UnprocessableEntity(m),
        ) && m@ == "Invalid payload value type"@),
        !has_ill_typed_value(payloads@, types@) && has_overlong_value(payloads@) ==> (r matches Err(
            ApiError::Validation(m),
        ) && exists|k: int|
            is_first_overlong(payloads@, k) && m@ == value_too_long_errors(#[trigger] payloads@[k].1@)),
        !has_ill_typed_value(payloads@, types@) && !has_overlong_value(payloads@) ==> r is Ok,
{
    let mut i: usize = 0;
    while i < payloads.len()
        invariant
            i <= payloads.len(),
            forall|k: int|
                0 <= k < i ==> !(#[trigger] spec_type_of(types@, payloads@[k].0) is Some
                    && !value_fits(spec_type_of(types@, payloads@[k].0)->0, payloads@[k].1@)),
        decreases payloads.len() - i,
    {
        let id = payloads[i].0;
        match type_of(types, id) {
            Some(value_type_id) => {
                let model = payload_types::Model {
                    id,
                    code_name: String::new(),
                    description: None,
                    value_type_id,
                };
                if !model.validate(payloads[i].1.as_str()) {
                    assert(has_ill_typed_value(payloads@, types@)) by {
                        assert(spec_type_of(types@, payloads@[i as int].0) is Some);
                    }
                    return Err(ApiError::UnprocessableEntity("Invalid payload value type".to_owned()));
                }
            },
            None => {},
        }
        i = i + 1;
    }
    let mut j: usize = 0;
    while j < payloads.len()
        invariant
            j <= payloads.len(),
            !has_ill_typed_value(payloads@, types@),
            forall|k: int| 0 <= k < j ==> (#[trigger] payloads@[k]).1@.len() <= PAYLOAD_VALUE_MAX_CHARS,
        decreases payloads.len() - j,
    {
        let validator = payloads::Validator { value: payloads[j].1.clone() };
        let errors = validator.validate();
        if errors.len() > 0 {
            assert(has_overlong_value(payloads@)) by {
                assert(payloads@[j as int].1@.len() > PAYLOAD_VALUE_MAX_CHARS);
            }
            let text = value_too_long_text(payloads[j].1.as_str());
            assert(is_first_overlong(payloads@, j as int));
            return Err(ApiError::Validation(text));
        }
        j = j + 1;
    }
    Ok(())
}

/// The value type that the payload types give to an identifier is that of
/// the last entry with the identifier; an identifier with no entry has none.
pub proof fn lemma_type_of_is_last_entry(types: Seq<payload_types::Model>, id: i64)
    ensures
        spec_type_of(types, id) is None <==> forall|i: int| 0 <= i < types.len() ==> (#[trigger] types[i]).id != id,
        spec_type_of(types, id) is Some ==> exists|i: int|
            0 <= i < types.len() && (#[trigger] types[i]).id == id && spec_type_of(types, id)
                == Some(types[i].value_type_id) && forall|j: int| i < j < types.len() ==> (#[trigger] types[j]).id != id,
    decreases types.len(),
{
    if types.len() > 0 {
        let rest = types.drop_last();
        lemma_type_of_is_last_entry(rest, id);
        let n = types.len() - 1;
        if types.last().id == id {
            assert(types[n].id == id);
        } else {
            assert forall|i: int| 0 <= i < rest.len() implies rest[i] == types[i] by {}
            if spec_type_of(rest, id) is Some {
                let i = choose|i: int|
                    0 <= i < rest.len() && (#[trigger] rest[i]).id == id && spec_type_of(rest, id)
                        == Some(rest[i].value_type_id) && forall|j: int| i < j < rest.len() ==> (#[trigger] rest[j]).id != id;
                assert(types[i] == rest[i]);
                assert forall|j: int| i < j < types.len() implies (#[trigger] types[j]).id != id by {
                    if j < n {
                        assert(types[j] == rest[j]);
                    }
                }
            } else {
                assert forall|i: int| 0 <= i < types.len() implies (#[trigger] types[i]).id != id by {
                    if i < n {
                        assert(types[i] == rest[i]);
                    }
                }
            }
        }
        if exists|i: int| 0 <= i < types.len() && (#[trigger] types[i]).id == id {
            let i = choose|i: int| 0 <= i < types.len() && (#[trigger] types[i]).id == id;
            if i < n {
                assert(types[i] == rest[i]);
            }
        }
    }
}

} // verus!
