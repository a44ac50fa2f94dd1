//! Users: the limits on their fields and what saving one does.
use crate::common::ids::{is_v4_uuid, new_uuid};
use crate::common::validation::{field_error_is, length_error, FieldError};
use vstd::prelude::*;
use vstd::string::*;

verus! {

/// The fewest characters that a user's name and login may have.
pub const USER_FIELD_MIN_CHARS: usize = 2;

/// The field errors of a user with a name and a login: one for the name when
/// it has fewer than two characters, then one for the login when it has fewer
/// than two. Both carry the message of the name check.
pub open spec fn user_errors_are(r: Seq<FieldError>, name: Seq<char>, login: Seq<char>) -> bool {
    &&& r.len() == (if name.len() < USER_FIELD_MIN_CHARS {
        1int
    } else {
        0
    }) + (if login.len() < USER_FIELD_MIN_CHARS {
        1int
    } else {
        0
    })
    &&& name.len() < USER_FIELD_MIN_CHARS ==> field_error_is(
        r[0],
        "name"@,
        "Name must be at least 2 characters long."@,
    )
    &&& login.len() < USER_FIELD_MIN_CHARS ==> field_error_is(
        r[r.len() - 1],
        "login"@,
        "Name must be at least 2 characters long."@,
    )
}

/// Length checks of a user's name and login.
pub struct Validator {
    pub name: String,
    pub login: String,
}

impl Validator {
    /// The field errors of the user: one for the name when it has fewer than
    /// two characters, then one for the login when it has fewer than two.
    pub fn validate(&self) -> (r: Vec<FieldError>)
        ensures
            user_errors_are(r@, self.name@, self.login@),
    {
        let mut errors = Vec::new();
        if self.name.as_str().unicode_len() < USER_FIELD_MIN_CHARS {
            errors.push(length_error("name", "Name must be at least 2 characters long."));
        }
        if self.login.as_str().unicode_len() < USER_FIELD_MIN_CHARS {
            errors.push(length_error("login", "Name must be at least 2 characters long."));
        }
        errors
    }
}

/// Whether a user's name and login are long enough to be stored.
pub open spec fn user_fields_valid(name: Seq<char>, login: Seq<char>) -> bool {
    name.len() >= USER_FIELD_MIN_CHARS && login.len() >= USER_FIELD_MIN_CHARS
}

/// What saving a user does, given a fresh public identifier: a user whose
/// name or login is too short is refused with the field errors; a new user
/// gets the fresh identifier (`Some`), an updated one keeps its own (`None`).
pub fn user_save_action(name: &str, login: &str, insert: bool, fresh_pid: u128) -> (r: Result<
    Option<u128>,
    Vec<FieldError>,
>)
    ensures
        match r {
            Ok(pid) => user_fields_valid(name@, login@) && pid == (if insert {
                Some(fresh_pid)
            } else {
                None
            }),
            Err(errors) => !user_fields_valid(name@, login@) && user_errors_are(
                errors@,
                name@,
                login@,
            ),
        },
{
    let validator = Validator { name: name.to_owned(), login: login.to_owned() };
    let errors = validator.validate();
    if errors.len() > 0 {
        return Err(errors);
    }
    if insert {
        Ok(Some(fresh_pid))
    } else {
        Ok(None)
    }
}

/// What saving a user does; a new user gets a random (version 4) public
/// identifier.
pub fn user_before_save(name: &str, login: &str, insert: bool) -> (r: Result<
    Option<u128>,
    Vec<FieldError>,
>)
    ensures
        match r {
            Ok(pid) => user_fields_valid(name@, login@) && (pid is Some <==> insert) && (pid matches Some(
                p,
            ) ==> is_v4_uuid(p)),
            Err(errors) => !user_fields_valid(name@, login@) && user_errors_are(
                errors@,
                name@,
                login@,
            ),
        },
{
    let fresh = if insert {
        new_uuid()
    } else {
        0
    };
    user_save_action(name, login, insert, fresh)
}

/// A user's name and login are refused below two characters, and each
/// short field gets its own error, the name's first.
pub proof fn lemma_user_field_limit(name: Seq<char>, login: Seq<char>, errors: Seq<FieldError>)
    requires
        user_errors_are(errors, name, login),
    ensures
        USER_FIELD_MIN_CHARS == 2,
        user_fields_valid(name, login) <==> (name.len() >= 2 && login.len() >= 2),
        errors.len() == 0 <==> user_fields_valid(name, login),
        name.len() < 2 ==> errors[0].field@ == "name"@,
        login.len() < 2 ==> errors[errors.len() - 1].field@ == "login"@,
{
}

} // verus!
