//! The user that a GraphQL request is made for.
use crate::extractors::refresh_jwt::{claim_of, ClaimValue, Claims};
use vstd::prelude::*;

verus! {

/// The user identifier of an access token, from its id claim; a missing or
/// non-integer claim is answered with status 500 and "Invalid token".
pub fn user_id_from_claims(claims: &Claims) -> (r: Result<i64, (u16, &'static str)>)
    ensures
        match claim_of(claims.claims@, "id"@) {
            Some(ClaimValue::Int(v)) => r == Ok::<i64, (u16, &'static str)>(v),
            _ => r matches Err((code, msg)) && code == 500 && msg@ == "Invalid token"@,
        },
{
    match claims.get("id") {
        Some(ClaimValue::Int(v)) => Ok(*v),
        _ => Err((500, "Invalid token")),
    }
}

} // verus!
