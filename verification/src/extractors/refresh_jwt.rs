//! Claims carried by refresh tokens, and the token identifier read from them.
use crate::common::errors::LocoError;
use crate::common::ids::{hyphenated_value, is_lowercase_hyphenated, parse_uuid, uuid_parse, uuid_text};
use vstd::prelude::*;
use vstd::string::*;

verus! {

/// A claim value, as far as the service reads it.
pub enum ClaimValue {
    /// A text.
    Str(String),
    /// A number that is a 64-bit signed integer.
    Int(i64),
    /// Any other value.
    Other,
}

/// The claims of a token: the user's public identifier, the expiry time and
/// the further claims.
pub struct Claims {
    pub pid: String,
    pub exp: u64,
    pub claims: Vec<(String, ClaimValue)>,
}

/// The value of a claim; a later entry for a key hides an earlier one.
pub open spec fn claim_of(entries: Seq<(String, ClaimValue)>, key: Seq<char>) -> Option<ClaimValue>
    decreases entries.len(),
{
    if entries.len() == 0 {
        None
    } else if entries.last().0@ == key {
        Some(entries.last().1)
    } else {
        claim_of(entries.drop_last(), key)
    }
}

impl Claims {
    /// The value of a claim.
    pub fn get(&self, key: &str) -> (r: Option<&ClaimValue>)
        ensures
            match r {
                Some(v) => claim_of(self.claims@, key@) == Some(*v),
                None => claim_of(self.claims@, key@) is None,
            },
    {
        let k = key.to_owned();
        let ghost es = self.claims@;
        let mut i = self.claims.len();
        assert(es.take(i as int) =~= es);
        while i > 0
            invariant
                i <= self.claims.len(),
                es == self.claims@,
                k@ == key@,
                claim_of(es, key@) == claim_of(es.take(i as int), key@),
            decreases i,
        {
            i = i - 1;
            assert(es.take((i + 1) as int).drop_last() =~= es.take(i as int));
            if self.claims[i].0 == k {
                return Some(&self.claims[i].1);
            }
        }
        None
    }
}

/// What reading the jti claim gives: its text must be present, be a text and
/// read as a UUID.
pub open spec fn jti_result_is(claims: Seq<(String, ClaimValue)>, r: Result<u128, LocoError>) -> bool {
    match claim_of(claims, "jti"@) {
        Some(ClaimValue::Str(text)) => match uuid_parse(text@) {
            Ok(v) => r == Ok::<u128, LocoError>(v),
            Err(m) => r matches Err(LocoError::BadRequest(msg)) && msg@ == "Not valid jti: "@ + m,
        },
        _ => r matches Err(LocoError::BadRequest(msg)) && msg@ == "Invalid refresh token"@,
    }
}

/// The token identifier, from the result of reading the jti text as a UUID:
/// a text that does not read refuses the token as a bad request.
pub fn jti_from_parsed(parsed: Result<u128, String>) -> (r: Result<u128, LocoError>)
    ensures
        match parsed {
            Ok(v) => r == Ok::<u128, LocoError>(v),
            Err(m) => r matches Err(LocoError::BadRequest(msg)) && msg@ == "Not valid jti: "@ + m@,
        },
{
    match parsed {
        Ok(v) => Ok(v),
        Err(m) => Err(LocoError::BadRequest("Not valid jti: ".to_owned().concat(m.as_str()))),
    }
}

/// The claims of a refresh token.
pub struct RefreshJWT {
    pub claims: Claims,
}

impl RefreshJWT {
    /// The identifier of the refresh token, from its jti claim; a token
    /// issued with the claims of `refresh_token_claims` gives back the
    /// identifier it was issued for.
    pub fn extract_jti(&self) -> (r: Result<u128, LocoError>)
        ensures
            jti_result_is(self.claims.claims@, r),
            forall|jti: u128| #[trigger] carries_jti(self.claims.claims@, jti) ==> r == Ok::<u128, LocoError>(jti),
    {
        proof {
            let c = self.claims.claims@;
            if c.len() == 1 {
                assert(c.drop_last().len() == 0);
                assert(c.last() == c[0]);
            }
        }
        match self.claims.get("jti") {
            Some(ClaimValue::Str(text)) => jti_from_parsed(parse_uuid(text.as_str())),
            _ => Err(LocoError::BadRequest("Invalid refresh token".to_owned())),
        }
    }
}

/// Whether the further claims of a refresh token are exactly one jti claim
/// holding the identifier `jti` in the lowercase hyphenated form.
pub open spec fn carries_jti(claims: Seq<(String, ClaimValue)>, jti: u128) -> bool {
    &&& claims.len() == 1
    &&& claims[0].0@ == "jti"@
    &&& claims[0].1 matches ClaimValue::Str(text) && is_lowercase_hyphenated(text@) && hyphenated_value(
        text@,
    ) == jti
}

/// The further claims of the refresh token issued for a stored token with
/// identifier `jti`: one jti claim holding the identifier's text.
pub fn refresh_token_claims(jti: u128) -> (r: Vec<(String, ClaimValue)>)
    ensures
        carries_jti(r@, jti),
{
    let mut claims = Vec::new();
    claims.push(("jti".to_owned(), ClaimValue::Str(uuid_text(jti))));
    claims
}

/// The value of a claim is that of the last entry with the key; a key with
/// no entry has no value.
pub proof fn lemma_claim_is_last_entry(entries: Seq<(String, ClaimValue)>, key: Seq<char>)
    ensures
        claim_of(entries, key) is None <==> forall|i: int| 0 <= i < entries.len() ==> (#[trigger] entries[i]).0@ != key,
        claim_of(entries, key) is Some ==> exists|i: int|
            0 <= i < entries.len() && (#[trigger] entries[i]).0@ == key && claim_of(entries, key)
                == Some(entries[i].1) && forall|j: int| i < j < entries.len() ==> (#[trigger] entries[j]).0@ != key,
    decreases entries.len(),
{
    if entries.len() > 0 {
        let rest = entries.drop_last();
        lemma_claim_is_last_entry(rest, key);
        let n = entries.len() - 1;
        if entries.last().0@ == key {
            assert(entries[n].0@ == key);
        } else {
            if claim_of(rest, key) is Some {
                let i = choose|i: int|
                    0 <= i < rest.len() && (#[trigger] rest[i]).0@ == key && claim_of(rest, key)
                        == Some(rest[i].1) && forall|j: int| i < j < rest.len() ==> (#[trigger] rest[j]).0@ != key;
                assert(entries[i] == rest[i]);
                assert forall|j: int| i < j < entries.len() implies (#[trigger] entries[j]).0@ != key by {
                    if j < n {
                        assert(entries[j] == rest[j]);
                    }
                }
            } else {
                assert forall|i: int| 0 <= i < entries.len() implies (#[trigger] entries[i]).0@ != key by {
                    if i < n {
                        assert(entries[i] == rest[i]);
                    }
                }
            }
        }
        if exists|i: int| 0 <= i < entries.len() && (#[trigger] entries[i]).0@ == key {
            let i = choose|i: int| 0 <= i < entries.len() && (#[trigger] entries[i]).0@ == key;
            if i < n {
                assert(entries[i] == rest[i]);
            }
        }
    }
}

} // verus!
