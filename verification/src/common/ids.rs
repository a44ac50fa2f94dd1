//! Universally unique identifiers, held as their 128-bit values.
use vstd::prelude::*;

verus! {

/// What `uuid::Uuid::parse_str` gives for a text: the identifier's 128-bit
/// value (most significant byte first), or the text of its error.
pub uninterp spec fn uuid_parse(text: Seq<char>) -> Result<u128, Seq<char>>;

/// Whether a character is a hexadecimal digit.
pub open spec fn is_hex_digit(c: char) -> bool {
    ('0' <= c && c <= '9') || ('a' <= c && c <= 'f') || ('A' <= c && c <= 'F')
}

/// The value of a hexadecimal digit.
pub open spec fn hex_digit_value(c: char) -> int {
    if '0' <= c && c <= '9' {
        c as int - '0' as int
    } else if 'a' <= c && c <= 'f' {
        c as int - 'a' as int + 10
    } else {
        c as int - 'A' as int + 10
    }
}

/// Whether position `i` of a hyphenated UUID holds a hyphen.
pub open spec fn is_hyphen_position(i: int) -> bool {
    i == 8 || i == 13 || i == 18 || i == 23
}

/// Whether a text is a UUID in the hyphenated form: 36 characters, hyphens
/// at positions 8, 13, 18 and 23, hexadecimal digits elsewhere.
pub open spec fn is_hyphenated_form(t: Seq<char>) -> bool {
    &&& t.len() == 36
    &&& forall|i: int|
        0 <= i < 36 ==> if is_hyphen_position(i) {
            t[i] == '-'
        } else {
            is_hex_digit(#[trigger] t[i])
        }
}

/// Whether a hyphenated UUID writes its hexadecimal digits in lowercase.
pub open spec fn is_lowercase_hyphenated(t: Seq<char>) -> bool {
    &&& is_hyphenated_form(t)
    &&& forall|i: int| 0 <= i < 36 ==> !('A' <= #[trigger] t[i] && t[i] <= 'F')
}

/// The number that a sequence of hexadecimal digits spells, most
/// significant first.
pub open spec fn hex_number(digits: Seq<char>) -> nat
    decreases digits.len(),
{
    if digits.len() == 0 {
        0
    } else {
        (hex_number(digits.drop_last()) * 16 + hex_digit_value(digits.last())) as nat
    }
}

/// The value of a hyphenated UUID: the number its 32 hexadecimal digits spell.
pub open spec fn hyphenated_value(t: Seq<char>) -> nat {
    hex_number(
        t.subrange(0, 8) + t.subrange(9, 13) + t.subrange(14, 18) + t.subrange(19, 23) + t.subrange(
            24,
            36,
        ),
    )
}

/// Reads a UUID from its text through `uuid::Uuid::parse_str`. Claimed: the
/// answer is what `uuid_parse` names for the text, the value as given by
/// `Uuid::as_u128` and an error by its `Display` text; a text in the
/// hyphenated form is read as the value of its hexadecimal digits. Which
/// other texts parse (simple, braced and URN forms) is left to the name.
#[verifier::external_body]
fn parse_uuid_text(text: &str) -> (r: Result<u128, String>)
    ensures
        match r {
            Ok(v) => uuid_parse(text@) == Ok::<u128, Seq<char>>(v) && (is_hyphenated_form(text@)
                ==> v == hyphenated_value(text@)),
            Err(e) => uuid_parse(text@) == Err::<u128, Seq<char>>(e@) && !is_hyphenated_form(text@),
        },
{
    match uuid::Uuid::parse_str(text) {
        Ok(u) => Ok(u.as_u128()),
        Err(e) => Err(e.to_string()),
    }
}

/// Reads a UUID from its text; a text in the hyphenated form reads as the
/// value of its hexadecimal digits.
pub fn parse_uuid(text: &str) -> (r: Result<u128, String>)
    ensures
        match r {
            Ok(v) => uuid_parse(text@) == Ok::<u128, Seq<char>>(v),
            Err(e) => uuid_parse(text@) == Err::<u128, Seq<char>>(e@),
        },
        is_hyphenated_form(text@) ==> r == Ok::<u128, String>(hyphenated_value(text@) as u128),
{
    parse_uuid_text(text)
}

/// The text of a UUID through `uuid::Uuid::from_u128` and its `Display`.
/// Claimed: the text is in the hyphenated form, in lowercase, and its
/// hexadecimal digits spell the value, most significant first (`Display`
/// writes the lowercase hyphenated form of the value's big-endian bytes).
#[verifier::external_body]
pub(crate) fn uuid_text(v: u128) -> (text: String)
    ensures
        is_lowercase_hyphenated(text@) && hyphenated_value(text@) == v,
{
    uuid::Uuid::from_u128(v).to_string()
}

/// Whether a 128-bit value is a random (version 4) UUID of the RFC 4122
/// variant: its version field is 4 and its two variant bits are `10`.
pub open spec fn is_v4_uuid(v: u128) -> bool {
    &&& (v >> 76u128) & 0xfu128 == 4u128
    &&& (v >> 62u128) & 0x3u128 == 2u128
}

/// A fresh random UUID from `uuid::Uuid::new_v4`, by its 128-bit value.
/// Claimed: its version field is 4 and its variant is RFC 4122, which
/// `new_v4` sets on random bits; the other bits are not stated, being drawn
/// at random.
#[verifier::external_body]
fn random_uuid() -> (r: u128)
    ensures
        is_v4_uuid(r),
{
    uuid::Uuid::new_v4().as_u128()
}

/// A fresh random (version 4) UUID.
pub fn new_uuid() -> (r: u128)
    ensures
        is_v4_uuid(r),
{
    random_uuid()
}

} // verus!
