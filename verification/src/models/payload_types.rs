//! Kinds of payload that events carry, and whether a value suits its kind.
use crate::common::text::{digit_char, int_text, nat_text};
use vstd::prelude::*;

verus! {

broadcast use vstd::seq_lib::group_seq_properties;

/// Largest magnitude of a non-negative 64-bit signed integer.
pub const I64_MAX_MAGNITUDE: u64 = 9223372036854775807;

/// Magnitude of the smallest 64-bit signed integer.
pub const I64_MIN_MAGNITUDE: u64 = 9223372036854775808;

pub open spec fn is_digit(c: char) -> bool {
    '0' <= c <= '9'
}

pub open spec fn all_digits(s: Seq<char>) -> bool {
    forall|i: int| 0 <= i < s.len() ==> #[trigger] is_digit(s[i])
}

/// The number that a string of decimal digits writes.
pub open spec fn digits_value(s: Seq<char>) -> int
    decreases s.len(),
{
    if s.len() == 0 {
        0
    } else {
        digits_value(s.drop_last()) * 10 + (s.last() as int - '0' as int)
    }
}

/// Whether a string is the decimal text of a 64-bit signed integer, as the
/// standard library reads one: an optional `+` or `-`, then one or more
/// ASCII digits whose value lies in the range of `i64`. Nothing else, no
/// whitespace, is allowed.
pub open spec fn parses_as_i64(s: Seq<char>) -> bool {
    if s.len() > 0 && s[0] == '-' {
        let body = s.drop_first();
        body.len() > 0 && all_digits(body) && digits_value(body) <= I64_MIN_MAGNITUDE
    } else {
        let body = if s.len() > 0 && s[0] == '+' {
            s.drop_first()
        } else {
            s
        };
        body.len() > 0 && all_digits(body) && digits_value(body) <= I64_MAX_MAGNITUDE
    }
}

/// Whether a string is the text of a boolean, as the standard library reads
/// one: exactly `true` or `false`.
pub open spec fn parses_as_bool(s: Seq<char>) -> bool {
    s == "true"@ || s == "false"@
}

proof fn lemma_digits_value_nonneg(s: Seq<char>)
    requires
        all_digits(s),
    ensures
        digits_value(s) >= 0,
    decreases s.len(),
{
    if s.len() > 0 {
        assert(is_digit(s[s.len() - 1]));
        assert(all_digits(s.drop_last())) by {
            assert forall|i: int| 0 <= i < s.drop_last().len() implies #[trigger] is_digit(
                s.drop_last()[i],
            ) by {
                assert(is_digit(s[i]));
            }
        }
        lemma_digits_value_nonneg(s.drop_last());
    }
}

/// The value of a digit string is at least that of any of its prefixes.
proof fn lemma_digits_value_prefix(s: Seq<char>, k: int)
    requires
        all_digits(s),
        0 <= k <= s.len(),
    ensures
        digits_value(s.take(k)) <= digits_value(s),
    decreases s.len() - k,
{
    if k < s.len() {
        let t = s.take(k + 1);
        assert(t.drop_last() =~= s.take(k));
        assert(is_digit(s[k]));
        assert(all_digits(s.take(k))) by {
            assert forall|i: int| 0 <= i < s.take(k).len() implies #[trigger] is_digit(s.take(k)[i]) by {
                assert(is_digit(s[i]));
            }
        }
        lemma_digits_value_nonneg(s.take(k));
        lemma_digits_value_prefix(s, k + 1);
    } else {
        assert(s.take(k) =~= s);
    }
}

/// Whether a text is the decimal text of a 64-bit signed integer.
pub fn parses_i64(value: &str) -> (r: bool)
    ensures
        r == parses_as_i64(value@),
{
    let n = value.unicode_len();
    if n == 0 {
        return false;
    }
    let first = value.get_char(0);
    let negative = first == '-';
    let start: usize = if first == '-' || first == '+' {
        1
    } else {
        0
    };
    let ghost s = value@;
    let ghost body = s.subrange(start as int, n as int);
    proof {
        if start == 1 {
            assert(body =~= s.drop_first());
        } else {
            assert(body =~= s);
        }
    }
    if start == n {
        return false;
    }
    let limit: u64 = if negative {
        I64_MIN_MAGNITUDE
    } else {
        I64_MAX_MAGNITUDE
    };
    let mut acc: u64 = 0;
    let mut i: usize = start;
    assert(body.take(0) =~= Seq::<char>::empty());
    while i < n
        invariant
            s == value@,
            n == s.len(),
            start <= i <= n,
            body == s.subrange(start as int, n as int),
            n > 0,
            negative <==> s[0] == '-',
            start == 1 <==> (s[0] == '-' || s[0] == '+'),
            start <= 1,
            start == 1 ==> body == s.drop_first(),
            start == 0 ==> body == s,
            limit == (if negative {
                I64_MIN_MAGNITUDE
            } else {
                I64_MAX_MAGNITUDE
            }),
            acc <= limit,
            limit <= I64_MIN_MAGNITUDE,
            all_digits(body.take(i - start)),
            acc == digits_value(body.take(i - start)),
        decreases n - i,
    {
        let c = value.get_char(i);
        assert(c == body[i - start]);
        if !('0' <= c && c <= '9') {
            assert(!is_digit(body[i - start]));
            assert(!all_digits(body));
            return false;
        }
        let d: u64 = (c as u32 - '0' as u32) as u64;
        assert(d <= 9);
        let ghost next = body.take(i - start + 1);
        assert(next.drop_last() =~= body.take(i - start));
        assert(next.last() == c);
        assert(all_digits(next)) by {
            assert forall|j: int| 0 <= j < next.len() implies #[trigger] is_digit(next[j]) by {
                if j < next.len() - 1 {
                    assert(next[j] == body.take(i - start)[j]);
                }
            }
        }
        if acc > (limit - d) / 10 {
            proof {
                assert(acc * 10 + d > limit) by (nonlinear_arith)
                    requires
                        acc > (limit - d) / 10,
                        d <= limit,
                ;
                if all_digits(body) {
                    lemma_digits_value_prefix(body, i - start + 1);
                }
            }
            return false;
        }
        proof {
            assert(acc * 10 + d <= limit) by (nonlinear_arith)
                requires
                    acc <= (limit - d) / 10,
                    d <= limit,
            ;
        }
        acc = acc * 10 + d;
        i = i + 1;
    }
    assert(body.take(n - start) =~= body);
    true
}

/// Whether a text is `true` or `false`.
pub fn parses_bool(value: &str) -> (r: bool)
    ensures
        r == parses_as_bool(value@),
{
    let v = value.to_owned();
    v == "true".to_owned() || v == "false".to_owned()
}

/// Value type identifier of integer payloads.
pub const INT_VALUE_TYPE: i64 = 1;
/// Value type identifier of boolean payloads.
pub const BOOL_VALUE_TYPE: i64 = 2;
/// Value type identifier of free text payloads.
pub const STRING_VALUE_TYPE: i64 = 3;

/// A kind of payload that events may carry.
pub struct Model {
    pub id: i64,
    pub code_name: String,
    pub description: Option<String>,
    pub value_type_id: i64,
}

/// Whether a value suits a value type: integers and booleans must parse,
/// text is always accepted, and an unknown value type accepts nothing.
pub open spec fn value_fits(value_type_id: i64, value: Seq<char>) -> bool {
    if value_type_id == INT_VALUE_TYPE {
        parses_as_i64(value)
    } else if value_type_id == BOOL_VALUE_TYPE {
        parses_as_bool(value)
    } else {
        value_type_id == STRING_VALUE_TYPE
    }
}

impl Model {
    /// Whether a value suits this payload type.
    pub fn validate(&self, value: &str) -> (r: bool)
        ensures
            r == value_fits(self.value_type_id, value@),
    {
        match self.value_type_id {
            1 => parses_i64(value),
            2 => parses_bool(value),
            3 => true,
            _ => false,
        }
    }
}

/// A payload of the integer type (1) fits exactly when its text reads as a
/// 64-bit signed integer; one of the boolean type (2) exactly when it is
/// `true` or `false`; one of the text type (3) always; one of any other type
/// never.
pub proof fn lemma_value_fits_by_type(value_type_id: i64, v: Seq<char>)
    ensures
        value_fits(1, v) == parses_as_i64(v),
        value_fits(2, v) == (v == "true"@ || v == "false"@),
        value_fits(3, v),
        value_type_id != 1 && value_type_id != 2 && value_type_id != 3 ==> !value_fits(
            value_type_id,
            v,
        ),
        INT_VALUE_TYPE == 1 && BOOL_VALUE_TYPE == 2 && STRING_VALUE_TYPE == 3,
{
}

/// The decimal text of a natural number is made of digits and reads back as
/// that number.
pub proof fn lemma_nat_text_digits(n: nat)
    ensures
        nat_text(n).len() > 0,
        all_digits(nat_text(n)),
        digits_value(nat_text(n)) == n,
    decreases n,
{
    let d = (n % 10) as int;
    assert(digit_char(d) as int == 48 + d);
    let t = nat_text(n);
    assert('0' as int == 48);
    if n < 10 {
        assert(t.drop_last() =~= Seq::<char>::empty());
        assert(t.last() == digit_char(n as int));
        assert(digits_value(t) == digits_value(t.drop_last()) * 10 + (t.last() as int - '0' as int));
    } else {
        lemma_nat_text_digits(n / 10);
        assert(t.drop_last() =~= nat_text(n / 10));
        assert(t.last() == digit_char(d));
        assert((n / 10) * 10 + n % 10 == n) by (nonlinear_arith);
        assert(digits_value(t) == digits_value(t.drop_last()) * 10 + (t.last() as int - '0' as int));
        assert forall|i: int| 0 <= i < t.len() implies #[trigger] is_digit(t[i]) by {
            if i < t.len() - 1 {
                assert(t[i] == nat_text(n / 10)[i]);
            }
        }
    }
}

/// The decimal text of every 64-bit signed integer reads as an integer,
/// negative ones with their minus sign, and a plus sign before a
/// non-negative one is allowed too.
pub proof fn lemma_i64_texts_parse(x: i64)
    ensures
        parses_as_i64(int_text(x as int)),
        x >= 0 ==> parses_as_i64(seq!['+'] + nat_text(x as nat)),
{
    if x < 0 {
        let n = (-x) as nat;
        lemma_nat_text_digits(n);
        let t = seq!['-'] + nat_text(n);
        assert(t.drop_first() =~= nat_text(n));
    } else {
        let n = x as nat;
        lemma_nat_text_digits(n);
        let t = nat_text(n);
        assert(is_digit(t[0]));
        let p = seq!['+'] + nat_text(n);
        assert(p.drop_first() =~= nat_text(n));
    }
}

/// Decimal numbers beyond the range of a 64-bit signed integer do not read:
/// above 9223372036854775807, or, after a minus sign, above
/// 9223372036854775808.
pub proof fn lemma_out_of_range_texts_fail(n: nat)
    ensures
        n > 9223372036854775807 ==> !parses_as_i64(nat_text(n)),
        n > 9223372036854775808 ==> !parses_as_i64(seq!['-'] + nat_text(n)),
{
    lemma_nat_text_digits(n);
    let t = nat_text(n);
    assert(is_digit(t[0]));
    let m = seq!['-'] + nat_text(n);
    assert(m.drop_first() =~= nat_text(n));
}

/// A text that reads as an integer is one or more ASCII digits, with at most
/// a leading `+` or `-`: no spaces, letters or other signs.
pub proof fn lemma_integer_texts_are_digits(s: Seq<char>)
    requires
        parses_as_i64(s),
    ensures
        s.len() > 0,
        forall|i: int|
            0 <= i < s.len() ==> is_digit(#[trigger] s[i]) || (i == 0 && (s[0] == '-' || s[0]
                == '+')),
        !is_digit(s[0]) ==> s.len() > 1,
{
    if s[0] == '-' || s[0] == '+' {
        let body = s.drop_first();
        assert forall|i: int| 0 <= i < s.len() implies is_digit(#[trigger] s[i]) || (i == 0 && (
        s[0] == '-' || s[0] == '+')) by {
            if i > 0 {
                assert(s[i] == body[i - 1]);
            }
        }
    }
}

} // verus!
