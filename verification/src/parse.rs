//! Decimal number parsing, as `str::parse` does it for unsigned integers.

use vstd::prelude::*;

use crate::endpoint::{decimal_text, digit_char};

verus! {

#[verifier::external_type_specification]
#[verifier::external_body]
pub struct ExParseIntError(core::num::ParseIntError);

/// Whether every character is an ASCII decimal digit.
pub open spec fn all_decimal_digits(s: Seq<char>) -> bool {
    forall|i: int| 0 <= i < s.len() ==> '0' <= #[trigger] s[i] <= '9'
}

/// The value of a string of decimal digits, most significant first.
pub open spec fn decimal_value(s: Seq<char>) -> int
    decreases s.len(),
{
    if s.len() == 0 {
        0
    } else {
        decimal_value(s.drop_last()) * 10 + (s.last() as int - '0' as int)
    }
}

/// The digits that follow an optional leading `+`.
pub open spec fn unsigned_digits(s: Seq<char>) -> Seq<char> {
    if s.len() > 0 && s[0] == '+' {
        s.drop_first()
    } else {
        s
    }
}

/// The value that an unsigned integer type whose maximum is `max` parses from `s`:
/// an optional `+`, then one or more decimal digits whose value is at most `max`.
pub open spec fn spec_parse_unsigned(s: Seq<char>, max: int) -> Option<int> {
    let d = unsigned_digits(s);
    if d.len() > 0 && all_decimal_digits(d) && decimal_value(d) <= max {
        Some(decimal_value(d))
    } else {
        None
    }
}

/// What `u64::from_str` gives for `s`.
pub open spec fn spec_parse_u64(s: Seq<char>) -> Option<int> {
    spec_parse_unsigned(s, u64::MAX as int)
}

/// What `u128::from_str` gives for `s`.
pub open spec fn spec_parse_u128(s: Seq<char>) -> Option<int> {
    spec_parse_unsigned(s, u128::MAX as int)
}

/// Calls `str::parse::<u64>`. Its documentation (`u64::from_str_radix` with radix 10)
/// accepts exactly an optional `+` followed by decimal digits whose value fits in
/// `u64`, and fails otherwise; this is what the contract states.
#[verifier::external_body]
pub(crate) fn parse_u64(s: &str) -> (r: Result<u64, core::num::ParseIntError>)
    ensures
        r is Ok <==> spec_parse_u64(s@) is Some,
        r matches Ok(n) ==> spec_parse_u64(s@) == Some(n as int),
{
    s.parse::<u64>()
}

/// Calls `str::parse::<u128>`, documented like `parse_u64` with `u128`'s range.
#[verifier::external_body]
pub(crate) fn parse_u128(s: &str) -> (r: Result<u128, core::num::ParseIntError>)
    ensures
        r is Ok <==> spec_parse_u128(s@) is Some,
        r matches Ok(n) ==> spec_parse_u128(s@) == Some(n as int),
{
    s.parse::<u128>()
}

/// The decimal text of a number is a string of digits whose value is the number.
proof fn lemma_decimal_text_value(n: nat)
    ensures
        decimal_text(n).len() > 0,
        all_decimal_digits(decimal_text(n)),
        decimal_value(decimal_text(n)) == n,
    decreases n,
{
    let s = decimal_text(n);
    if n < 10 {
        assert(s.drop_last() =~= Seq::<char>::empty());
        assert(digit_char(n as int) as int == '0' as int + n);
        assert(s.last() == digit_char(n as int));
        assert(decimal_value(s) == decimal_value(s.drop_last()) * 10 + (s.last() as int - '0' as int));
    } else {
        lemma_decimal_text_value(n / 10);
        assert(s.drop_last() =~= decimal_text(n / 10));
        assert(digit_char((n % 10) as int) as int == '0' as int + n % 10);
        assert(s.last() == digit_char((n % 10) as int));
        assert(decimal_value(s) == decimal_value(s.drop_last()) * 10 + (s.last() as int - '0' as int));
        assert(n == (n / 10) * 10 + n % 10);
        assert forall|i: int| 0 <= i < s.len() implies '0' <= #[trigger] s[i] <= '9' by {
            if i < s.len() - 1 {
                assert(s[i] == decimal_text(n / 10)[i]);
            }
        }
    }
}

/// Reading back the decimal text of a `u64` gives the number: a bundle identifier written
/// as a number's decimal text reads back, by `to_u64`, as that number.
pub proof fn lemma_decimal_text_parses(n: u64)
    ensures
        spec_parse_u64(decimal_text(n as nat)) == Some(n as int),
{
    lemma_decimal_text_value(n as nat);
    let s = decimal_text(n as nat);
    assert('0' <= s[0] <= '9');
    assert(unsigned_digits(s) == s);
}

} // verus!
