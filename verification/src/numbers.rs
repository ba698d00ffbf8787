//! Reading the counting numbers that a manifest writes out in decimal.

use crate::text::is_digit;
use std::num::ParseIntError;
use vstd::prelude::*;

verus! {

/// Why `str::parse` refused a text; nothing of it is looked into.
#[verifier::external_type_specification]
#[verifier::external_body]
pub struct ExParseIntError(ParseIntError);

/// Every character of `s` is an ASCII digit.
pub open spec fn all_digits(s: Seq<char>) -> bool {
    forall|i: int| 0 <= i < s.len() ==> is_digit(#[trigger] s[i])
}

/// The number that the digits of `s` write in decimal.
pub open spec fn digits_value(s: Seq<char>) -> nat
    decreases s.len(),
{
    if s.len() == 0 {
        0
    } else {
        digits_value(s.drop_last()) * 10 + ((s.last() as u32 - '0' as u32) as nat)
    }
}

/// `s` without the `+` that it may begin with.
pub open spec fn unsigned_part(s: Seq<char>) -> Seq<char> {
    if s.len() > 0 && s[0] == '+' {
        s.drop_first()
    } else {
        s
    }
}

/// `s` writes a number that a `usize` can hold: at least one digit and
/// nothing but digits, behind at most one `+`.
pub open spec fn is_count(s: Seq<char>) -> bool {
    let body = unsigned_part(s);
    body.len() > 0 && all_digits(body) && digits_value(body) <= usize::MAX
}

/// The number that `s` writes.
pub open spec fn count_of(s: Seq<char>) -> nat {
    digits_value(unsigned_part(s))
}

/// Calls `str::parse::<usize>`. The standard library reads an optional
/// `+` and then decimal digits; it refuses the empty text, a text without
/// digits, any other character and a number too large for a `usize`.
#[verifier::external_body]
pub(crate) fn parse_count(s: &str) -> (r: Result<usize, ParseIntError>)
    ensures
        r is Ok <==> is_count(s@),
        r matches Ok(n) ==> n == count_of(s@),
{
    s.parse::<usize>()
}

} // verus!
