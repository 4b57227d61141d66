//! Decimal position numbers, as std's `usize` parser reads them.
use vstd::prelude::*;

use core::num::ParseIntError;

verus! {

#[verifier::external_type_specification]
#[verifier::external_body]
pub struct ExParseIntError(ParseIntError);

pub open spec fn is_decimal_digit(c: char) -> bool {
    '0' <= c && c <= '9'
}

/// The number that a sequence of decimal digits spells, most significant first.
pub open spec fn digits_value(s: Seq<char>) -> nat
    decreases s.len(),
{
    if s.len() == 0 {
        0
    } else {
        digits_value(s.drop_last()) * 10 + ((s.last() as u32) - ('0' as u32)) as nat
    }
}

/// The text after an optional leading `+`.
pub open spec fn unsigned_body(s: Seq<char>) -> Seq<char> {
    if s.len() > 0 && s[0] == '+' {
        s.drop_first()
    } else {
        s
    }
}

/// `s` is an optional `+` followed by one or more decimal digits whose value fits in a `usize`.
pub open spec fn is_usize_numeral(s: Seq<char>) -> bool {
    let d = unsigned_body(s);
    &&& d.len() > 0
    &&& forall|i: int| 0 <= i < d.len() ==> is_decimal_digit(#[trigger] d[i])
    &&& digits_value(d) <= usize::MAX
}

/// The value of a text accepted by [is_usize_numeral].
pub open spec fn numeral_value(s: Seq<char>) -> nat {
    digits_value(unsigned_body(s))
}

/// The error that std's `usize` parser reports for a text it rejects.
pub uninterp spec fn usize_parse_error(s: Seq<char>) -> ParseIntError;

/// Relies on `<usize as FromStr>::from_str` (through `str::parse`): it accepts
/// exactly an optional `+` followed by decimal digits whose value fits in a
/// `usize`, and returns that value; any other text is an error.
#[verifier::external_body]
pub(crate) fn parse_usize(s: &str) -> (r: Result<usize, ParseIntError>)
    ensures
        match r {
            Ok(n) => is_usize_numeral(s@) && n as nat == numeral_value(s@),
            Err(e) => !is_usize_numeral(s@) && e == usize_parse_error(s@),
        },
{
    s.parse::<usize>()
}

} // verus!
