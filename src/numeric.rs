//! Reading signal values as 32-bit integers, and the order used to compare
//! them.

use vstd::prelude::*;

verus! {

pub open spec fn is_digit(c: char) -> bool {
    '0' <= c && c <= '9'
}

/// The number that a non-empty run of decimal digits denotes.
pub open spec fn digits_value(s: Seq<char>) -> int
    decreases s.len(),
{
    if s.len() == 0 {
        0
    } else {
        10 * digits_value(s.drop_last()) + (s.last() as int - '0' as int)
    }
}

/// `s` is one or more decimal digits and nothing else.
pub open spec fn all_digits(s: Seq<char>) -> bool {
    s.len() > 0 && forall|i: int| 0 <= i < s.len() ==> is_digit(#[trigger] s[i])
}

/// The integer that `s` writes in decimal, with an optional leading `+` or
/// `-`, or `None` if `s` has any other shape.
pub open spec fn decimal_value(s: Seq<char>) -> Option<int> {
    if s.len() > 0 && s[0] == '-' {
        let body = s.subrange(1, s.len() as int);
        if all_digits(body) { Some(-digits_value(body)) } else { None }
    } else if s.len() > 0 && s[0] == '+' {
        let body = s.subrange(1, s.len() as int);
        if all_digits(body) { Some(digits_value(body)) } else { None }
    } else if all_digits(s) {
        Some(digits_value(s))
    } else {
        None
    }
}

/// The `i32` that `s` denotes, or `None` if `s` is not a decimal integer or
/// the integer lies outside the range of `i32`.
pub open spec fn parse_i32(s: Seq<char>) -> Option<int> {
    match decimal_value(s) {
        Some(v) => if i32::MIN <= v && v <= i32::MAX { Some(v) } else { None },
        None => None,
    }
}

/// Relies on `<i32 as FromStr>::from_str`: an optional `+` or `-` followed by
/// one or more ASCII digits, with no other characters, parses when the value
/// fits in `i32`; everything else is an error.
#[verifier::external_body]
fn read_i32(s: &str) -> (r: Option<i32>)
    ensures
        parse_i32(s@) == (match r {
            Some(v) => Some(v as int),
            None => None::<int>,
        }),
{
    s.parse::<i32>().ok()
}

/// The value that a freshly fetched signal is compared with: its integer
/// value, or `i32::MAX` when it does not parse.
pub open spec fn current_rank(s: Seq<char>) -> int {
    match parse_i32(s) {
        Some(v) => v,
        None => i32::MAX as int,
    }
}

/// The value that the last seen signal is compared with: its integer value,
/// or zero when it does not parse.
pub open spec fn previous_rank(s: Seq<char>) -> int {
    match parse_i32(s) {
        Some(v) => v,
        None => 0,
    }
}

/// `current_rank` of `s`.
pub fn rank_current(s: &str) -> (r: i32)
    ensures
        r as int == current_rank(s@),
{
    match read_i32(s) {
        Some(v) => v,
        None => i32::MAX,
    }
}

/// `previous_rank` of `s`.
pub fn rank_previous(s: &str) -> (r: i32)
    ensures
        r as int == previous_rank(s@),
{
    match read_i32(s) {
        Some(v) => v,
        None => 0,
    }
}

} // verus!
