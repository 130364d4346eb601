//! What the HTTP front end decides before it drives the device: which
//! requested speeds are accepted.

use vstd::prelude::*;

verus! {

/// Highest belt speed a client may ask for.
pub const MAX_SPEED: i32 = 60;

/// Whether `c` is an ASCII decimal digit.
pub open spec fn is_digit(c: char) -> bool {
    '0' <= c && c <= '9'
}

/// Whether `s` is a non-empty run of ASCII decimal digits.
pub open spec fn all_digits(s: Seq<char>) -> bool {
    s.len() > 0 && forall|i: int| 0 <= i < s.len() ==> is_digit(#[trigger] s[i])
}

/// The number a run of decimal digits spells.
pub open spec fn digits_value(s: Seq<char>) -> int
    decreases s.len(),
{
    if s.len() == 0 {
        0
    } else {
        digits_value(s.drop_last()) * 10 + ((s.last() as u32) as int - ('0' as u32) as int)
    }
}

/// The integer a decimal literal spells: an optional `+` or `-`, then one or
/// more digits. Anything else, whitespace included, spells none.
pub open spec fn decimal_value(s: Seq<char>) -> Option<int> {
    if all_digits(s) {
        Some(digits_value(s))
    } else if s.len() > 0 && s[0] == '+' && all_digits(s.drop_first()) {
        Some(digits_value(s.drop_first()))
    } else if s.len() > 0 && s[0] == '-' && all_digits(s.drop_first()) {
        Some(-digits_value(s.drop_first()))
    } else {
        None
    }
}

/// The `i32` that `s` parses to: a decimal literal whose value fits.
pub open spec fn parsed_i32(s: Seq<char>) -> Option<i32> {
    match decimal_value(s) {
        Some(v) => if i32::MIN <= v <= i32::MAX {
            Some(v as i32)
        } else {
            None
        },
        None => None,
    }
}

/// Relies on `str::parse::<i32>` (`i32::from_str`): it accepts an optional
/// sign followed by ASCII digits whose value fits in `i32`, and fails on
/// anything else.
#[verifier::external_body]
fn parse_i32(s: &str) -> (r: Option<i32>)
    ensures
        r == parsed_i32(s@),
{
    s.parse::<i32>().ok()
}

/// Why a requested speed was refused.
#[derive(Debug, Clone, Copy, PartialEq, Eq, Structural)]
pub enum SpeedError {
    /// The speed lies outside `0 ..= MAX_SPEED`.
    NotAllowed(i32),
    /// The speed parameter is not an integer.
    NotProvided,
}

/// The outcome of a request for speed `v`.
pub open spec fn speed_check(v: i32) -> Result<u8, SpeedError> {
    if 0 <= v <= MAX_SPEED {
        Ok(v as u8)
    } else {
        Err(SpeedError::NotAllowed(v))
    }
}

/// Accepts a speed in `0 ..= MAX_SPEED` as the byte to send, and refuses any other.
pub fn check_speed(speed: i32) -> (r: Result<u8, SpeedError>)
    ensures
        r == speed_check(speed),
{
    if speed > MAX_SPEED || speed < 0 {
        Err(SpeedError::NotAllowed(speed))
    } else {
        Ok(speed as u8)
    }
}

/// The speed a request asks for, from its `speed` query parameter: a missing
/// parameter asks for 0, one that is not an integer is refused, and an
/// integer goes through [`check_speed`].
pub fn requested_speed(query: Option<&str>) -> (r: Result<u8, SpeedError>)
    ensures
        query.is_none() ==> r == Ok::<u8, SpeedError>(0),
        query matches Some(s) ==> r == match parsed_i32(s@) {
            Some(v) => speed_check(v),
            None => Err(SpeedError::NotProvided),
        },
{
    match query {
        None => Ok(0),
        Some(s) => match parse_i32(s) {
            Some(v) => check_speed(v),
            None => Err(SpeedError::NotProvided),
        },
    }
}

/// The body of an error reply.
#[derive(Debug, PartialEq, Eq)]
pub struct Error {
    pub reason: String,
}

} // verus!
