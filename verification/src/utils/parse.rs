//! Reading decimal numerals, and the whole seconds of a delay.

use vstd::prelude::*;
use std::num::ParseIntError;
use std::time::Duration;

verus! {

/// The error std reports for text that is no numeral of the wanted type.
#[verifier::external_type_specification]
#[verifier::external_body]
pub struct ExParseIntError(ParseIntError);

/// The value of a decimal digit, or -1 for any other character.
pub open spec fn digit_value(c: char) -> int {
    if c == '0' {
        0
    } else if c == '1' {
        1
    } else if c == '2' {
        2
    } else if c == '3' {
        3
    } else if c == '4' {
        4
    } else if c == '5' {
        5
    } else if c == '6' {
        6
    } else if c == '7' {
        7
    } else if c == '8' {
        8
    } else if c == '9' {
        9
    } else {
        -1
    }
}

/// Whether `text` is one digit or more, and nothing else.
pub open spec fn is_digits(text: Seq<char>) -> bool {
    text.len() > 0 && forall|i: int| 0 <= i < text.len() ==> digit_value(#[trigger] text[i]) >= 0
}

/// The number that a run of digits writes, leading zeros allowed.
pub open spec fn digits_value(text: Seq<char>) -> nat
    decreases text.len(),
{
    if text.len() == 0 {
        0
    } else {
        (digits_value(text.drop_last()) * 10 + digit_value(text.last())) as nat
    }
}

/// The natural number that `text` writes: digits, with at most a plus sign in
/// front. `None` for any other text, the empty one and a lone sign included.
pub open spec fn written_natural(text: Seq<char>) -> Option<nat> {
    let digits = if text.len() > 0 && text[0] == '+' {
        text.skip(1)
    } else {
        text
    };
    if is_digits(digits) {
        Some(digits_value(digits))
    } else {
        None
    }
}

/// The integer that `text` writes: digits, with at most one sign in front.
/// `None` for any other text, the empty one and a lone sign included.
pub open spec fn written_integer(text: Seq<char>) -> Option<int> {
    if text.len() > 0 && text[0] == '-' {
        if is_digits(text.skip(1)) {
            Some(-(digits_value(text.skip(1)) as int))
        } else {
            None
        }
    } else {
        match written_natural(text) {
            Some(n) => Some(n as int),
            None => None,
        }
    }
}

/// The delay of `secs` whole seconds, as `Duration::from_secs` of std makes
/// it.
pub uninterp spec fn duration_of_secs(secs: u64) -> Duration;

/// `str::parse::<u64>` of std: succeeds where the text writes a natural
/// number that fits, and then returns that number; fails on every other
/// text.
#[verifier::external_body]
pub(crate) fn parse_u64(text: &str) -> (parsed: Result<u64, ParseIntError>)
    ensures
        match parsed {
            Ok(value) => written_natural(text@) == Some(value as nat),
            Err(_) => match written_natural(text@) {
                Some(n) => n > u64::MAX,
                None => true,
            },
        },
{
    text.parse::<u64>()
}

/// `str::parse::<i128>` of std: gives the integer that the text writes where
/// it fits, and nothing on every other text.
#[verifier::external_body]
pub(crate) fn parse_i128(text: &str) -> (parsed: Option<i128>)
    ensures
        parsed == match written_integer(text@) {
            Some(v) => if i128::MIN <= v <= i128::MAX {
                Some(v as i128)
            } else {
                None
            },
            None => None,
        },
{
    match text.parse::<i128>() {
        Ok(value) => Some(value),
        Err(_) => None,
    }
}

/// `Duration::from_secs` of std.
#[verifier::external_body]
pub(crate) fn duration_from_secs(secs: u64) -> (delay: Duration)
    ensures
        delay == duration_of_secs(secs),
{
    Duration::from_secs(secs)
}

} // verus!
