//! Numbers as text, for the messages and the state dumps.

use vstd::prelude::*;

verus! {

/// The character of a digit below sixteen: `0` to `9`, then `a` to `f`.
pub open spec fn digit_char(digit: int) -> char {
    if digit < 10 {
        (48 + digit) as char
    } else {
        (87 + digit) as char
    }
}

/// The decimal digits of a natural number, without leading zeros.
pub open spec fn natural_text(number: nat) -> Seq<char>
    decreases number,
{
    if number < 10 {
        seq![digit_char(number as int)]
    } else {
        natural_text(number / 10).push(digit_char((number % 10) as int))
    }
}

/// A number in decimal, with a minus sign before a negative one.
pub open spec fn decimal_text(number: int) -> Seq<char> {
    if number < 0 {
        seq!['-'] + natural_text((-number) as nat)
    } else {
        natural_text(number as nat)
    }
}

/// A word as four hexadecimal digits, in lower case.
pub open spec fn hex_text(word: u16) -> Seq<char> {
    seq![
        digit_char(word as int / 4096),
        digit_char(word as int / 256 % 16),
        digit_char(word as int / 16 % 16),
        digit_char(word as int % 16),
    ]
}

/// A word as sixteen binary digits, the most significant first.
pub open spec fn binary_text(word: u16) -> Seq<char> {
    Seq::new(
        16,
        |i: int|
            if (word >> ((15 - i) as u16)) & 1 == 1 {
                '1'
            } else {
                '0'
            },
    )
}

/// A number in decimal, by `format!` with the pattern `{}`: std's `Display`
/// for an integer writes the decimal digits without padding, after a minus
/// sign if the number is negative.
#[verifier::external_body]
pub(crate) fn decimal(number: i32) -> (text: String)
    ensures
        text@ == decimal_text(number as int),
{
    format!("{}", number)
}

/// A word in hexadecimal, by `format!` with the pattern `{:04x}`: std's
/// `LowerHex` writes the digits in lower case, and the width with the zero
/// flag pads to four digits.
#[verifier::external_body]
pub(crate) fn hex(word: u16) -> (text: String)
    ensures
        text@ == hex_text(word),
{
    format!("{:04x}", word)
}

/// A word in binary, by `format!` with the pattern `{:016b}`: std's `Binary`
/// writes the digits, and the width with the zero flag pads to sixteen.
#[verifier::external_body]
pub(crate) fn binary(word: u16) -> (text: String)
    ensures
        text@ == binary_text(word),
{
    format!("{:016b}", word)
}

} // verus!
