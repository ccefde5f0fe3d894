//! The machine word: sixteen bits, read as an unsigned pattern in memory and
//! as a two's-complement number in a register.

use vstd::prelude::*;

verus! {

/// The two's-complement number whose bit pattern is `word`.
pub open spec fn signed(word: u16) -> i16 {
    if word >= 0x8000 {
        (word - 0x1_0000) as i16
    } else {
        word as i16
    }
}

/// The bit pattern of the two's-complement number `value`.
pub open spec fn unsigned(value: i16) -> u16 {
    if value < 0 {
        (value + 0x1_0000) as u16
    } else {
        value as u16
    }
}

proof fn lemma_signed_cast(word: u16)
    by (bit_vector)
    ensures
        word as i16 == signed(word),
{
}

proof fn lemma_unsigned_cast(value: i16)
    by (bit_vector)
    ensures
        value as u16 == unsigned(value),
{
}

/// Reads a bit pattern as a two's-complement number.
pub fn to_signed(word: u16) -> (value: i16)
    ensures
        value == signed(word),
{
    proof {
        lemma_signed_cast(word);
    }
    word as i16
}

/// The bit pattern of a two's-complement number.
pub fn to_unsigned(value: i16) -> (word: u16)
    ensures
        word == unsigned(value),
{
    proof {
        lemma_unsigned_cast(value);
    }
    value as u16
}

/// The bitwise operations stay within sixteen bits, and the complement of a
/// number is its negative less one.
pub proof fn lemma_bitwise_range(left: i16, right: i16)
    by (bit_vector)
    ensures
        !left == -1 - left,
        -0x8000 <= left & right <= 0x7FFF,
        -0x8000 <= left ^ right <= 0x7FFF,
{
}

/// Reading a number's bit pattern as a number gives the number back, and
/// likewise for a pattern.
pub proof fn lemma_signed_unsigned(value: i16, word: u16)
    ensures
        signed(unsigned(value)) == value,
        unsigned(signed(word)) == word,
{
}

} // verus!
