use lc4::word::{to_signed, to_unsigned};

#[test]
fn a_word_and_its_number_share_the_bit_pattern() {
    for (word, value) in [
        (0x0000u16, 0i16),
        (0x0001, 1),
        (0x7FFF, 32767),
        (0x8000, -32768),
        (0x8001, -32767),
        (0xFFFE, -2),
        (0xFFFF, -1),
    ] {
        assert_eq!(to_signed(word), value);
        assert_eq!(to_unsigned(value), word);
    }
}

#[test]
fn conversion_there_and_back_is_the_identity() {
    for word in 0..=0xFFFFu16 {
        assert_eq!(to_unsigned(to_signed(word)), word);
    }
}
