//! The period of the linear-feedback shift register: from any seed but zero
//! it passes through all 65535 states that are not zero before it returns.
//!
//! A clock is linear over bitwise exclusive or, so what any number of clocks
//! does to a state follows from what it does to the sixteen states with a
//! single bit set. Those are computed outright, for 65535 clocks and for
//! each of 65535 / 3, 65535 / 5, 65535 / 17 and 65535 / 257 clocks.

use vstd::prelude::*;
use crate::prng::{lfsr_run, lfsr_step};

verus! {

/// `column` if bit `index` of `state` is set, and zero if not.
pub open spec fn pick(state: u16, index: u16, column: u16) -> u16 {
    if (state >> index) & 1 == 1 {
        column
    } else {
        0
    }
}

/// The product of a bit matrix and a state: the exclusive or of the columns
/// whose bit is set in the state.
pub open spec fn combine(
    state: u16,
    c0: u16,
    c1: u16,
    c2: u16,
    c3: u16,
    c4: u16,
    c5: u16,
    c6: u16,
    c7: u16,
    c8: u16,
    c9: u16,
    c10: u16,
    c11: u16,
    c12: u16,
    c13: u16,
    c14: u16,
    c15: u16,
) -> u16 {
    pick(state, 0, c0)
        ^ (pick(state, 1, c1)
        ^ (pick(state, 2, c2)
        ^ (pick(state, 3, c3)
        ^ (pick(state, 4, c4)
        ^ (pick(state, 5, c5)
        ^ (pick(state, 6, c6)
        ^ (pick(state, 7, c7)
        ^ (pick(state, 8, c8)
        ^ (pick(state, 9, c9)
        ^ (pick(state, 10, c10)
        ^ (pick(state, 11, c11)
        ^ (pick(state, 12, c12)
        ^ (pick(state, 13, c13)
        ^ (pick(state, 14, c14)
        ^ pick(state, 15, c15)))))))))))))))
}

/// The register after 4 clocks.
#[verifier::opaque]
spec fn hop_4(state: u16) -> u16 {
    lfsr_step(lfsr_step(lfsr_step(lfsr_step(state))))
}

/// The register after 16 clocks.
#[verifier::opaque]
spec fn hop_16(state: u16) -> u16 {
    hop_4(hop_4(hop_4(hop_4(state))))
}

/// The register after 64 clocks.
#[verifier::opaque]
spec fn hop_64(state: u16) -> u16 {
    hop_16(hop_16(hop_16(hop_16(state))))
}

/// The register after 256 clocks.
#[verifier::opaque]
spec fn hop_256(state: u16) -> u16 {
    hop_64(hop_64(hop_64(hop_64(state))))
}

/// The register after 1024 clocks.
#[verifier::opaque]
spec fn hop_1024(state: u16) -> u16 {
    hop_256(hop_256(hop_256(hop_256(state))))
}

/// The register after 4096 clocks.
#[verifier::opaque]
spec fn hop_4096(state: u16) -> u16 {
    hop_1024(hop_1024(hop_1024(hop_1024(state))))
}

/// The register after 16384 clocks.
#[verifier::opaque]
spec fn hop_16384(state: u16) -> u16 {
    hop_4096(hop_4096(hop_4096(hop_4096(state))))
}

/// The register after 255 clocks.
#[verifier::opaque]
spec fn span_255(state: u16) -> u16 {
    let after_3 = lfsr_step(lfsr_step(lfsr_step(state)));
    let after_15 = hop_4(hop_4(hop_4(after_3)));
    let after_63 = hop_16(hop_16(hop_16(after_15)));
    hop_64(hop_64(hop_64(after_63)))
}

/// The register after 3855 clocks.
#[verifier::opaque]
spec fn span_3855(state: u16) -> u16 {
    let after_3 = lfsr_step(lfsr_step(lfsr_step(state)));
    let after_15 = hop_4(hop_4(hop_4(after_3)));
    let after_783 = hop_256(hop_256(hop_256(after_15)));
    hop_1024(hop_1024(hop_1024(after_783)))
}

/// The register after 13107 clocks.
#[verifier::opaque]
spec fn span_13107(state: u16) -> u16 {
    let after_3 = lfsr_step(lfsr_step(lfsr_step(state)));
    let after_51 = hop_16(hop_16(hop_16(after_3)));
    let after_819 = hop_256(hop_256(hop_256(after_51)));
    hop_4096(hop_4096(hop_4096(after_819)))
}

/// The register after 21845 clocks.
#[verifier::opaque]
spec fn span_21845(state: u16) -> u16 {
    let after_1 = lfsr_step(state);
    let after_5 = hop_4(after_1);
    let after_21 = hop_16(after_5);
    let after_85 = hop_64(after_21);
    let after_341 = hop_256(after_85);
    let after_1365 = hop_1024(after_341);
    let after_5461 = hop_4096(after_1365);
    hop_16384(after_5461)
}

/// The register after 65535 clocks.
#[verifier::opaque]
spec fn span_65535(state: u16) -> u16 {
    let after_3 = lfsr_step(lfsr_step(lfsr_step(state)));
    let after_15 = hop_4(hop_4(hop_4(after_3)));
    let after_63 = hop_16(hop_16(hop_16(after_15)));
    let after_255 = hop_64(hop_64(hop_64(after_63)));
    let after_1023 = hop_256(hop_256(hop_256(after_255)));
    let after_4095 = hop_1024(hop_1024(hop_1024(after_1023)));
    let after_16383 = hop_4096(hop_4096(hop_4096(after_4095)));
    hop_16384(hop_16384(hop_16384(after_16383)))
}

proof fn lemma_step_linear(left: u16, right: u16)
    by (bit_vector)
    ensures
        lfsr_step(left ^ right) == lfsr_step(left) ^ lfsr_step(right),
        lfsr_step(0) == 0,
{
}

proof fn lemma_bits(state: u16)
    by (bit_vector)
    ensures
        state == (state & 0x0001)
            ^ ((state & 0x0002)
            ^ ((state & 0x0004)
            ^ ((state & 0x0008)
            ^ ((state & 0x0010)
            ^ ((state & 0x0020)
            ^ ((state & 0x0040)
            ^ ((state & 0x0080)
            ^ ((state & 0x0100)
            ^ ((state & 0x0200)
            ^ ((state & 0x0400)
            ^ ((state & 0x0800)
            ^ ((state & 0x1000)
            ^ ((state & 0x2000)
            ^ ((state & 0x4000)
            ^ (state & 0x8000))))))))))))))),
        state & 0x0001 == pick(state, 0, 0x0001),
        state & 0x0002 == pick(state, 1, 0x0002),
        state & 0x0004 == pick(state, 2, 0x0004),
        state & 0x0008 == pick(state, 3, 0x0008),
        state & 0x0010 == pick(state, 4, 0x0010),
        state & 0x0020 == pick(state, 5, 0x0020),
        state & 0x0040 == pick(state, 6, 0x0040),
        state & 0x0080 == pick(state, 7, 0x0080),
        state & 0x0100 == pick(state, 8, 0x0100),
        state & 0x0200 == pick(state, 9, 0x0200),
        state & 0x0400 == pick(state, 10, 0x0400),
        state & 0x0800 == pick(state, 11, 0x0800),
        state & 0x1000 == pick(state, 12, 0x1000),
        state & 0x2000 == pick(state, 13, 0x2000),
        state & 0x4000 == pick(state, 14, 0x4000),
        state & 0x8000 == pick(state, 15, 0x8000),
        state == combine(
            state,
            0x0001,
            0x0002,
            0x0004,
            0x0008,
            0x0010,
            0x0020,
            0x0040,
            0x0080,
            0x0100,
            0x0200,
            0x0400,
            0x0800,
            0x1000,
            0x2000,
            0x4000,
            0x8000,
        ),
{
}

#[verifier::rlimit(100)]
proof fn lemma_columns_255()
    by (bit_vector)
    ensures
        span_255(0x0001) == 0xA742,
        span_255(0x0002) == 0xE9C7,
        span_255(0x0004) == 0xD38E,
        span_255(0x0008) == 0x005E,
        span_255(0x0010) == 0x00BD,
        span_255(0x0020) == 0x017A,
        span_255(0x0040) == 0x02F4,
        span_255(0x0080) == 0x05E9,
        span_255(0x0100) == 0x0BD3,
        span_255(0x0200) == 0x17A6,
        span_255(0x0400) == 0x2F4D,
        span_255(0x0800) == 0x5E9B,
        span_255(0x1000) == 0x1A74,
        span_255(0x2000) == 0x34E8,
        span_255(0x4000) == 0x69D0,
        span_255(0x8000) == 0xD3A1,
{
}

#[verifier::rlimit(100)]
proof fn lemma_columns_3855()
    by (bit_vector)
    ensures
        span_3855(0x0001) == 0x4F24,
        span_3855(0x0002) == 0xD16C,
        span_3855(0x0004) == 0xA2D8,
        span_3855(0x0008) == 0x0A95,
        span_3855(0x0010) == 0x152B,
        span_3855(0x0020) == 0x2A57,
        span_3855(0x0040) == 0x54AF,
        span_3855(0x0080) == 0xA95E,
        span_3855(0x0100) == 0x52BD,
        span_3855(0x0200) == 0xA57A,
        span_3855(0x0400) == 0x4AF5,
        span_3855(0x0800) == 0x95EB,
        span_3855(0x1000) == 0x64F2,
        span_3855(0x2000) == 0xC9E4,
        span_3855(0x4000) == 0x93C9,
        span_3855(0x8000) == 0x2792,
{
}

#[verifier::rlimit(100)]
proof fn lemma_columns_13107()
    by (bit_vector)
    ensures
        span_13107(0x0001) == 0xB970,
        span_13107(0x0002) == 0xCB90,
        span_13107(0x0004) == 0x9720,
        span_13107(0x0008) == 0x9731,
        span_13107(0x0010) == 0x2E62,
        span_13107(0x0020) == 0x5CC5,
        span_13107(0x0040) == 0xB98B,
        span_13107(0x0080) == 0x7317,
        span_13107(0x0100) == 0xE62E,
        span_13107(0x0200) == 0xCC5C,
        span_13107(0x0400) == 0x98B9,
        span_13107(0x0800) == 0x3173,
        span_13107(0x1000) == 0xDB97,
        span_13107(0x2000) == 0xB72E,
        span_13107(0x4000) == 0x6E5C,
        span_13107(0x8000) == 0xDCB8,
{
}

#[verifier::rlimit(100)]
proof fn lemma_columns_21845()
    by (bit_vector)
    ensures
        span_21845(0x0001) == 0xA500,
        span_21845(0x0002) == 0xEF01,
        span_21845(0x0004) == 0xDE03,
        span_21845(0x0008) == 0x1907,
        span_21845(0x0010) == 0x320F,
        span_21845(0x0020) == 0x641E,
        span_21845(0x0040) == 0xC83D,
        span_21845(0x0080) == 0x907A,
        span_21845(0x0100) == 0x20F5,
        span_21845(0x0200) == 0x41EA,
        span_21845(0x0400) == 0x83D4,
        span_21845(0x0800) == 0x07A8,
        span_21845(0x1000) == 0xAA50,
        span_21845(0x2000) == 0x54A0,
        span_21845(0x4000) == 0xA940,
        span_21845(0x8000) == 0x5280,
{
}

#[verifier::rlimit(100)]
proof fn lemma_columns_65535()
    by (bit_vector)
    ensures
        span_65535(0x0001) == 0x0001,
        span_65535(0x0002) == 0x0002,
        span_65535(0x0004) == 0x0004,
        span_65535(0x0008) == 0x0008,
        span_65535(0x0010) == 0x0010,
        span_65535(0x0020) == 0x0020,
        span_65535(0x0040) == 0x0040,
        span_65535(0x0080) == 0x0080,
        span_65535(0x0100) == 0x0100,
        span_65535(0x0200) == 0x0200,
        span_65535(0x0400) == 0x0400,
        span_65535(0x0800) == 0x0800,
        span_65535(0x1000) == 0x1000,
        span_65535(0x2000) == 0x2000,
        span_65535(0x4000) == 0x4000,
        span_65535(0x8000) == 0x8000,
{
}

proof fn lemma_moves_255(state: u16)
    by (bit_vector)
    requires
        state != 0,
    ensures
        combine(
            state,
            0xA742,
            0xE9C7,
            0xD38E,
            0x005E,
            0x00BD,
            0x017A,
            0x02F4,
            0x05E9,
            0x0BD3,
            0x17A6,
            0x2F4D,
            0x5E9B,
            0x1A74,
            0x34E8,
            0x69D0,
            0xD3A1,
        ) != state,
{
}

proof fn lemma_moves_3855(state: u16)
    by (bit_vector)
    requires
        state != 0,
    ensures
        combine(
            state,
            0x4F24,
            0xD16C,
            0xA2D8,
            0x0A95,
            0x152B,
            0x2A57,
            0x54AF,
            0xA95E,
            0x52BD,
            0xA57A,
            0x4AF5,
            0x95EB,
            0x64F2,
            0xC9E4,
            0x93C9,
            0x2792,
        ) != state,
{
}

proof fn lemma_moves_13107(state: u16)
    by (bit_vector)
    requires
        state != 0,
    ensures
        combine(
            state,
            0xB970,
            0xCB90,
            0x9720,
            0x9731,
            0x2E62,
            0x5CC5,
            0xB98B,
            0x7317,
            0xE62E,
            0xCC5C,
            0x98B9,
            0x3173,
            0xDB97,
            0xB72E,
            0x6E5C,
            0xDCB8,
        ) != state,
{
}

proof fn lemma_moves_21845(state: u16)
    by (bit_vector)
    requires
        state != 0,
    ensures
        combine(
            state,
            0xA500,
            0xEF01,
            0xDE03,
            0x1907,
            0x320F,
            0x641E,
            0xC83D,
            0x907A,
            0x20F5,
            0x41EA,
            0x83D4,
            0x07A8,
            0xAA50,
            0x54A0,
            0xA940,
            0x5280,
        ) != state,
{
}

proof fn lemma_divisors(divisor: u32, quotient: u32)
    by (bit_vector)
    requires
        1 <= divisor < 65535,
        quotient <= 65535,
        quotient * divisor == 65535,
    ensures
        21845u32 % divisor == 0 || 13107u32 % divisor == 0 || 3855u32 % divisor == 0 || 255u32
            % divisor == 0,
{
}

/// Clocks add up: `first + second` clocks are `first` clocks and then
/// `second`.
pub proof fn lemma_run_add(state: u16, first: nat, second: nat)
    ensures
        lfsr_run(state, first + second) == lfsr_run(lfsr_run(state, first), second),
    decreases second,
{
    if second > 0 {
        lemma_run_add(state, first, (second - 1) as nat);
        assert(first + second - 1 == first + (second - 1));
    }
}

/// Clocking is linear over bitwise exclusive or, and keeps zero at zero.
pub proof fn lemma_run_linear(left: u16, right: u16, steps: nat)
    ensures
        lfsr_run(left ^ right, steps) == lfsr_run(left, steps) ^ lfsr_run(right, steps),
        lfsr_run(0, steps) == 0,
    decreases steps,
{
    lemma_step_linear(0, 0);
    if steps > 0 {
        lemma_run_linear(left, right, (steps - 1) as nat);
        lemma_step_linear(
            lfsr_run(left, (steps - 1) as nat),
            lfsr_run(right, (steps - 1) as nat),
        );
    }
}

proof fn lemma_triple(state: u16, steps: nat)
    ensures
        lfsr_run(lfsr_run(lfsr_run(state, steps), steps), steps) == lfsr_run(state, 3 * steps),
{
    lemma_run_add(state, steps, steps);
    lemma_run_add(state, steps + steps, steps);
}

proof fn lemma_quadruple(state: u16, steps: nat)
    ensures
        lfsr_run(lfsr_run(lfsr_run(lfsr_run(state, steps), steps), steps), steps) == lfsr_run(
            state,
            4 * steps,
        ),
{
    lemma_triple(state, steps);
    lemma_run_add(state, 3 * steps, steps);
}

proof fn lemma_hop_1()
    ensures
        forall|state: u16| #[trigger] lfsr_step(state) == lfsr_run(state, 1),
{
    assert forall|state: u16| #[trigger] lfsr_step(state) == lfsr_run(state, 1) by {
        reveal_with_fuel(lfsr_run, 2);
    }
}

proof fn lemma_hop_4()
    ensures
        forall|state: u16| #[trigger] hop_4(state) == lfsr_run(state, 4),
{
    lemma_hop_1();
    assert forall|state: u16| #[trigger] hop_4(state) == lfsr_run(state, 4) by {
        reveal(hop_4);
        lemma_quadruple(state, 1);
    }
}

proof fn lemma_hop_16()
    ensures
        forall|state: u16| #[trigger] hop_16(state) == lfsr_run(state, 16),
{
    lemma_hop_4();
    assert forall|state: u16| #[trigger] hop_16(state) == lfsr_run(state, 16) by {
        reveal(hop_16);
        lemma_quadruple(state, 4);
    }
}

proof fn lemma_hop_64()
    ensures
        forall|state: u16| #[trigger] hop_64(state) == lfsr_run(state, 64),
{
    lemma_hop_16();
    assert forall|state: u16| #[trigger] hop_64(state) == lfsr_run(state, 64) by {
        reveal(hop_64);
        lemma_quadruple(state, 16);
    }
}

proof fn lemma_hop_256()
    ensures
        forall|state: u16| #[trigger] hop_256(state) == lfsr_run(state, 256),
{
    lemma_hop_64();
    assert forall|state: u16| #[trigger] hop_256(state) == lfsr_run(state, 256) by {
        reveal(hop_256);
        lemma_quadruple(state, 64);
    }
}

proof fn lemma_hop_1024()
    ensures
        forall|state: u16| #[trigger] hop_1024(state) == lfsr_run(state, 1024),
{
    lemma_hop_256();
    assert forall|state: u16| #[trigger] hop_1024(state) == lfsr_run(state, 1024) by {
        reveal(hop_1024);
        lemma_quadruple(state, 256);
    }
}

proof fn lemma_hop_4096()
    ensures
        forall|state: u16| #[trigger] hop_4096(state) == lfsr_run(state, 4096),
{
    lemma_hop_1024();
    assert forall|state: u16| #[trigger] hop_4096(state) == lfsr_run(state, 4096) by {
        reveal(hop_4096);
        lemma_quadruple(state, 1024);
    }
}

proof fn lemma_hop_16384()
    ensures
        forall|state: u16| #[trigger] hop_16384(state) == lfsr_run(state, 16384),
{
    lemma_hop_4096();
    assert forall|state: u16| #[trigger] hop_16384(state) == lfsr_run(state, 16384) by {
        reveal(hop_16384);
        lemma_quadruple(state, 4096);
    }
}

proof fn lemma_span_255()
    ensures
        forall|state: u16| #[trigger] span_255(state) == lfsr_run(state, 255),
{
    lemma_hop_1();
    lemma_hop_4();
    lemma_hop_16();
    lemma_hop_64();
    assert forall|state: u16| #[trigger] span_255(state) == lfsr_run(state, 255) by {
        reveal(span_255);
        let s0 = lfsr_run(state, 3);
        lemma_triple(state, 1);
        assert(lfsr_step(lfsr_step(lfsr_step(state))) == s0);
        assert(s0 == lfsr_run(state, 3));
        let s1 = lfsr_run(s0, 12);
        lemma_triple(s0, 4);
        assert(hop_4(hop_4(hop_4(s0))) == s1);
        lemma_run_add(state, 3, 12);
        assert(s1 == lfsr_run(state, 15));
        let s2 = lfsr_run(s1, 48);
        lemma_triple(s1, 16);
        assert(hop_16(hop_16(hop_16(s1))) == s2);
        lemma_run_add(state, 15, 48);
        assert(s2 == lfsr_run(state, 63));
        let s3 = lfsr_run(s2, 192);
        lemma_triple(s2, 64);
        assert(hop_64(hop_64(hop_64(s2))) == s3);
        lemma_run_add(state, 63, 192);
        assert(s3 == lfsr_run(state, 255));
    }
}

proof fn lemma_span_3855()
    ensures
        forall|state: u16| #[trigger] span_3855(state) == lfsr_run(state, 3855),
{
    lemma_hop_1();
    lemma_hop_4();
    lemma_hop_256();
    lemma_hop_1024();
    assert forall|state: u16| #[trigger] span_3855(state) == lfsr_run(state, 3855) by {
        reveal(span_3855);
        let s0 = lfsr_run(state, 3);
        lemma_triple(state, 1);
        assert(lfsr_step(lfsr_step(lfsr_step(state))) == s0);
        assert(s0 == lfsr_run(state, 3));
        let s1 = lfsr_run(s0, 12);
        lemma_triple(s0, 4);
        assert(hop_4(hop_4(hop_4(s0))) == s1);
        lemma_run_add(state, 3, 12);
        assert(s1 == lfsr_run(state, 15));
        let s2 = lfsr_run(s1, 768);
        lemma_triple(s1, 256);
        assert(hop_256(hop_256(hop_256(s1))) == s2);
        lemma_run_add(state, 15, 768);
        assert(s2 == lfsr_run(state, 783));
        let s3 = lfsr_run(s2, 3072);
        lemma_triple(s2, 1024);
        assert(hop_1024(hop_1024(hop_1024(s2))) == s3);
        lemma_run_add(state, 783, 3072);
        assert(s3 == lfsr_run(state, 3855));
    }
}

proof fn lemma_span_13107()
    ensures
        forall|state: u16| #[trigger] span_13107(state) == lfsr_run(state, 13107),
{
    lemma_hop_1();
    lemma_hop_16();
    lemma_hop_256();
    lemma_hop_4096();
    assert forall|state: u16| #[trigger] span_13107(state) == lfsr_run(state, 13107) by {
        reveal(span_13107);
        let s0 = lfsr_run(state, 3);
        lemma_triple(state, 1);
        assert(lfsr_step(lfsr_step(lfsr_step(state))) == s0);
        assert(s0 == lfsr_run(state, 3));
        let s1 = lfsr_run(s0, 48);
        lemma_triple(s0, 16);
        assert(hop_16(hop_16(hop_16(s0))) == s1);
        lemma_run_add(state, 3, 48);
        assert(s1 == lfsr_run(state, 51));
        let s2 = lfsr_run(s1, 768);
        lemma_triple(s1, 256);
        assert(hop_256(hop_256(hop_256(s1))) == s2);
        lemma_run_add(state, 51, 768);
        assert(s2 == lfsr_run(state, 819));
        let s3 = lfsr_run(s2, 12288);
        lemma_triple(s2, 4096);
        assert(hop_4096(hop_4096(hop_4096(s2))) == s3);
        lemma_run_add(state, 819, 12288);
        assert(s3 == lfsr_run(state, 13107));
    }
}

proof fn lemma_span_21845()
    ensures
        forall|state: u16| #[trigger] span_21845(state) == lfsr_run(state, 21845),
{
    lemma_hop_1();
    lemma_hop_4();
    lemma_hop_16();
    lemma_hop_64();
    lemma_hop_256();
    lemma_hop_1024();
    lemma_hop_4096();
    lemma_hop_16384();
    assert forall|state: u16| #[trigger] span_21845(state) == lfsr_run(state, 21845) by {
        reveal(span_21845);
        let s0 = lfsr_run(state, 1);
        assert(lfsr_step(state) == s0);
        assert(s0 == lfsr_run(state, 1));
        let s1 = lfsr_run(s0, 4);
        assert(hop_4(s0) == s1);
        lemma_run_add(state, 1, 4);
        assert(s1 == lfsr_run(state, 5));
        let s2 = lfsr_run(s1, 16);
        assert(hop_16(s1) == s2);
        lemma_run_add(state, 5, 16);
        assert(s2 == lfsr_run(state, 21));
        let s3 = lfsr_run(s2, 64);
        assert(hop_64(s2) == s3);
        lemma_run_add(state, 21, 64);
        assert(s3 == lfsr_run(state, 85));
        let s4 = lfsr_run(s3, 256);
        assert(hop_256(s3) == s4);
        lemma_run_add(state, 85, 256);
        assert(s4 == lfsr_run(state, 341));
        let s5 = lfsr_run(s4, 1024);
        assert(hop_1024(s4) == s5);
        lemma_run_add(state, 341, 1024);
        assert(s5 == lfsr_run(state, 1365));
        let s6 = lfsr_run(s5, 4096);
        assert(hop_4096(s5) == s6);
        lemma_run_add(state, 1365, 4096);
        assert(s6 == lfsr_run(state, 5461));
        let s7 = lfsr_run(s6, 16384);
        assert(hop_16384(s6) == s7);
        lemma_run_add(state, 5461, 16384);
        assert(s7 == lfsr_run(state, 21845));
    }
}

proof fn lemma_span_65535()
    ensures
        forall|state: u16| #[trigger] span_65535(state) == lfsr_run(state, 65535),
{
    lemma_hop_1();
    lemma_hop_4();
    lemma_hop_16();
    lemma_hop_64();
    lemma_hop_256();
    lemma_hop_1024();
    lemma_hop_4096();
    lemma_hop_16384();
    assert forall|state: u16| #[trigger] span_65535(state) == lfsr_run(state, 65535) by {
        reveal(span_65535);
        let s0 = lfsr_run(state, 3);
        lemma_triple(state, 1);
        assert(lfsr_step(lfsr_step(lfsr_step(state))) == s0);
        assert(s0 == lfsr_run(state, 3));
        let s1 = lfsr_run(s0, 12);
        lemma_triple(s0, 4);
        assert(hop_4(hop_4(hop_4(s0))) == s1);
        lemma_run_add(state, 3, 12);
        assert(s1 == lfsr_run(state, 15));
        let s2 = lfsr_run(s1, 48);
        lemma_triple(s1, 16);
        assert(hop_16(hop_16(hop_16(s1))) == s2);
        lemma_run_add(state, 15, 48);
        assert(s2 == lfsr_run(state, 63));
        let s3 = lfsr_run(s2, 192);
        lemma_triple(s2, 64);
        assert(hop_64(hop_64(hop_64(s2))) == s3);
        lemma_run_add(state, 63, 192);
        assert(s3 == lfsr_run(state, 255));
        let s4 = lfsr_run(s3, 768);
        lemma_triple(s3, 256);
        assert(hop_256(hop_256(hop_256(s3))) == s4);
        lemma_run_add(state, 255, 768);
        assert(s4 == lfsr_run(state, 1023));
        let s5 = lfsr_run(s4, 3072);
        lemma_triple(s4, 1024);
        assert(hop_1024(hop_1024(hop_1024(s4))) == s5);
        lemma_run_add(state, 1023, 3072);
        assert(s5 == lfsr_run(state, 4095));
        let s6 = lfsr_run(s5, 12288);
        lemma_triple(s5, 4096);
        assert(hop_4096(hop_4096(hop_4096(s5))) == s6);
        lemma_run_add(state, 4095, 12288);
        assert(s6 == lfsr_run(state, 16383));
        let s7 = lfsr_run(s6, 49152);
        lemma_triple(s6, 16384);
        assert(hop_16384(hop_16384(hop_16384(s6))) == s7);
        lemma_run_add(state, 16383, 49152);
        assert(s7 == lfsr_run(state, 65535));
    }
}

/// What any number of clocks does to a state is the exclusive or of what
/// it does to the single bits that are set in the state.
pub proof fn lemma_run_by_columns(state: u16, steps: nat)
    ensures
        lfsr_run(state, steps) == combine(
            state,
            lfsr_run(0x0001, steps),
            lfsr_run(0x0002, steps),
            lfsr_run(0x0004, steps),
            lfsr_run(0x0008, steps),
            lfsr_run(0x0010, steps),
            lfsr_run(0x0020, steps),
            lfsr_run(0x0040, steps),
            lfsr_run(0x0080, steps),
            lfsr_run(0x0100, steps),
            lfsr_run(0x0200, steps),
            lfsr_run(0x0400, steps),
            lfsr_run(0x0800, steps),
            lfsr_run(0x1000, steps),
            lfsr_run(0x2000, steps),
            lfsr_run(0x4000, steps),
            lfsr_run(0x8000, steps),
        ),
{
    lemma_bits(state);
    lemma_run_linear(0, 0, steps);
    let p0 = state & 0x0001;
    let p1 = state & 0x0002;
    let p2 = state & 0x0004;
    let p3 = state & 0x0008;
    let p4 = state & 0x0010;
    let p5 = state & 0x0020;
    let p6 = state & 0x0040;
    let p7 = state & 0x0080;
    let p8 = state & 0x0100;
    let p9 = state & 0x0200;
    let p10 = state & 0x0400;
    let p11 = state & 0x0800;
    let p12 = state & 0x1000;
    let p13 = state & 0x2000;
    let p14 = state & 0x4000;
    let p15 = state & 0x8000;
    let r15 = p15;
    let r14 = p14 ^ r15;
    let r13 = p13 ^ r14;
    let r12 = p12 ^ r13;
    let r11 = p11 ^ r12;
    let r10 = p10 ^ r11;
    let r9 = p9 ^ r10;
    let r8 = p8 ^ r9;
    let r7 = p7 ^ r8;
    let r6 = p6 ^ r7;
    let r5 = p5 ^ r6;
    let r4 = p4 ^ r5;
    let r3 = p3 ^ r4;
    let r2 = p2 ^ r3;
    let r1 = p1 ^ r2;
    let r0 = p0 ^ r1;
    assert(state == r0);
    lemma_run_linear(p0, r1, steps);
    lemma_run_linear(p1, r2, steps);
    lemma_run_linear(p2, r3, steps);
    lemma_run_linear(p3, r4, steps);
    lemma_run_linear(p4, r5, steps);
    lemma_run_linear(p5, r6, steps);
    lemma_run_linear(p6, r7, steps);
    lemma_run_linear(p7, r8, steps);
    lemma_run_linear(p8, r9, steps);
    lemma_run_linear(p9, r10, steps);
    lemma_run_linear(p10, r11, steps);
    lemma_run_linear(p11, r12, steps);
    lemma_run_linear(p12, r13, steps);
    lemma_run_linear(p13, r14, steps);
    lemma_run_linear(p14, r15, steps);
    assert(lfsr_run(p0, steps) == pick(state, 0, lfsr_run(0x0001, steps)));
    assert(lfsr_run(p1, steps) == pick(state, 1, lfsr_run(0x0002, steps)));
    assert(lfsr_run(p2, steps) == pick(state, 2, lfsr_run(0x0004, steps)));
    assert(lfsr_run(p3, steps) == pick(state, 3, lfsr_run(0x0008, steps)));
    assert(lfsr_run(p4, steps) == pick(state, 4, lfsr_run(0x0010, steps)));
    assert(lfsr_run(p5, steps) == pick(state, 5, lfsr_run(0x0020, steps)));
    assert(lfsr_run(p6, steps) == pick(state, 6, lfsr_run(0x0040, steps)));
    assert(lfsr_run(p7, steps) == pick(state, 7, lfsr_run(0x0080, steps)));
    assert(lfsr_run(p8, steps) == pick(state, 8, lfsr_run(0x0100, steps)));
    assert(lfsr_run(p9, steps) == pick(state, 9, lfsr_run(0x0200, steps)));
    assert(lfsr_run(p10, steps) == pick(state, 10, lfsr_run(0x0400, steps)));
    assert(lfsr_run(p11, steps) == pick(state, 11, lfsr_run(0x0800, steps)));
    assert(lfsr_run(p12, steps) == pick(state, 12, lfsr_run(0x1000, steps)));
    assert(lfsr_run(p13, steps) == pick(state, 13, lfsr_run(0x2000, steps)));
    assert(lfsr_run(p14, steps) == pick(state, 14, lfsr_run(0x4000, steps)));
    assert(lfsr_run(p15, steps) == pick(state, 15, lfsr_run(0x8000, steps)));
}

/// After 65535 clocks the register holds what it held.
pub proof fn lemma_full_cycle(state: u16)
    ensures
        lfsr_run(state, 65535) == state,
{
    lemma_run_by_columns(state, 65535);
    lemma_span_65535();
    lemma_columns_65535();
    lemma_bits(state);
}

proof fn lemma_not_fixed_255(state: u16)
    requires
        state != 0,
    ensures
        lfsr_run(state, 255) != state,
{
    lemma_run_by_columns(state, 255);
    lemma_span_255();
    lemma_columns_255();
    lemma_moves_255(state);
}

proof fn lemma_not_fixed_3855(state: u16)
    requires
        state != 0,
    ensures
        lfsr_run(state, 3855) != state,
{
    lemma_run_by_columns(state, 3855);
    lemma_span_3855();
    lemma_columns_3855();
    lemma_moves_3855(state);
}

proof fn lemma_not_fixed_13107(state: u16)
    requires
        state != 0,
    ensures
        lfsr_run(state, 13107) != state,
{
    lemma_run_by_columns(state, 13107);
    lemma_span_13107();
    lemma_columns_13107();
    lemma_moves_13107(state);
}

proof fn lemma_not_fixed_21845(state: u16)
    requires
        state != 0,
    ensures
        lfsr_run(state, 21845) != state,
{
    lemma_run_by_columns(state, 21845);
    lemma_span_21845();
    lemma_columns_21845();
    lemma_moves_21845(state);
}

proof fn lemma_multiple(state: u16, steps: nat, times: nat)
    requires
        lfsr_run(state, steps) == state,
    ensures
        lfsr_run(state, times * steps) == state,
    decreases times,
{
    if times > 0 {
        lemma_multiple(state, steps, (times - 1) as nat);
        assert(times * steps == (times - 1) * steps + steps) by (nonlinear_arith);
        lemma_run_add(state, ((times - 1) * steps) as nat, steps);
    } else {
        assert(times * steps == 0) by (nonlinear_arith)
            requires
                times == 0,
        ;
    }
}

proof fn lemma_divides(state: u16, steps: nat, total: nat)
    requires
        steps > 0,
        total % steps == 0,
        lfsr_run(state, steps) == state,
    ensures
        lfsr_run(state, total) == state,
{
    let times: nat = total / steps;
    assert(total == times * steps) by (nonlinear_arith)
        requires
            steps > 0,
            total % steps == 0,
            times == total / steps,
    ;
    lemma_multiple(state, steps, times);
}

/// A register that holds anything but zero does not return to what it
/// holds in fewer than 65535 clocks.
pub proof fn lemma_no_shorter_cycle(state: u16, steps: nat)
    requires
        state != 0,
        0 < steps < 65535,
    ensures
        lfsr_run(state, steps) != state,
    decreases steps,
{
    if lfsr_run(state, steps) == state {
        let times: nat = 65535nat / steps;
        let rest: nat = 65535nat % steps;
        assert(65535 == times * steps + rest && 0 <= rest < steps && 0 < times <= 65535)
            by (nonlinear_arith)
            requires
                0 < steps < 65535,
                times == 65535nat / steps,
                rest == 65535nat % steps,
        ;
        lemma_multiple(state, steps, times);
        lemma_run_add(state, times * steps, rest);
        lemma_full_cycle(state);
        assert(lfsr_run(state, rest) == state);
        if rest > 0 {
            lemma_no_shorter_cycle(state, rest);
        } else {
            let divisor = steps as u32;
            let quotient = times as u32;
            assert(quotient * divisor == 65535);
            lemma_divisors(divisor, quotient);
            lemma_not_fixed_255(state);
            lemma_not_fixed_3855(state);
            lemma_not_fixed_13107(state);
            lemma_not_fixed_21845(state);
            if 21845nat % steps == 0 {
                lemma_divides(state, steps, 21845);
            } else if 13107nat % steps == 0 {
                lemma_divides(state, steps, 13107);
            } else if 3855nat % steps == 0 {
                lemma_divides(state, steps, 3855);
            } else {
                lemma_divides(state, steps, 255);
            }
        }
    }
}

/// From any seed but zero the register returns to the seed after exactly
/// 65535 clocks: it holds the seed again then, and at no clock before.
pub proof fn lemma_lfsr_period(seed: u16)
    requires
        seed != 0,
    ensures
        lfsr_run(seed, 65535) == seed,
        forall|steps: nat| 0 < steps < 65535 ==> lfsr_run(seed, steps) != seed,
{
    lemma_full_cycle(seed);
    assert forall|steps: nat| 0 < steps < 65535 implies lfsr_run(seed, steps) != seed by {
        lemma_no_shorter_cycle(seed, steps);
    }
}

} // verus!
