//! The on-chip pseudo-random number generator: a 16-bit linear-feedback shift
//! register and the alternating step generator built from three of them.

use vstd::prelude::*;

verus! {

/// Bit `index` of `word`, counted from the least significant bit.
pub open spec fn tap(word: u16, index: u16) -> bool {
    (word >> index) & 1 == 1
}

/// The bit fed back into position 15: the exclusive or of taps 0, 1, 3 and 12.
pub open spec fn lfsr_feedback(state: u16) -> bool {
    tap(state, 0) ^ tap(state, 1) ^ tap(state, 3) ^ tap(state, 12)
}

/// The register after one clock: every bit moves one place down and the
/// feedback bit enters at the top.
pub open spec fn lfsr_step(state: u16) -> u16 {
    (state / 2 + if lfsr_feedback(state) { 0x8000int } else { 0int }) as u16
}

/// The bit that one clock pushes out of the register: its lowest bit.
pub open spec fn lfsr_output(state: u16) -> u16 {
    state % 2
}

/// The register after `steps` clocks.
pub open spec fn lfsr_run(state: u16, steps: nat) -> u16
    decreases steps,
{
    if steps == 0 {
        state
    } else {
        lfsr_step(lfsr_run(state, (steps - 1) as nat))
    }
}

proof fn lemma_clock_bits(state: u16)
    by (bit_vector)
    ensures
        state & 1 == lfsr_output(state),
        (state >> 1) | (((state ^ (state >> 1) ^ (state >> 3) ^ (state >> 12)) & 1) << 15)
            == lfsr_step(state),
        state != 0 ==> lfsr_step(state) != 0,
{
}

/// A register seeded with anything but zero never comes to hold zero.
pub proof fn lemma_lfsr_never_zero(seed: u16, steps: nat)
    requires
        seed != 0,
    ensures
        lfsr_run(seed, steps) != 0,
    decreases steps,
{
    if steps > 0 {
        lemma_lfsr_never_zero(seed, (steps - 1) as nat);
        lemma_clock_bits(lfsr_run(seed, (steps - 1) as nat));
    }
}

/// A 16-bit Fibonacci linear-feedback shift register.
#[derive(PartialEq, Eq, Structural, Clone, Copy, Debug)]
pub struct LFSR {
    state: u16,
}

impl View for LFSR {
    type V = u16;

    closed spec fn view(&self) -> u16 {
        self.state
    }
}

impl LFSR {
    /// A register holding zero, which it keeps until it is seeded.
    pub fn new() -> (lfsr: LFSR)
        ensures
            lfsr@ == 0,
    {
        LFSR { state: 0 }
    }

    /// Replaces the register's contents.
    pub fn set_seed(&mut self, seed: u16)
        ensures
            final(self)@ == seed,
    {
        self.state = seed;
    }

    /// Clocks the register once and returns the bit pushed out, as 0 or 1.
    pub fn clock(&mut self) -> (out: u16)
        ensures
            out == lfsr_output(old(self)@),
            final(self)@ == lfsr_step(old(self)@),
            old(self)@ != 0 ==> final(self)@ != 0,
    {
        proof {
            lemma_clock_bits(self.state);
        }
        let out: u16 = self.state & 0b1;
        let bit: u16 = (self.state ^ (self.state >> 1) ^ (self.state >> 3) ^ (self.state >> 12))
            & 0b1;
        self.state = (self.state >> 1) | (bit << 15);
        out
    }
}

/// The contents of the three registers of an alternating step generator.
pub struct AsgState {
    pub clock: u16,
    pub first: u16,
    pub second: u16,
}

/// The generator after one clock: the clock register always steps, and its
/// output bit selects which of the other two steps with it.
pub open spec fn asg_step(state: AsgState) -> AsgState {
    if lfsr_output(state.clock) == 1 {
        AsgState {
            clock: lfsr_step(state.clock),
            first: lfsr_step(state.first),
            second: state.second,
        }
    } else {
        AsgState {
            clock: lfsr_step(state.clock),
            first: state.first,
            second: lfsr_step(state.second),
        }
    }
}

/// The bit that one clock of the generator yields: the output of the register
/// that the clock register selects.
pub open spec fn asg_output(state: AsgState) -> u16 {
    if lfsr_output(state.clock) == 1 {
        lfsr_output(state.first)
    } else {
        lfsr_output(state.second)
    }
}

/// The generator after `steps` clocks.
pub open spec fn asg_run(state: AsgState, steps: nat) -> AsgState
    decreases steps,
{
    if steps == 0 {
        state
    } else {
        asg_step(asg_run(state, (steps - 1) as nat))
    }
}

/// The number whose binary digits, most significant first, are the first
/// `count` output bits of the generator.
pub open spec fn asg_word(state: AsgState, count: nat) -> int
    decreases count,
{
    if count == 0 {
        0
    } else {
        2 * asg_word(state, (count - 1) as nat) + asg_output(
            asg_run(state, (count - 1) as nat),
        )
    }
}

proof fn lemma_shift_in(word: u16, bit: u16)
    by (bit_vector)
    requires
        word < 0x8000,
        bit <= 1,
    ensures
        (word << 1) | bit == 2 * word + bit,
{
}

proof fn lemma_asg_word_bound(state: AsgState, count: nat)
    ensures
        0 <= asg_word(state, count) < vstd::arithmetic::power2::pow2(count),
    decreases count,
{
    vstd::arithmetic::power2::lemma2_to64();
    if count > 0 {
        lemma_asg_word_bound(state, (count - 1) as nat);
        vstd::arithmetic::power2::lemma_pow2_unfold(count);
    }
}

/// The output bits stand in the word in the order in which the generator
/// yields them, the first in the highest place: of a word of `count` bits,
/// the binary digit `count - 1 - index` places from the right is the bit
/// that clock `index` yields.
pub proof fn lemma_asg_word_digit(state: AsgState, count: nat, index: nat)
    requires
        index < count,
    ensures
        (asg_word(state, count) / vstd::arithmetic::power2::pow2((count - 1 - index) as nat) as int)
            % 2 == asg_output(asg_run(state, index)),
    decreases count,
{
    let before = asg_word(state, (count - 1) as nat);
    let last = asg_output(asg_run(state, (count - 1) as nat)) as int;
    lemma_asg_word_bound(state, (count - 1) as nat);
    assert(asg_word(state, count) == 2 * before + last);
    assert(0 <= last < 2);
    if index == count - 1 {
        vstd::arithmetic::power2::lemma2_to64();
        assert((2 * before + last) / 1 % 2 == last) by (nonlinear_arith)
            requires
                0 <= last < 2,
        ;
    } else {
        lemma_asg_word_digit(state, (count - 1) as nat, index);
        let place = vstd::arithmetic::power2::pow2((count - 2 - index) as nat) as int;
        vstd::arithmetic::power2::lemma_pow2_pos((count - 2 - index) as nat);
        vstd::arithmetic::power2::lemma_pow2_unfold((count - 1 - index) as nat);
        assert(vstd::arithmetic::power2::pow2((count - 1 - index) as nat) == 2 * place);
        assert((2 * before + last) / (2 * place) == before / place) by (nonlinear_arith)
            requires
                0 <= last < 2,
                0 <= before,
                place > 0,
        ;
    }
}

/// An alternating step generator over three linear-feedback shift registers.
#[derive(PartialEq, Eq, Structural, Clone, Copy, Debug)]
pub struct ASG {
    clock: LFSR,
    first: LFSR,
    second: LFSR,
}

impl View for ASG {
    type V = AsgState;

    closed spec fn view(&self) -> AsgState {
        AsgState { clock: self.clock@, first: self.first@, second: self.second@ }
    }
}

impl ASG {
    /// A generator whose three registers hold zero.
    pub fn new() -> (asg: ASG)
        ensures
            asg@ == (AsgState { clock: 0, first: 0, second: 0 }),
    {
        ASG { clock: LFSR::new(), first: LFSR::new(), second: LFSR::new() }
    }

    /// Seeds the three registers.
    pub fn set_seed(&mut self, clock: u16, first: u16, second: u16)
        ensures
            final(self)@ == (AsgState { clock, first, second }),
    {
        self.clock.set_seed(clock);
        self.first.set_seed(first);
        self.second.set_seed(second);
    }

    /// Clocks the generator once and returns its output bit, as 0 or 1.
    pub fn clock(&mut self) -> (out: u16)
        ensures
            out == asg_output(old(self)@),
            final(self)@ == asg_step(old(self)@),
    {
        if self.clock.clock() == 1 {
            self.first.clock()
        } else {
            self.second.clock()
        }
    }

    /// Clocks the generator sixteen times and returns the sixteen output bits
    /// as one word, the first bit in the most significant place.
    pub fn clock_16(&mut self) -> (out: u16)
        ensures
            out == asg_word(old(self)@, 16),
            final(self)@ == asg_run(old(self)@, 16),
    {
        let mut out: u16 = 0;
        let mut count: u8 = 0;
        while count < 16
            invariant
                count <= 16,
                out == asg_word(old(self)@, count as nat),
                self@ == asg_run(old(self)@, count as nat),
            decreases 16 - count,
        {
            proof {
                lemma_asg_word_bound(old(self)@, count as nat);
                vstd::arithmetic::power2::lemma2_to64();
                vstd::arithmetic::power2::lemma_pow2_strictly_increases(count as nat, 16);
            }
            let bit: u16 = self.clock();
            proof {
                lemma_shift_in(out, bit);
            }
            out = (out << 1) | bit;
            count = count + 1;
        }
        out
    }
}

} // verus!
