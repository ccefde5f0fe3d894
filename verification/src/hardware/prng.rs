//! The random number generator as the hardware wires it: each register
//! gives out the bit that it feeds back, sixteen clocks before that bit
//! would leave the register at the low end.

use vstd::prelude::*;
use crate::prng::{lfsr_feedback, lfsr_output, lfsr_run, lfsr_step, AsgState};

verus! {

/// The bit that one clock feeds back into the register, as 0 or 1.
pub open spec fn feedback_bit(state: u16) -> u16 {
    if lfsr_feedback(state) {
        1
    } else {
        0
    }
}

proof fn lemma_clock_bits(state: u16)
    by (bit_vector)
    ensures
        (state ^ (state >> 1) ^ (state >> 3) ^ (state >> 12)) & 1 == feedback_bit(state),
        (state >> 1) | (((state ^ (state >> 1) ^ (state >> 3) ^ (state >> 12)) & 1) << 15)
            == lfsr_step(state),
{
}

proof fn lemma_delay(
    s0: u16,
    s1: u16,
    s2: u16,
    s3: u16,
    s4: u16,
    s5: u16,
    s6: u16,
    s7: u16,
    s8: u16,
    s9: u16,
    s10: u16,
    s11: u16,
    s12: u16,
    s13: u16,
    s14: u16,
    s15: u16,
    s16: u16,
)
    by (bit_vector)
    requires
        s1 == lfsr_step(s0),
        s2 == lfsr_step(s1),
        s3 == lfsr_step(s2),
        s4 == lfsr_step(s3),
        s5 == lfsr_step(s4),
        s6 == lfsr_step(s5),
        s7 == lfsr_step(s6),
        s8 == lfsr_step(s7),
        s9 == lfsr_step(s8),
        s10 == lfsr_step(s9),
        s11 == lfsr_step(s10),
        s12 == lfsr_step(s11),
        s13 == lfsr_step(s12),
        s14 == lfsr_step(s13),
        s15 == lfsr_step(s14),
        s16 == lfsr_step(s15),
    ensures
        lfsr_output(s16) == feedback_bit(s0),
{
}

/// The bit that a clock feeds back is the bit that leaves the register at
/// the low end sixteen clocks later.
pub proof fn lemma_feedback_leaves_later(state: u16)
    ensures
        feedback_bit(state) == lfsr_output(lfsr_run(state, 16)),
{
    reveal_with_fuel(lfsr_run, 17);
    lemma_delay(
        state,
        lfsr_run(state, 1),
        lfsr_run(state, 2),
        lfsr_run(state, 3),
        lfsr_run(state, 4),
        lfsr_run(state, 5),
        lfsr_run(state, 6),
        lfsr_run(state, 7),
        lfsr_run(state, 8),
        lfsr_run(state, 9),
        lfsr_run(state, 10),
        lfsr_run(state, 11),
        lfsr_run(state, 12),
        lfsr_run(state, 13),
        lfsr_run(state, 14),
        lfsr_run(state, 15),
        lfsr_run(state, 16),
    );
}

/// A 16-bit linear-feedback shift register that gives out its feedback bit.
#[derive(PartialEq, Eq, Structural, Clone, Copy, Debug)]
pub struct LFSR {
    state: u16,
}

impl View for LFSR {
    type V = u16;

    closed spec fn view(&self) -> u16 {
        self.state
    }
}

impl LFSR {
    /// A register holding zero, which it keeps until it is seeded.
    pub fn new() -> (lfsr: LFSR)
        ensures
            lfsr@ == 0,
    {
        LFSR { state: 0 }
    }

    /// Replaces the register's contents.
    pub fn set_seed(&mut self, seed: u16)
        ensures
            final(self)@ == seed,
    {
        self.state = seed;
    }

    /// Clocks the register once and returns the bit fed back, as 0 or 1.
    pub fn clock(&mut self) -> (bit: u16)
        ensures
            bit == feedback_bit(old(self)@),
            final(self)@ == lfsr_step(old(self)@),
    {
        proof {
            lemma_clock_bits(self.state);
        }
        let bit: u16 = (self.state ^ (self.state >> 1) ^ (self.state >> 3) ^ (self.state >> 12))
            & 0b1;
        self.state = (self.state >> 1) | (bit << 15);
        return bit;
    }
}

/// The generator after one clock: the clock register always steps, and the
/// bit it feeds back selects which of the other two steps with it.
pub open spec fn asg_step(state: AsgState) -> AsgState {
    if feedback_bit(state.clock) == 1 {
        AsgState {
            clock: lfsr_step(state.clock),
            first: lfsr_step(state.first),
            second: state.second,
        }
    } else {
        AsgState {
            clock: lfsr_step(state.clock),
            first: state.first,
            second: lfsr_step(state.second),
        }
    }
}

/// The bit that one clock of the generator yields: the feedback bit of the
/// register that the clock register selects.
pub open spec fn asg_output(state: AsgState) -> u16 {
    if feedback_bit(state.clock) == 1 {
        feedback_bit(state.first)
    } else {
        feedback_bit(state.second)
    }
}

/// An alternating step generator over three registers that give out their
/// feedback bits.
#[derive(PartialEq, Eq, Structural, Clone, Copy, Debug)]
pub struct ASG {
    clock: LFSR,
    first: LFSR,
    second: LFSR,
}

impl View for ASG {
    type V = AsgState;

    closed spec fn view(&self) -> AsgState {
        AsgState { clock: self.clock@, first: self.first@, second: self.second@ }
    }
}

impl ASG {
    /// A generator whose three registers hold zero.
    pub fn new() -> (asg: ASG)
        ensures
            asg@ == (AsgState { clock: 0, first: 0, second: 0 }),
    {
        ASG { clock: LFSR::new(), first: LFSR::new(), second: LFSR::new() }
    }

    /// Seeds the three registers.
    pub fn set_seed(&mut self, clock: u16, first: u16, second: u16)
        ensures
            final(self)@ == (AsgState { clock, first, second }),
    {
        self.clock.set_seed(clock);
        self.first.set_seed(first);
        self.second.set_seed(second);
    }

    /// Clocks the generator once and returns its output bit, as 0 or 1.
    pub fn clock(&mut self) -> (out: u16)
        ensures
            out == asg_output(old(self)@),
            final(self)@ == asg_step(old(self)@),
    {
        if self.clock.clock() == 1 {
            return self.first.clock();
        } else {
            return self.second.clock();
        }
    }
}

} // verus!
