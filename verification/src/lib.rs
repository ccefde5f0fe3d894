//! A simulator core for a 16-bit teaching computer with variable-length
//! instructions and an on-chip pseudo-random number generator.
//!
//! - [`reader`] builds a memory image from the bytes of image files.
//! - [`tokenizer`] decodes one or two words into an instruction.
//! - [`machine`] holds the state of the machine and carries out
//!   instructions. It owns no terminal: a step tells the host what to write
//!   or to read.
//! - [`prng`] is the random number generator, and [`hardware`] the variant
//!   that gives out its feedback bits.
//! - [`laws`] and [`period`] state what holds of every instruction and of
//!   the generator's registers.
//! - [`word`] and [`text`] hold the two readings of a machine word and the
//!   numbers as text.

pub mod hardware;
pub mod laws;
pub mod machine;
mod narrow;
pub mod period;
pub mod prng;
pub mod reader;
pub mod text;
pub mod tokenizer;
pub mod word;
