//! The generator as the hardware wires it.

pub mod prng;
