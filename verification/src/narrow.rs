//! Range-checked narrow integers, carried by the `ux` crate.

use vstd::prelude::*;

verus! {

/// Builds a `ux::u3` with `ux::u3::new` and widens it again with `u8::from`.
/// The constructor panics on a value above 7, which the precondition
/// excludes; the widening conversion is lossless, so the value comes back
/// unchanged.
#[verifier::external_body]
pub(crate) fn u3_value(value: u8) -> (out: u8)
    requires
        value <= 7,
    ensures
        out == value,
{
    u8::from(ux::u3::new(value))
}

/// Builds a `ux::i3` with `ux::i3::new` and widens it again with `i8::from`.
/// The constructor panics outside -4..=3, which the precondition excludes;
/// the widening conversion is lossless, so the value comes back unchanged.
#[verifier::external_body]
pub(crate) fn i3_value(value: i8) -> (out: i8)
    requires
        -4 <= value <= 3,
    ensures
        out == value,
{
    i8::from(ux::i3::new(value))
}

/// Builds a `ux::i7` with `ux::i7::new` and widens it again with `i8::from`.
/// The constructor panics outside -64..=63, which the precondition excludes;
/// the widening conversion is lossless, so the value comes back unchanged.
#[verifier::external_body]
pub(crate) fn i7_value(value: i8) -> (out: i8)
    requires
        -64 <= value <= 63,
    ensures
        out == value,
{
    i8::from(ux::i7::new(value))
}

} // verus!
