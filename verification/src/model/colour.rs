//! Colours of roles.

use vstd::prelude::*;

verus! {

/// A colour as red, green and blue in the low 24 bits. The value 0 is the
/// colour of a role that has none of its own.
#[derive(Clone, Copy, Debug, PartialEq, Eq, Structural, Hash)]
pub struct Colour(pub u32);

impl Colour {
    /// The colour with the given bits.
    pub fn new(value: u32) -> (c: Self)
        ensures
            c.0 == value,
    {
        Colour(value)
    }
}

impl Default for Colour {
    fn default() -> (c: Self)
        ensures
            c.0 == 0,
    {
        Colour(0)
    }
}

} // verus!
