//! The audit log of a guild.

use vstd::prelude::*;

verus! {

/// A kind of action that the audit log records, by its number.
#[derive(Clone, Copy, Debug, PartialEq, Eq, Structural, Hash)]
pub struct Action(pub u8);

impl Action {
    /// The number of the action.
    pub fn num(self) -> (n: u8)
        ensures
            n == self.0,
    {
        self.0
    }
}

} // verus!
