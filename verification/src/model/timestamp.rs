//! Points in time as the API gives them.

use vstd::prelude::*;

verus! {

/// A point in time: seconds since the start of 1970, UTC.
#[derive(Clone, Copy, Debug, PartialEq, Eq, Structural, Hash)]
pub struct Timestamp(pub i64);

impl Timestamp {
    /// The point in time `secs` seconds after the start of 1970.
    pub fn from_unix_timestamp(secs: i64) -> (t: Self)
        ensures
            t.0 == secs,
    {
        Timestamp(secs)
    }

    /// Seconds since the start of 1970.
    pub fn unix_timestamp(self) -> (secs: i64)
        ensures
            secs == self.0,
    {
        self.0
    }
}

} // verus!
