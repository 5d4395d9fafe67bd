//! Errors that a call is refused with before anything is sent.

use vstd::prelude::*;

verus! {

/// Why a call was refused before anything was sent.
#[derive(Clone, Copy, Debug, PartialEq, Eq, Structural)]
pub enum ModelError {
    /// A number is larger than the API takes: it is `value`, and the most
    /// that is taken is `maximum`.
    TooLarge { maximum: u64, value: u64 },
}

} // verus!
