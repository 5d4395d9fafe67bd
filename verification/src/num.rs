//! Integers that are never the largest of their type, as the API's limits and
//! discriminators are.

use nonmax::{NonMaxU16, NonMaxU8};
use vstd::prelude::*;

verus! {

/// `NonMaxU8` of the crate `nonmax`: a `u8` that is never 255.
#[verifier::external_type_specification]
#[verifier::external_body]
pub struct ExNonMaxU8(NonMaxU8);

/// `NonMaxU16` of the crate `nonmax`: a `u16` that is never 65535.
#[verifier::external_type_specification]
#[verifier::external_body]
pub struct ExNonMaxU16(NonMaxU16);

/// The number that a `NonMaxU8` holds.
pub uninterp spec fn u8_of(n: NonMaxU8) -> u8;

/// The number that a `NonMaxU16` holds.
pub uninterp spec fn u16_of(n: NonMaxU16) -> u16;

/// `NonMaxU8::get` gives the number that the value holds, which is never
/// 255.
pub assume_specification[ NonMaxU8::get ](n: &NonMaxU8) -> (v: u8)
    ensures
        v == u8_of(*n),
        v < u8::MAX,
;

/// `NonMaxU16::get` gives the number that the value holds, which is never
/// 65535.
pub assume_specification[ NonMaxU16::get ](n: &NonMaxU16) -> (v: u16)
    ensures
        v == u16_of(*n),
        v < u16::MAX,
;

} // verus!
