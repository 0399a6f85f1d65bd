//! Account addresses, held as plain integers.

use vstd::prelude::*;

verus! {

/// A 32-byte account address, held as two 128-bit halves (big-endian).
#[derive(Clone, Copy, Debug, PartialEq, Eq, Structural)]
pub struct Address {
    pub hi: u128,
    pub lo: u128,
}

impl Address {
    /// The address with the given halves.
    pub fn new(hi: u128, lo: u128) -> (r: Address)
        ensures
            r.hi == hi,
            r.lo == lo,
    {
        Address { hi, lo }
    }
}

} // verus!
