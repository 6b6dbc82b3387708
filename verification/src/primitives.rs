//! Plain-value models of the chain's primitive quantities.
//!
//! An account address is 160 bits, a hash 256 bits and a protocol quantity up
//! to 256 bits wide; each is held here as a few machine integers so that
//! contracts can speak of it directly.

use vstd::prelude::*;

verus! {

/// A 160-bit account address, split into three machine words
/// (`hi` holds the most significant 64 bits, then `mid`, then `lo`).
#[derive(Clone, Copy, Debug, PartialEq, Eq, Structural, Hash)]
pub struct Address {
    pub hi: u64,
    pub mid: u64,
    pub lo: u32,
}

/// A 256-bit hash, split into two 128-bit halves (`hi` most significant).
#[derive(Clone, Copy, Debug, PartialEq, Eq, Structural, Hash)]
pub struct Hash256 {
    pub hi: u128,
    pub lo: u128,
}

/// A 256-bit unsigned protocol quantity (a transferred value), split into two
/// 128-bit halves (`hi` most significant).
#[derive(Clone, Copy, Debug, PartialEq, Eq, Structural, Hash)]
pub struct Uint256 {
    pub hi: u128,
    pub lo: u128,
}

impl Uint256 {
    /// The quantity with the given low half and a zero high half.
    pub fn from_u128(lo: u128) -> (r: Uint256)
        ensures
            r.lo == lo,
            r.hi == 0,
    {
        Uint256 { hi: 0, lo }
    }
}

} // verus!
