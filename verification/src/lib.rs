//! Read-model layer of a rollup node's transaction pool.
//!
//! The library exposes consistent, queryable views of in-flight transactions
//! (status counts, grouped content, lightweight inspection summaries), a
//! chain-flavour-polymorphic transaction response builder whose rollup variant
//! overlays deposit-specific fields, and an L1 fee calculator that derives the
//! L1 data fee and data gas charged to a rollup transaction.

pub mod assoc;
pub mod grouping;
pub mod l1_fee;
pub mod nonce_key;
pub mod primitives;
pub mod response;
pub mod tx;
pub mod txpool;

use vstd::prelude::*;

verus! {

} // verus!
