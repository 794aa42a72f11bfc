//! Aggregate identifiers.
//!
//! An aggregate is identified by a 128-bit, time-sortable identifier (a ULID).
//! The identifier is assigned once, when the aggregate is first opened, and is
//! immutable thereafter. Inside the library an identifier is just its 128 bits;
//! only the generation of a fresh one is delegated to the `ulid` crate.

use vstd::prelude::*;

verus! {

/// A globally unique, time-sortable 128-bit aggregate identifier.
#[derive(Debug, Clone, Copy, PartialEq, Eq, Structural, Hash, PartialOrd, Ord)]
pub struct AggregateId {
    pub bits: u128,
}

/// Relies on ulid::Ulid::generate: a freshly generated ULID (128 bits drawn
/// from the current time and a random source). The result depends on the
/// clock and on randomness, so nothing is promised of its value.
#[verifier::external_body]
fn fresh_ulid_bits() -> u128 {
    ulid::Ulid::generate().0
}

impl AggregateId {
    /// Wraps the given bits.
    pub fn from_bits(bits: u128) -> (r: AggregateId)
        ensures
            r.bits == bits,
    {
        AggregateId { bits }
    }

    /// Draws a fresh, time-sortable identifier. Two calls may return any two
    /// values; no contract relates them.
    pub fn fresh() -> AggregateId {
        AggregateId { bits: fresh_ulid_bits() }
    }
}

} // verus!
