//! Fresh aggregate identifiers.  An identifier is the 128-bit value of a
//! random (version 4) UUID; the store and the projections treat it as an
//! opaque number, with 0 reserved as the "no journal selected" sentinel.

use vstd::prelude::*;

verus! {

/// Relies on uuid::Uuid::new_v4, taken as its 128-bit value.  The result
/// is random, so nothing is promised of it.  Like any draw from the
/// operating system's randomness source, it aborts if that source is
/// unavailable, an environmental failure on par with memory exhaustion.
#[verifier::external_body]
pub fn fresh_id() -> u128 {
    uuid::Uuid::new_v4().as_u128()
}

} // verus!
