//! The source of random bytes.

use vstd::prelude::*;
use rand::Rng;

verus! {

/// Draws one byte from the thread-local generator of the `rand` crate, by
/// `rand::rng()` and `Rng::random_range` over the whole range `0..=255`.
///
/// Nothing is claimed of the byte: any value may come back, and two calls
/// need not agree. The range is never empty, so the call does not reject it.
/// The generator itself panics if the operating system's source of
/// randomness fails; that lies outside what a caller can prevent.
#[verifier::external_body]
pub(crate) fn random_byte() -> (byte: u8) {
    let mut rng = rand::rng();
    rng.random_range(0..=255)
}

} // verus!
