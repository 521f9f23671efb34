//! Random bytes for salts and nonces.

use rand::Rng;
use vstd::prelude::*;

verus! {

/// `N` bytes from `rand::rng()`, the thread-local generator that the operating
/// system seeds, drawn with `Rng::random`. Nothing is claimed of the bytes:
/// two calls may give any two arrays.
#[verifier::external_body]
pub(crate) fn random_bytes<const N: usize>() -> [u8; N] {
    rand::rng().random()
}

} // verus!
