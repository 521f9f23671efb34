//! Sizes that AES-256-GCM fixes.

use vstd::prelude::*;

verus! {

/// Length of the nonce in bytes.
pub const NONCE_LEN: usize = 12;

/// Length of the authentication tag in bytes.
pub const TAG_LEN: usize = 16;

} // verus!
