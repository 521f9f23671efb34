//! Default Argon2id cost parameters and the sizes of salt and key.

use vstd::prelude::*;

verus! {

/// Memory cost in KiB (64 MiB).
pub const MEMORY_COST: u32 = 64 * 1024;

/// Number of passes over the memory.
pub const TIME_COST: u32 = 3;

/// Degree of parallelism.
pub const PARALLELISM: u32 = 4;

/// Length of the derived key in bytes.
pub const OUTPUT_LEN: usize = 32;

/// Length of the salt in bytes.
pub const SALT_LEN: usize = 32;

} // verus!
