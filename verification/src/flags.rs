//! Bits of the flags byte in the container header.

use vstd::prelude::*;

verus! {

/// Bit 0: the payload already was a zstd stream and was stored as it came.
pub const ALREADY_ZSTD: u8 = 0b0000_0001;

/// Bit 1: the payload is an archived directory tree, not a single file.
pub const IS_DIRECTORY: u8 = 0b0000_0010;

/// The flags byte for a payload of the given origin and form.
pub open spec fn spec_for_payload(is_directory: bool, already_zstd: bool) -> u8 {
    if is_directory {
        if already_zstd {
            3
        } else {
            2
        }
    } else {
        if already_zstd {
            1
        } else {
            0
        }
    }
}

/// Whether `bit`, one of the constants above, is set in `flags`.
pub open spec fn is_set(flags: u8, bit: u8) -> bool {
    flags & bit != 0
}

/// Computes the flags byte for a payload of the given origin and form.
pub fn for_payload(is_directory: bool, already_zstd: bool) -> (flags: u8)
    ensures
        flags == spec_for_payload(is_directory, already_zstd),
        is_set(flags, IS_DIRECTORY) == is_directory,
        is_set(flags, ALREADY_ZSTD) == already_zstd,
{
    let mut flags: u8 = 0;
    if is_directory {
        flags = flags | IS_DIRECTORY;
    }
    if already_zstd {
        flags = flags | ALREADY_ZSTD;
    }
    assert(0u8 | 2u8 == 2u8 && 0u8 | 1u8 == 1u8 && 2u8 | 1u8 == 3u8) by (bit_vector);
    assert(0u8 & 1u8 == 0u8 && 1u8 & 1u8 == 1u8 && 2u8 & 1u8 == 0u8 && 3u8 & 1u8 == 1u8)
        by (bit_vector);
    assert(0u8 & 2u8 == 0u8 && 1u8 & 2u8 == 0u8 && 2u8 & 2u8 == 2u8 && 3u8 & 2u8 == 2u8)
        by (bit_vector);
    flags
}

} // verus!
