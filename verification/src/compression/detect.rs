//! Detection of zstd streams by their magic number.

use crate::ZSTD_MAGIC;
use vstd::prelude::*;

verus! {

/// Whether `data` opens with the four magic bytes of a zstd frame.
pub open spec fn is_zstd_format(data: Seq<u8>) -> bool {
    data.len() >= 4 && data.subrange(0, 4) == ZSTD_MAGIC@
}

/// Whether `data` opens with the four magic bytes of a zstd frame
/// (0x28 0xB5 0x2F 0xFD). Shorter input never does. The rest of the stream is
/// not examined.
pub fn is_zstd_compressed(data: &[u8]) -> (native: bool)
    ensures
        native == is_zstd_format(data@),
        data.len() < 4 ==> !native,
{
    if data.len() < 4 {
        return false;
    }
    let mut i: usize = 0;
    while i < 4
        invariant
            i <= 4,
            data.len() >= 4,
            forall|j: int| 0 <= j < i ==> data[j] == ZSTD_MAGIC[j],
        decreases 4 - i,
    {
        if data[i] != ZSTD_MAGIC[i] {
            return false;
        }
        i += 1;
    }
    assert(data@.subrange(0, 4) =~= ZSTD_MAGIC@);
    true
}

} // verus!
