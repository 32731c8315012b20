//! The constant that describes which words of a type the collector scans.

use vstd::prelude::*;
use vstd::bytes::{spec_u64_from_le_bytes, spec_u64_to_le_bytes, u64_to_le_bytes};

verus! {

/// The bytes of the constant describing a type's layout for the collector:
/// the bitmap of its pointer-holding words, then the number of bits of the
/// bitmap that are used, both as little-endian 64-bit integers.
pub fn alloc_gc_layout(bitmap: u64, bitmap_size: u64) -> (bytes: Vec<u8>)
    ensures
        bytes@ == spec_u64_to_le_bytes(bitmap) + spec_u64_to_le_bytes(bitmap_size),
        bytes@.len() == 16,
{
    let mut pair: Vec<u8> = Vec::with_capacity(16);
    let mut a = u64_to_le_bytes(bitmap);
    let mut b = u64_to_le_bytes(bitmap_size);
    pair.append(&mut a);
    pair.append(&mut b);
    pair
}

/// The constant reads back: its first eight bytes decode to the bitmap and
/// its last eight to the bitmap's size.
pub proof fn lemma_gc_layout_reads_back(bitmap: u64, bitmap_size: u64)
    ensures
        ({
            let bytes = spec_u64_to_le_bytes(bitmap) + spec_u64_to_le_bytes(bitmap_size);
            &&& spec_u64_from_le_bytes(bytes.subrange(0, 8)) == bitmap
            &&& spec_u64_from_le_bytes(bytes.subrange(8, 16)) == bitmap_size
        }),
{
    vstd::bytes::lemma_auto_spec_u64_to_from_le_bytes();
    let a = spec_u64_to_le_bytes(bitmap);
    let b = spec_u64_to_le_bytes(bitmap_size);
    assert(a.len() == 8 && b.len() == 8);
    assert((a + b).subrange(0, 8) =~= a);
    assert((a + b).subrange(8, 16) =~= b);
}

} // verus!
