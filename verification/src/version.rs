//! Version tags for the native library's versioned structs.
//!
//! Several native structs begin with a tag that packs the struct's byte size
//! into the low 24 bits and a small struct-revision number into the top byte.
use vstd::prelude::*;

verus! {

/// The tag packing a struct size with a revision number.
pub open spec fn spec_version_tag(struct_size: u32, revision: u32) -> u32 {
    struct_size | (revision << 24)
}

/// Tags a struct size with revision one.
pub fn make_version1(struct_type: u32) -> (r: u32)
    ensures
        r == spec_version_tag(struct_type, 1),
{
    struct_type | (1u32 << 24)
}

/// Tags a struct size with revision two.
pub fn make_version2(struct_type: u32) -> (r: u32)
    ensures
        r == spec_version_tag(struct_type, 2),
{
    struct_type | (2u32 << 24)
}

/// Tags a struct size with revision three.
pub fn make_version3(struct_type: u32) -> (r: u32)
    ensures
        r == spec_version_tag(struct_type, 3),
{
    struct_type | (3u32 << 24)
}

/// Tags a struct size with revision four.
pub fn make_version4(struct_type: u32) -> (r: u32)
    ensures
        r == spec_version_tag(struct_type, 4),
{
    struct_type | (4u32 << 24)
}

/// A version tag is lossless: when the struct size fits in 24 bits and the
/// revision in one byte, both come back out of the packed tag unchanged.
pub proof fn lemma_version_tag_unpacks(struct_size: u32, revision: u32)
    requires
        struct_size < 0x100_0000,
        revision < 0x100,
    ensures
        spec_version_tag(struct_size, revision) & 0xFF_FFFF == struct_size,
        spec_version_tag(struct_size, revision) >> 24 == revision,
{
    assert((struct_size | (revision << 24)) & 0xFF_FFFF == struct_size
        && (struct_size | (revision << 24)) >> 24 == revision) by (bit_vector)
        requires
            struct_size < 0x100_0000,
            revision < 0x100,
    ;
}

} // verus!
