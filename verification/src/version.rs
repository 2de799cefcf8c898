//! Packing of graphics-API version numbers: a major, minor and patch number
//! packed into one 32-bit word, major in the top ten bits above bit 22,
//! minor in the ten bits above bit 12, patch in the low twelve bits.

use vstd::prelude::*;

verus! {

/// The largest major or minor number that fits its ten-bit field.
pub const MAX_VERSION_PART: u32 = 0x3ff;

/// The largest patch number that fits its twelve-bit field.
pub const MAX_VERSION_PATCH: u32 = 0xfff;

/// The packed word as arithmetic: `major` scaled past 22 bits, `minor`
/// scaled past 12, `patch` in the low bits.
pub open spec fn spec_make_version(major: u32, minor: u32, patch: u32) -> u32
    recommends
        major <= MAX_VERSION_PART,
        minor <= MAX_VERSION_PART,
        patch <= MAX_VERSION_PATCH,
{
    (major * 0x400000 + minor * 0x1000 + patch) as u32
}

/// Pack a version triple into one word.
pub fn make_version(major: u32, minor: u32, patch: u32) -> (v: u32)
    requires
        major <= MAX_VERSION_PART,
        minor <= MAX_VERSION_PART,
        patch <= MAX_VERSION_PATCH,
    ensures
        v == spec_make_version(major, minor, patch),
{
    proof {
        assert((major << 22u32) | (minor << 12u32) | patch == major * 0x400000 + minor * 0x1000
            + patch) by (bit_vector)
            requires
                major <= 0x3ffu32,
                minor <= 0x3ffu32,
                patch <= 0xfffu32,
        ;
    }
    (major << 22u32) | (minor << 12u32) | patch
}

} // verus!
