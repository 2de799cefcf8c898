//! Tests of version packing: exact packed words for known triples.

use ash_tutorial::version::make_version;

#[test]
fn version_one_packs_to_bit_twenty_two() {
    assert_eq!(make_version(1, 0, 0), 0x400000);
    assert_eq!(make_version(1, 0, 0), 4194304);
}

#[test]
fn api_version_packs_major_minor_patch() {
    assert_eq!(make_version(1, 0, 92), 4194304 + 92);
    assert_eq!(make_version(1, 2, 3), 4194304 + 2 * 4096 + 3);
}

#[test]
fn zero_version_packs_to_zero() {
    assert_eq!(make_version(0, 0, 0), 0);
}

#[test]
fn largest_fields_fill_the_word() {
    assert_eq!(make_version(0x3ff, 0x3ff, 0xfff), 0xffff_ffff);
}
