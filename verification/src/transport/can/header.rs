//! Fragment header codec: one byte, the fragment index in the low seven bits
//! and the last-fragment flag in bit seven.

use vstd::prelude::*;

verus! {

/// Number of distinct fragment indices a header can carry.
pub const FRAGMENT_INDEX_COUNT: usize = 128;

/// The header byte for `index` (taken modulo 128) and `is_last`.
pub open spec fn spec_header(index: u8, is_last: bool) -> int {
    index as int % 128 + if is_last { 128int } else { 0int }
}

/// The fragment index held in a header byte.
pub open spec fn spec_header_index(header: u8) -> int {
    header as int % 128
}

/// Whether a header byte marks the last fragment.
pub open spec fn spec_header_is_last(header: u8) -> bool {
    header >= 128
}

/// Packs a fragment index and the last-fragment flag into a header byte.
/// Only the low seven bits of `fragment_index` are kept.
pub fn build_fragment_header(fragment_index: u8, is_last: bool) -> (header: u8)
    ensures
        header as int == spec_header(fragment_index, is_last),
{
    let low: u8 = fragment_index & 0x7F;
    assert(low == fragment_index % 128 && (low | 0x80) == low + 128) by (bit_vector)
        requires
            low == fragment_index & 0x7F,
    ;
    if is_last {
        low | 0x80
    } else {
        low
    }
}

/// Unpacks a header byte into the fragment index and the last-fragment flag.
pub fn parse_fragment_header(header: u8) -> (parts: (u8, bool))
    ensures
        parts.0 as int == spec_header_index(header),
        parts.1 == spec_header_is_last(header),
{
    let index: u8 = header & 0x7F;
    let flag: u8 = header & 0x80;
    assert(index == header % 128 && ((flag != 0) <==> header >= 128)) by (bit_vector)
        requires
            index == header & 0x7F,
            flag == header & 0x80,
    ;
    (index, flag != 0)
}

/// Decoding an encoded header gives back the index modulo 128 and the flag.
pub proof fn lemma_header_roundtrip(index: u8, is_last: bool)
    ensures
        0 <= spec_header(index, is_last) < 256,
        spec_header_index(spec_header(index, is_last) as u8) == index as int % 128,
        spec_header_is_last(spec_header(index, is_last) as u8) == is_last,
{
}

} // verus!
