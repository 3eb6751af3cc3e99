//! Bus identifier codec.
//!
//! An identifier carries the high three bits of the category above an
//! eight-bit fragment sequence number. The low five bits of the category do
//! not travel: decoding gives back the category rounded down to a multiple of
//! 32.

use vstd::prelude::*;

verus! {

/// Largest identifier an 11-bit bus field can hold.
pub const MAX_STANDARD_ID: u32 = 0x7FF;

/// The identifier for `category` and fragment sequence `seq`.
pub open spec fn spec_can_id(category: u8, seq: u8) -> int {
    (category as int / 32) * 256 + seq as int
}

/// The part of a category that survives the trip through an identifier.
pub open spec fn spec_category_key(category: u8) -> int {
    (category as int / 32) * 32
}

/// The category key held in bits 8 to 10 of `can_id`.
pub open spec fn spec_id_category(can_id: u32) -> int {
    ((can_id as int / 256) % 8) * 32
}

/// The fragment sequence number held in the low byte of `can_id`.
pub open spec fn spec_id_seq(can_id: u32) -> int {
    can_id as int % 256
}

/// Packs the high three bits of `category` above `fragment_index`.
pub fn build_can_id(category: u8, fragment_index: u8) -> (id: u32)
    ensures
        id as int == spec_can_id(category, fragment_index),
        id <= MAX_STANDARD_ID,
{
    let cat_high: u32 = ((category >> 5) & 0x07) as u32;
    let frag: u32 = fragment_index as u32;
    let id: u32 = (cat_high << 8) | frag;
    assert(id == (category as u32 / 32) * 256 + fragment_index as u32 && id <= 0x7FF) by (bit_vector)
        requires
            cat_high == ((category >> 5) & 0x07) as u32,
            frag == fragment_index as u32,
            id == (cat_high << 8) | frag,
    ;
    id
}

/// Splits an identifier into the category key and the fragment sequence
/// number. Bits above the eleventh are ignored.
pub fn parse_can_id(can_id: u32) -> (parts: (u8, u8))
    ensures
        parts.0 as int == spec_id_category(can_id),
        parts.1 as int == spec_id_seq(can_id),
{
    let cat_high: u8 = ((can_id >> 8) & 0x07) as u8;
    let frag: u8 = (can_id & 0xFF) as u8;
    let cat: u8 = cat_high << 5;
    assert(cat as u32 == ((can_id / 256) % 8) * 32 && frag as u32 == can_id % 256) by (bit_vector)
        requires
            cat_high == ((can_id >> 8) & 0x07) as u8,
            frag == (can_id & 0xFF) as u8,
            cat == cat_high << 5,
    ;
    (cat, frag)
}

/// Decoding an encoded identifier gives the category key and the sequence
/// number that went in.
pub proof fn lemma_can_id_roundtrip(category: u8, seq: u8)
    ensures
        0 <= spec_can_id(category, seq) <= MAX_STANDARD_ID,
        spec_id_category(spec_can_id(category, seq) as u32) == spec_category_key(category),
        spec_id_seq(spec_can_id(category, seq) as u32) == seq as int,
{
}

} // verus!
