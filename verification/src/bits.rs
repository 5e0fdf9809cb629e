//! Facts about shifts and masks. The code works on registers and opcode
//! words with bit operations; the contracts speak of them with division
//! and remainder. These lemmas tie the two together.

use vstd::prelude::*;

verus! {

/// Joining two bytes with shift and or is the big-endian number they spell.
pub proof fn lemma_join_u16(hi: u8, lo: u8)
    by (bit_vector)
    ensures
        ((hi as u16) << 8) | (lo as u16) == hi as u16 * 256 + lo as u16,
{
}

/// Joining two half-words with shift and or is the big-endian number they spell.
pub proof fn lemma_join_u32(hi: u16, lo: u16)
    by (bit_vector)
    ensures
        ((hi as u32) << 16) | (lo as u32) == hi as u32 * 0x1_0000 + lo as u32,
{
}

/// The two bytes of a half-word, taken with shift and mask.
pub proof fn lemma_split_u16(v: u16)
    by (bit_vector)
    ensures
        (v >> 8) == v / 256,
        (v & 0xff) == v % 256,
        (v >> 8) < 256,
{
}

/// The two half-words of a word, taken with shift and mask.
pub proof fn lemma_split_u32(v: u32)
    by (bit_vector)
    ensures
        (v >> 16) == v / 0x1_0000,
        (v & 0xffff) == v % 0x1_0000,
        (v >> 16) < 0x1_0000,
{
}

/// The byte and half-word views of a word, taken with shift and mask.
pub proof fn lemma_views_u32(v: u32)
    by (bit_vector)
    ensures
        (v >> 16) == v / 0x1_0000,
        (v & 0xffff) == v % 0x1_0000,
        ((v >> 8) & 0xff) == v / 0x100 % 0x100,
        (v & 0xff) == v % 0x100,
{
}

/// Replacing one half-word or one of the two low bytes of a word with mask
/// and or leaves the other bits where they were.
pub proof fn lemma_merge_u32(v: u32, w: u16, b: u8)
    by (bit_vector)
    ensures
        (v & 0xffff_0000) | (w as u32) == v / 0x1_0000 * 0x1_0000 + w,
        (v & 0x0000_ffff) | ((w as u32) << 16) == w * 0x1_0000 + v % 0x1_0000,
        (v & 0xffff_ff00) | (b as u32) == v / 0x100 * 0x100 + b,
        (v & 0xffff_00ff) | ((b as u32) << 8) == v / 0x1_0000 * 0x1_0000 + b * 0x100 + v % 0x100,
{
}

/// The four nibbles of a half-word, taken with shift and mask.
pub proof fn lemma_nibbles(v: u16)
    by (bit_vector)
    ensures
        (v >> 12) == v / 0x1000,
        ((v >> 8) & 0xf) == v / 0x100 % 0x10,
        ((v >> 4) & 0xf) == v / 0x10 % 0x10,
        (v & 0xf) == v % 0x10,
{
}

/// Clearing the lowest bit rounds down to an even number.
pub proof fn lemma_clear_low_bit(v: u32)
    by (bit_vector)
    ensures
        (v & !1u32) == v - v % 2,
{
}

/// A bit read with shift and mask is 0 or 1; setting or clearing bit `b`
/// with or and and-not decides bit `b` and leaves every other bit.
pub proof fn lemma_bit_set_clear(c: u8, b: u8, other: u8)
    by (bit_vector)
    requires
        b < 8,
        other < 8,
    ensures
        (c >> b) & 1 == 0 || (c >> b) & 1 == 1,
        ((c | (1u8 << b)) >> b) & 1 == 1,
        ((c & !(1u8 << b)) >> b) & 1 == 0,
        b != other ==> ((c | (1u8 << b)) >> other) & 1 == (c >> other) & 1,
        b != other ==> ((c & !(1u8 << b)) >> other) & 1 == (c >> other) & 1,
{
}

/// Masking to 24 bits is the remainder by two to the 24th.
pub proof fn lemma_mask24(v: u32)
    by (bit_vector)
    ensures
        (v & 0x00ff_ffff) == v % 0x100_0000,
{
}

/// Or-ing the page in front of an absolute address adds it; the top bit of
/// a 16-bit address tells whether it lies in the upper half.
pub proof fn lemma_absolute(a8: u8, a16: u16)
    by (bit_vector)
    ensures
        0xff_ff00u32 | (a8 as u32) == 0xff_ff00 + a8,
        (a16 & 0x8000 == 0) <==> a16 < 0x8000,
        a16 >= 0x8000 ==> 0xff_0000u32 | (a16 as u32) == 0xff_0000 + a16,
{
}

/// Masking to three bits is the remainder by eight.
pub proof fn lemma_low3(v: u8)
    by (bit_vector)
    ensures
        (v & 0x7) == v % 8,
{
}

/// The parts of a word of which one half-word or one of the two low bytes
/// was replaced with mask and or: the part that was replaced is the new
/// value, the others are what they were.
pub proof fn lemma_merged_parts(v: u32, w: u16, b: u8)
    by (bit_vector)
    ensures
        ((v & 0xffff_0000) | (w as u32)) & 0xffff == w as u32,
        ((v & 0xffff_0000) | (w as u32)) >> 16 == v >> 16,
        ((v & 0x0000_ffff) | ((w as u32) << 16)) & 0xffff == v & 0xffff,
        ((v & 0x0000_ffff) | ((w as u32) << 16)) >> 16 == w as u32,
        ((v & 0xffff_ff00) | (b as u32)) & 0xff == b as u32,
        (((v & 0xffff_ff00) | (b as u32)) >> 8) & 0xff == (v >> 8) & 0xff,
        ((v & 0xffff_ff00) | (b as u32)) >> 16 == v >> 16,
        ((v & 0xffff_00ff) | ((b as u32) << 8)) & 0xff == v & 0xff,
        (((v & 0xffff_00ff) | ((b as u32) << 8)) >> 8) & 0xff == b as u32,
        ((v & 0xffff_00ff) | ((b as u32) << 8)) >> 16 == v >> 16,
{
}

/// The bytes of a half-word and of a word, most significant first, spell
/// it again.
pub proof fn lemma_bytes_spell(w: u16, l: u32)
    ensures
        (w / 0x100) * 0x100 + w % 0x100 == w,
        w / 0x100 < 0x100,
        (l / 0x100_0000) * 0x100_0000 + (l / 0x1_0000 % 0x100) * 0x1_0000 + (l / 0x100 % 0x100)
            * 0x100 + l % 0x100 == l,
        l / 0x100_0000 < 0x100,
{
}

} // verus!
