//! The register file: how the byte, word and long views of a register
//! overlap.

use vstd::prelude::*;
use crate::bits::{lemma_merge_u32, lemma_merged_parts, lemma_views_u32};
use crate::model::{with_high_byte, with_high_word, with_low_byte, with_low_word, CpuState};

verus! {

/// A value written through the long view of a register reads back in
/// parts through the word and byte views: the low and the high half, and
/// bits 8 to 15 and bits 0 to 7.
pub proof fn lemma_views_of_long(s: CpuState, r: u8, value: u32)
    requires
        s.wf(),
        r < 8,
    ensures
        s.with_rn_l(r, value).rn_l(r) == value,
        s.with_rn_l(r, value).rn_w(r) == value % 0x1_0000,
        s.with_rn_l(r, value).rn_w((r + 8) as u8) == value / 0x1_0000,
        s.with_rn_l(r, value).rn_b(r) == value / 0x100 % 0x100,
        s.with_rn_l(r, value).rn_b((r + 8) as u8) == value % 0x100,
{
}

/// The parts of an extended register after its low half was replaced.
pub proof fn lemma_parts_with_low_word(er: u32, value: u16)
    ensures
        with_low_word(er, value) % 0x1_0000 == value,
        with_low_word(er, value) / 0x1_0000 == er / 0x1_0000,
{
    lemma_merge_u32(er, value, 0);
    lemma_merged_parts(er, value, 0);
    lemma_views_u32(er);
    lemma_views_u32(with_low_word(er, value));
}

/// The parts of an extended register after its high half was replaced.
pub proof fn lemma_parts_with_high_word(er: u32, value: u16)
    ensures
        with_high_word(er, value) % 0x1_0000 == er % 0x1_0000,
        with_high_word(er, value) / 0x1_0000 == value,
{
    lemma_merge_u32(er, value, 0);
    lemma_merged_parts(er, value, 0);
    lemma_views_u32(er);
    lemma_views_u32(with_high_word(er, value));
}

/// The parts of an extended register after bits 0 to 7 were replaced.
pub proof fn lemma_parts_with_low_byte(er: u32, value: u8)
    ensures
        with_low_byte(er, value) % 0x100 == value,
        with_low_byte(er, value) / 0x100 % 0x100 == er / 0x100 % 0x100,
        with_low_byte(er, value) / 0x1_0000 == er / 0x1_0000,
{
    lemma_merge_u32(er, 0, value);
    lemma_merged_parts(er, 0, value);
    lemma_views_u32(er);
    lemma_views_u32(with_low_byte(er, value));
}

/// The parts of an extended register after bits 8 to 15 were replaced.
pub proof fn lemma_parts_with_high_byte(er: u32, value: u8)
    ensures
        with_high_byte(er, value) % 0x100 == er % 0x100,
        with_high_byte(er, value) / 0x100 % 0x100 == value,
        with_high_byte(er, value) / 0x1_0000 == er / 0x1_0000,
{
    lemma_merge_u32(er, 0, value);
    lemma_merged_parts(er, 0, value);
    lemma_views_u32(er);
    lemma_views_u32(with_high_byte(er, value));
}

/// A write to a byte register reads back, and leaves the other three bytes
/// of its extended register and every other register as they were.
#[verifier::spinoff_prover]
pub proof fn lemma_byte_write_keeps_rest(s: CpuState, r: u8, value: u8)
    requires
        s.wf(),
        r < 16,
    ensures
        s.with_rn_b(r, value).wf(),
        s.with_rn_b(r, value).rn_b(r) == value,
        s.with_rn_b(r, value).rn_b(((r + 8) % 16) as u8) == s.rn_b(((r + 8) % 16) as u8),
        s.with_rn_b(r, value).rn_w((r % 8 + 8) as u8) == s.rn_w((r % 8 + 8) as u8),
        forall|i: int| 0 <= i < 8 && i != r % 8 ==> s.with_rn_b(r, value).er[i] == s.er[i],
{
    lemma_parts_with_low_byte(s.er[(r % 8) as int], value);
    lemma_parts_with_high_byte(s.er[(r % 8) as int], value);
}

/// A write to a word register reads back, and leaves the other half of
/// its extended register and every other register as they were.
#[verifier::spinoff_prover]
pub proof fn lemma_word_write_keeps_rest(s: CpuState, r: u8, value: u16)
    requires
        s.wf(),
        r < 16,
    ensures
        s.with_rn_w(r, value).wf(),
        s.with_rn_w(r, value).rn_w(r) == value,
        s.with_rn_w(r, value).rn_w(((r + 8) % 16) as u8) == s.rn_w(((r + 8) % 16) as u8),
        forall|i: int| 0 <= i < 8 && i != r % 8 ==> s.with_rn_w(r, value).er[i] == s.er[i],
{
    lemma_parts_with_low_word(s.er[(r % 8) as int], value);
    lemma_parts_with_high_word(s.er[(r % 8) as int], value);
}

/// A write to an extended register reads back and leaves every other
/// register as it was.
pub proof fn lemma_long_write_keeps_rest(s: CpuState, r: u8, value: u32)
    requires
        s.wf(),
        r < 8,
    ensures
        s.with_rn_l(r, value).wf(),
        s.with_rn_l(r, value).rn_l(r) == value,
        forall|i: int| 0 <= i < 8 && i != r ==> s.with_rn_l(r, value).er[i] == s.er[i],
{
}

} // verus!
