//! The condition codes: what each kind of instruction leaves in them.

use vstd::prelude::*;
use crate::bits::lemma_bit_set_clear;
use crate::cpu::instruction::bst::bit_stored;
use crate::cpu::CCR;
use crate::model::{bit_of, ccr_with, CpuState, Flags, Size};

verus! {

/// A condition code reads as it was last set; setting one leaves every
/// other as it was.
pub proof fn lemma_flag_after_with_flag(s: CpuState, code: CCR, on: bool, other: CCR)
    ensures
        s.with_flag(code, on).flag(other) == if other == code {
            on
        } else {
            s.flag(other)
        },
{
    lemma_bit_set_clear(s.ccr, code.bit(), other.bit());
}

/// What arithmetic leaves in the condition-code register: the five codes it
/// decides, and I, U and U2 as they were.
pub proof fn lemma_flags_after_arithmetic(s: CpuState, flags: Flags, code: CCR)
    ensures
        s.with_flags(flags).flag(code) == match code {
            CCR::H => flags.h,
            CCR::N => flags.n,
            CCR::Z => flags.z,
            CCR::V => flags.v,
            CCR::C => flags.c,
            _ => s.flag(code),
        },
{
    let s1 = s.with_flag(CCR::H, flags.h);
    let s2 = s1.with_flag(CCR::N, flags.n);
    let s3 = s2.with_flag(CCR::Z, flags.z);
    let s4 = s3.with_flag(CCR::V, flags.v);
    lemma_flag_after_with_flag(s, CCR::H, flags.h, code);
    lemma_flag_after_with_flag(s1, CCR::N, flags.n, code);
    lemma_flag_after_with_flag(s2, CCR::Z, flags.z, code);
    lemma_flag_after_with_flag(s3, CCR::V, flags.v, code);
    lemma_flag_after_with_flag(s4, CCR::C, flags.c, code);
}

/// The five codes that arithmetic decides read back as they were set.
pub proof fn lemma_flags_read_back(s: CpuState, flags: Flags)
    ensures
        s.with_flags(flags).flags() == flags,
{
    lemma_flags_after_arithmetic(s, flags, CCR::H);
    lemma_flags_after_arithmetic(s, flags, CCR::N);
    lemma_flags_after_arithmetic(s, flags, CCR::Z);
    lemma_flags_after_arithmetic(s, flags, CCR::V);
    lemma_flags_after_arithmetic(s, flags, CCR::C);
}

/// What a move leaves in the condition-code register: N set where the
/// value's top bit is, Z set where the value is zero, V clear, and every
/// other code as it was.
pub proof fn lemma_flags_after_move(s: CpuState, size: Size, value: int, code: CCR)
    ensures
        s.with_move_flags(size, value).flag(code) == match code {
            CCR::N => value >= size.half(),
            CCR::Z => value == 0,
            CCR::V => false,
            _ => s.flag(code),
        },
{
    let s1 = s.with_flag(CCR::N, value >= size.half());
    let s2 = s1.with_flag(CCR::Z, value == 0);
    lemma_flag_after_with_flag(s, CCR::N, value >= size.half(), code);
    lemma_flag_after_with_flag(s1, CCR::Z, value == 0, code);
    lemma_flag_after_with_flag(s2, CCR::V, false, code);
}

/// What a shift to the left leaves in the condition-code register: N and
/// Z from the result, V clear, C the bit that left, and every other code as
/// it was.
pub proof fn lemma_flags_after_shll(s: CpuState, size: Size, src: int, code: CCR)
    ensures
        s.with_shll_flags(size, src).flag(code) == match code {
            CCR::N => (src * 2) % size.modulus() >= size.half(),
            CCR::Z => (src * 2) % size.modulus() == 0,
            CCR::V => false,
            CCR::C => src >= size.half(),
            _ => s.flag(code),
        },
{
    let n = (src * 2) % size.modulus() >= size.half();
    let z = (src * 2) % size.modulus() == 0;
    let s1 = s.with_flag(CCR::N, n);
    let s2 = s1.with_flag(CCR::Z, z);
    let s3 = s2.with_flag(CCR::V, false);
    lemma_flag_after_with_flag(s, CCR::N, n, code);
    lemma_flag_after_with_flag(s1, CCR::Z, z, code);
    lemma_flag_after_with_flag(s2, CCR::V, false, code);
    lemma_flag_after_with_flag(s3, CCR::C, src >= size.half(), code);
}

/// Reading a bit of the condition-code byte after one was set or cleared.
pub proof fn lemma_ccr_algebra()
    ensures
        forall|ccr: u8, bit: u8, on: bool, other: u8|
            bit < 8 && other < 8 ==> #[trigger] bit_of(ccr_with(ccr, bit, on), other) == (if bit
                == other {
                on
            } else {
                bit_of(ccr, other)
            }),
{
    assert forall|ccr: u8, bit: u8, on: bool, other: u8|
        bit < 8 && other < 8 implies #[trigger] bit_of(ccr_with(ccr, bit, on), other) == (if bit
        == other {
        on
    } else {
        bit_of(ccr, other)
    }) by {
        lemma_bit_set_clear(ccr, bit, other);
    }
}

/// What BST leaves in its operand: the chosen bit is the carry, and
/// every other bit is what it was.
pub proof fn lemma_bits_after_store(value: u8, n: u8, carry: bool, other: u8)
    requires
        n < 8,
        other < 8,
    ensures
        bit_of(bit_stored(value, n, carry), other) == if other == n {
            carry
        } else {
            bit_of(value, other)
        },
{
    lemma_bit_set_clear(value, n, other);
}

} // verus!
