//! Every instruction: the states it takes, the condition codes it leaves
//! and where it leaves the program counter.

use vstd::prelude::*;
use crate::cpu::CCR;
use crate::error::Fault;
use crate::cpu::addressing_mode::abs::abs16_addr;
use crate::model::{high_byte, low3, nibble, CpuState};
use crate::theorems::flags::lemma_ccr_algebra;

verus! {

/// Whether an instruction that begins with `opcode` may write the program
/// counter with anything but the address of the word after it: the
/// branches, the jumps, the calls and the return.
pub open spec fn transfers_control(opcode: u16) -> bool {
    let group = high_byte(opcode);
    nibble(opcode, 1) == 0x4 || (0x54 <= group <= 0x5f && group != 0x57)
}

/// Whether an instruction that begins with `opcode` may change the given
/// condition code: an addition, a subtraction or a comparison decides H, N,
/// Z, V and C; a move N, Z and V; a shift N, Z, V and C; a bit test C; no
/// other instruction changes any, and none changes I, U or U2.
pub open spec fn may_change(opcode: u16, code: CCR) -> bool {
    let group = high_byte(opcode);
    let arithmetic = code == CCR::H || code == CCR::N || code == CCR::Z || code == CCR::V || code
        == CCR::C;
    let moved = code == CCR::N || code == CCR::Z || code == CCR::V;
    let shifted = moved || code == CCR::C;
    if group == 0x08 || nibble(opcode, 1) == 0x8 || group == 0x09 || group == 0x0a || group
        == 0x1a || group == 0x1d || group == 0x1f {
        arithmetic
    } else if group == 0x79 || group == 0x7a {
        if nibble(opcode, 3) == 0 {
            moved
        } else {
            arithmetic
        }
    } else if group == 0x01 || group == 0x0d || group == 0x0f || group == 0x69 || group == 0x6b
        || group == 0x6d || group == 0x6f || group == 0x78 {
        moved
    } else if group == 0x10 {
        shifted
    } else if group == 0x76 || group == 0x77 || group == 0x7c || group == 0x7e {
        code == CCR::C
    } else {
        false
    }
}

/// The most states that one instruction takes.
pub const MAX_STATES: usize = 16;

/// What holds of an instruction's outcome `out` from state `s`: it takes
/// at least one state and at most `MAX_STATES` where it succeeds; it leaves
/// I, U and U2 as they were, and H, the group N, Z and V, and C unless it
/// is said to change them; where `reach` is not negative, it leaves the program counter at
/// most `reach` bytes further and as even or odd as it was; and where it
/// is negative, it leaves the program counter at most one word further or
/// within 24 bits; and, whether it succeeds or not, it leaves a program
/// counter that was within 24 bits within 24 bits.
pub open spec fn orderly(
    s: CpuState,
    out: (CpuState, Result<usize, Fault>),
    h: bool,
    nzv: bool,
    c: bool,
    reach: int,
) -> bool {
    &&& out.1 matches Ok(states) ==> 1 <= states <= MAX_STATES
    &&& out.0.flag(CCR::I) == s.flag(CCR::I)
    &&& out.0.flag(CCR::U) == s.flag(CCR::U)
    &&& out.0.flag(CCR::U2) == s.flag(CCR::U2)
    &&& !h ==> out.0.flag(CCR::H) == s.flag(CCR::H)
    &&& !nzv ==> out.0.flag(CCR::N) == s.flag(CCR::N) && out.0.flag(CCR::Z) == s.flag(CCR::Z)
        && out.0.flag(CCR::V) == s.flag(CCR::V)
    &&& !c ==> out.0.flag(CCR::C) == s.flag(CCR::C)
    &&& reach >= 0 && out.1 is Ok ==> s.pc <= out.0.pc <= s.pc + reach && out.0.pc % 2 == s.pc
        % 2
    &&& reach < 0 && out.1 is Ok ==> s.pc <= out.0.pc <= s.pc + 2 || out.0.pc < 0x100_0000
    &&& s.pc < 0x100_0000 ==> out.0.pc < 0x100_0000
}

/// An outcome that is orderly from the state that a fetch left is orderly
/// from the state before the fetch, one word further.
#[verifier::spinoff_prover]
proof fn lemma_orderly_after_fetch(
    s: CpuState,
    out: (CpuState, Result<usize, Fault>),
    h: bool,
    nzv: bool,
    c: bool,
    reach: int,
)
    requires
        s.fetch().1 is Ok,
        orderly(s.fetch().0, out, h, nzv, c, reach),
    ensures
        orderly(s, out, h, nzv, c, if reach >= 0 { reach + 2 } else { reach }),
{
}

/// An outcome that is orderly stays so where more is allowed.
#[verifier::spinoff_prover]
proof fn lemma_orderly_weaken(
    s: CpuState,
    out: (CpuState, Result<usize, Fault>),
    h: bool,
    nzv: bool,
    c: bool,
    reach: int,
    wider: int,
)
    requires
        orderly(s, out, h, nzv, c, reach),
        0 <= reach <= wider,
    ensures
        orderly(s, out, true, true, true, wider),
        orderly(s, out, h, nzv, c, wider),
{
}

/// A fault that leaves the state as it was is orderly.
#[verifier::spinoff_prover]
proof fn lemma_orderly_fault(s: CpuState, fault: Fault, h: bool, nzv: bool, c: bool, reach: int)
    ensures
        orderly(s, (s, Err(fault)), h, nzv, c, reach),
{
}

/// A move between a register and the operand at an address that is
/// given, after at most five fetches, is orderly.
#[verifier::spinoff_prover]
proof fn lemma_orderly_mov_access(s: CpuState, ea: Result<u32, Fault>, r: u8, fetches: u8)
    requires
        fetches <= 5,
    ensures
        orderly(s, s.mov_w_load(ea, r, fetches), false, true, false, 0),
        orderly(s, s.mov_w_store(ea, r, fetches), false, true, false, 0),
        orderly(s, s.mov_l_load(ea, r, fetches), false, true, false, 0),
        orderly(s, s.mov_l_store(ea, r, fetches), false, true, false, 0),
{
    lemma_ccr_algebra();
}

/// An outcome that is orderly from the state that the fetch of two words
/// left is orderly from the state before it, two words further.
#[verifier::spinoff_prover]
proof fn lemma_orderly_after_fetch_l(
    s: CpuState,
    out: (CpuState, Result<usize, Fault>),
    h: bool,
    nzv: bool,
    c: bool,
    reach: int,
)
    requires
        s.fetch_l().1 is Ok,
        orderly(s.fetch_l().0, out, h, nzv, c, reach),
    ensures
        orderly(s, out, h, nzv, c, if reach >= 0 { reach + 4 } else { reach }),
{
}

/// A fetch of one word or of two that fails is orderly.
#[verifier::spinoff_prover]
proof fn lemma_orderly_fetch_fault(s: CpuState, h: bool, nzv: bool, c: bool, reach: int)
    ensures
        s.fetch().1 matches Err(fault) ==> orderly(s, (s.fetch().0, Err(fault)), h, nzv, c, reach),
        s.fetch_l().1 matches Err(fault) ==> orderly(
            s,
            (s.fetch_l().0, Err(fault)),
            h,
            nzv,
            c,
            reach,
        ),
{
}

/// ADD.B is orderly.
#[verifier::spinoff_prover]
proof fn lemma_orderly_add_b(s: CpuState, opcode: u16)
    ensures
        orderly(s, s.add_b(opcode), true, true, true, 0),
{
    lemma_ccr_algebra();
}

/// ADD.W is orderly.
#[verifier::spinoff_prover]
proof fn lemma_orderly_add_w(s: CpuState, opcode: u16)
    ensures
        orderly(s, s.add_w(opcode), true, true, true, 2),
{
    lemma_ccr_algebra();
}

/// ADD.L is orderly.
#[verifier::spinoff_prover]
proof fn lemma_orderly_add_l(s: CpuState, opcode: u16)
    ensures
        orderly(s, s.add_l(opcode), true, true, true, 4),
{
    lemma_ccr_algebra();
}

/// CMP.W is orderly.
#[verifier::spinoff_prover]
proof fn lemma_orderly_compare_w(s: CpuState, opcode: u16)
    ensures
        orderly(s, s.cmp_w(opcode), true, true, true, 2),
{
    lemma_ccr_algebra();
}

/// CMP.L is orderly.
#[verifier::spinoff_prover]
proof fn lemma_orderly_compare_l(s: CpuState, opcode: u16)
    ensures
        orderly(s, s.cmp_l(opcode), true, true, true, 4),
{
    lemma_ccr_algebra();
}

/// CMP.W and CMP.L are orderly.
#[verifier::spinoff_prover]
proof fn lemma_orderly_compare(s: CpuState, opcode: u16)
    ensures
        orderly(s, s.cmp_w(opcode), true, true, true, 2),
        orderly(s, s.cmp_l(opcode), true, true, true, 4),
{
    lemma_orderly_compare_w(s, opcode);
    lemma_orderly_compare_l(s, opcode);
}

/// SUB.L is orderly.
#[verifier::spinoff_prover]
proof fn lemma_orderly_sub_l(s: CpuState, opcode: u16)
    ensures
        orderly(s, s.sub_l(opcode), true, true, true, 4),
{
    lemma_ccr_algebra();
}

/// ADDS and SUBS are orderly.
#[verifier::spinoff_prover]
proof fn lemma_orderly_adds(s: CpuState, opcode: u16)
    ensures
        orderly(s, s.adds(opcode), false, false, false, 0),
        orderly(s, s.subs(opcode), false, false, false, 0),
{
}

/// MOV.L between registers and from an immediate are orderly.
#[verifier::spinoff_prover]
proof fn lemma_orderly_mov_l_rn(s: CpuState, opcode: u16)
    ensures
        orderly(s, s.mov_l_rn(opcode), false, true, false, 0),
        orderly(s, s.mov_l_imm(opcode), false, true, false, 4),
{
    lemma_ccr_algebra();
}

/// MOV.L at @ERn is orderly.
#[verifier::spinoff_prover]
proof fn lemma_orderly_mov_l_ern(s: CpuState, opcode2: u16)
    ensures
        orderly(s, s.mov_l_ern(opcode2), false, true, false, 0),
{
    lemma_orderly_mov_access(s, s.ea_ern(nibble(opcode2, 3)), nibble(opcode2, 4), 2);
    lemma_orderly_mov_access(s, s.ea_ern(low3(nibble(opcode2, 3))), nibble(opcode2, 4), 2);
}

/// MOV.L at @(d:16,ERn) is orderly.
#[verifier::spinoff_prover]
proof fn lemma_orderly_mov_l_disp16(s: CpuState, opcode2: u16)
    ensures
        orderly(s, s.mov_l_disp16(opcode2), false, true, false, 2),
{
    lemma_orderly_fetch_fault(s, false, true, false, 2);
    if s.fetch().1 is Ok {
        let fetched = s.fetch().0;
        let operand = s.fetch().1->Ok_0;
        let data = nibble(opcode2, 4);
        let from = fetched.ea_disp16(nibble(opcode2, 3), operand);
        let to = fetched.ea_disp16(low3(nibble(opcode2, 3)), operand);
        lemma_orderly_mov_access(fetched, from, data, 3);
        lemma_orderly_mov_access(fetched, to, data, 3);
        lemma_orderly_after_fetch(s, fetched.mov_l_load(from, data, 3), false, true, false, 0);
        lemma_orderly_after_fetch(s, fetched.mov_l_store(to, data, 3), false, true, false, 0);
    }
}

/// MOV.L at @(d:24,ERn) is orderly.
#[verifier::spinoff_prover]
proof fn lemma_orderly_mov_l_disp24(s: CpuState, opcode2: u16, opcode3: u16)
    ensures
        orderly(s, s.mov_l_disp24(opcode2, opcode3), false, true, false, 4),
{
    lemma_orderly_fetch_fault(s, false, true, false, 4);
    if s.fetch_l().1 is Ok {
        let fetched = s.fetch_l().0;
        let operand = s.fetch_l().1->Ok_0;
        let data = nibble(opcode3, 4);
        let from = fetched.ea_disp24(nibble(opcode2, 3), operand);
        let to = fetched.ea_disp24(low3(nibble(opcode2, 3)), operand);
        lemma_orderly_mov_access(fetched, from, data, 5);
        lemma_orderly_mov_access(fetched, to, data, 5);
        lemma_orderly_after_fetch_l(s, fetched.mov_l_load(from, data, 5), false, true, false, 0);
        lemma_orderly_after_fetch_l(s, fetched.mov_l_store(to, data, 5), false, true, false, 0);
    }
}

/// MOV.L at @ERn+ and @-ERn are orderly.
#[verifier::spinoff_prover]
proof fn lemma_orderly_mov_l_inc_or_dec(s: CpuState, opcode2: u16)
    ensures
        orderly(s, s.mov_l_inc_or_dec(opcode2), false, true, false, 0),
{
    lemma_ccr_algebra();
}

/// MOV.L at @aa:16 is orderly.
#[verifier::spinoff_prover]
proof fn lemma_orderly_mov_l_abs16(s: CpuState, opcode2: u16)
    ensures
        orderly(s, s.mov_l_abs16(opcode2), false, true, false, 2),
{
    lemma_orderly_fetch_fault(s, false, true, false, 2);
    if s.fetch().1 is Ok {
        let fetched = s.fetch().0;
        let operand = s.fetch().1->Ok_0;
        let data = nibble(opcode2, 4);
        let from = Ok::<u32, Fault>(abs16_addr(operand));
        let to = Ok::<u32, Fault>(abs16_addr(operand));
        lemma_orderly_mov_access(fetched, from, data, 3);
        lemma_orderly_mov_access(fetched, to, data, 3);
        lemma_orderly_after_fetch(s, fetched.mov_l_load(from, data, 3), false, true, false, 0);
        lemma_orderly_after_fetch(s, fetched.mov_l_store(to, data, 3), false, true, false, 0);
    }
}

/// MOV.L at @aa:24 is orderly.
#[verifier::spinoff_prover]
proof fn lemma_orderly_mov_l_abs24(s: CpuState, opcode2: u16)
    ensures
        orderly(s, s.mov_l_abs24(opcode2), false, true, false, 4),
{
    lemma_orderly_fetch_fault(s, false, true, false, 4);
    if s.fetch_l().1 is Ok {
        let fetched = s.fetch_l().0;
        let operand = s.fetch_l().1->Ok_0;
        let data = nibble(opcode2, 4);
        let from = Ok::<u32, Fault>(operand);
        let to = Ok::<u32, Fault>(operand);
        lemma_orderly_mov_access(fetched, from, data, 4);
        lemma_orderly_mov_access(fetched, to, data, 4);
        lemma_orderly_after_fetch_l(s, fetched.mov_l_load(from, data, 4), false, true, false, 0);
        lemma_orderly_after_fetch_l(s, fetched.mov_l_store(to, data, 4), false, true, false, 0);
    }
}

/// MOV.L with an operand in memory is orderly.
#[verifier::spinoff_prover]
proof fn lemma_orderly_mov_l_mem(s: CpuState, opcode2: u16)
    ensures
        orderly(s, s.mov_l_mem(opcode2), false, true, false, 6),
{
    lemma_orderly_mov_l_ern(s, opcode2);
    lemma_orderly_mov_l_disp16(s, opcode2);
    lemma_orderly_mov_l_inc_or_dec(s, opcode2);
    lemma_orderly_mov_l_abs16(s, opcode2);
    lemma_orderly_mov_l_abs24(s, opcode2);
    lemma_orderly_weaken(s, s.mov_l_ern(opcode2), false, true, false, 0, 6);
    lemma_orderly_weaken(s, s.mov_l_disp16(opcode2), false, true, false, 2, 6);
    lemma_orderly_weaken(s, s.mov_l_inc_or_dec(opcode2), false, true, false, 0, 6);
    lemma_orderly_weaken(s, s.mov_l_abs16(opcode2), false, true, false, 2, 6);
    lemma_orderly_weaken(s, s.mov_l_abs24(opcode2), false, true, false, 4, 6);
    lemma_orderly_fault(s, Fault::UnimplementedOpcode, false, true, false, 6);
    if s.fetch().1 is Ok {
        let fetched = s.fetch().0;
        let opcode3 = s.fetch().1->Ok_0;
        lemma_orderly_mov_l_disp24(fetched, opcode2, opcode3);
        lemma_orderly_after_fetch(
            s,
            fetched.mov_l_disp24(opcode2, opcode3),
            false,
            true,
            false,
            4,
        );
        lemma_orderly_fault(fetched, Fault::UnimplementedOpcode, false, true, false, 4);
        lemma_orderly_after_fetch(
            s,
            (fetched, Err(Fault::UnimplementedOpcode)),
            false,
            true,
            false,
            4,
        );
    }
}

/// MOV.L is orderly.
#[verifier::spinoff_prover]
proof fn lemma_orderly_mov_l(s: CpuState, opcode: u16)
    ensures
        orderly(s, s.mov_l(opcode), false, true, false, 8),
{
    lemma_orderly_mov_l_rn(s, opcode);
    lemma_orderly_weaken(s, s.mov_l_rn(opcode), false, true, false, 0, 8);
    lemma_orderly_weaken(s, s.mov_l_imm(opcode), false, true, false, 4, 8);
    lemma_orderly_fault(s, Fault::UnimplementedOpcode, false, true, false, 8);
    if s.fetch().1 is Ok {
        let fetched = s.fetch().0;
        let opcode2 = s.fetch().1->Ok_0;
        lemma_orderly_mov_l_mem(fetched, opcode2);
        lemma_orderly_after_fetch(s, fetched.mov_l_mem(opcode2), false, true, false, 6);
    }
}

/// Group 7A is orderly.
#[verifier::spinoff_prover]
proof fn lemma_orderly_imm32(s: CpuState, opcode: u16)
    ensures
        orderly(
            s,
            s.exec_imm32(opcode),
            nibble(opcode, 3) != 0,
            true,
            nibble(opcode, 3) != 0,
            8,
        ),
{
    lemma_orderly_mov_l(s, opcode);
    lemma_orderly_add_l(s, opcode);
    lemma_orderly_compare(s, opcode);
    lemma_orderly_sub_l(s, opcode);
    lemma_orderly_weaken(s, s.add_l(opcode), true, true, true, 4, 8);
    lemma_orderly_weaken(s, s.cmp_l(opcode), true, true, true, 4, 8);
    lemma_orderly_weaken(s, s.sub_l(opcode), true, true, true, 4, 8);
    lemma_orderly_fault(s, Fault::UnimplementedOpcode, false, true, false, 8);
}

/// MOV.W between registers is orderly.
#[verifier::spinoff_prover]
proof fn lemma_orderly_mov_w_rn(s: CpuState, opcode: u16)
    ensures
        orderly(s, s.mov_w_rn(opcode), false, true, false, 0),
{
    lemma_ccr_algebra();
}

/// MOV.W from an immediate is orderly.
#[verifier::spinoff_prover]
proof fn lemma_orderly_mov_w_imm(s: CpuState, opcode: u16)
    ensures
        orderly(s, s.mov_w_imm(opcode), false, true, false, 2),
{
    lemma_ccr_algebra();
}

/// MOV.W at @ERn is orderly.
#[verifier::spinoff_prover]
proof fn lemma_orderly_mov_w_ern(s: CpuState, opcode: u16)
    ensures
        orderly(s, s.mov_w_ern(opcode), false, true, false, 0),
{
    lemma_orderly_mov_access(s, s.ea_ern(nibble(opcode, 3)), nibble(opcode, 4), 1);
    lemma_orderly_mov_access(s, s.ea_ern(low3(nibble(opcode, 3))), nibble(opcode, 4), 1);
}

/// MOV.W at @(d:16,ERn) is orderly.
#[verifier::spinoff_prover]
proof fn lemma_orderly_mov_w_disp16(s: CpuState, opcode: u16)
    ensures
        orderly(s, s.mov_w_disp16(opcode), false, true, false, 2),
{
    lemma_orderly_fetch_fault(s, false, true, false, 2);
    if s.fetch().1 is Ok {
        let fetched = s.fetch().0;
        let operand = s.fetch().1->Ok_0;
        let data = nibble(opcode, 4);
        let from = fetched.ea_disp16(nibble(opcode, 3), operand);
        let to = fetched.ea_disp16(low3(nibble(opcode, 3)), operand);
        lemma_orderly_mov_access(fetched, from, data, 2);
        lemma_orderly_mov_access(fetched, to, data, 2);
        lemma_orderly_after_fetch(s, fetched.mov_w_load(from, data, 2), false, true, false, 0);
        lemma_orderly_after_fetch(s, fetched.mov_w_store(to, data, 2), false, true, false, 0);
    }
}

/// MOV.W at @ERn+ and @-ERn are orderly.
#[verifier::spinoff_prover]
proof fn lemma_orderly_mov_w_inc_or_dec(s: CpuState, opcode: u16)
    ensures
        orderly(s, s.mov_w_inc_or_dec(opcode), false, true, false, 0),
{
    lemma_ccr_algebra();
}

/// MOV.W at @aa:16 is orderly.
#[verifier::spinoff_prover]
proof fn lemma_orderly_mov_w_abs16(s: CpuState, opcode: u16)
    ensures
        orderly(s, s.mov_w_abs16(opcode), false, true, false, 2),
{
    lemma_orderly_fetch_fault(s, false, true, false, 2);
    if s.fetch().1 is Ok {
        let fetched = s.fetch().0;
        let operand = s.fetch().1->Ok_0;
        let data = nibble(opcode, 4);
        let from = Ok::<u32, Fault>(abs16_addr(operand));
        let to = Ok::<u32, Fault>(abs16_addr(operand));
        lemma_orderly_mov_access(fetched, from, data, 2);
        lemma_orderly_mov_access(fetched, to, data, 2);
        lemma_orderly_after_fetch(s, fetched.mov_w_load(from, data, 2), false, true, false, 0);
        lemma_orderly_after_fetch(s, fetched.mov_w_store(to, data, 2), false, true, false, 0);
    }
}

/// MOV.W at @aa:24 is orderly.
#[verifier::spinoff_prover]
proof fn lemma_orderly_mov_w_abs24(s: CpuState, opcode: u16)
    ensures
        orderly(s, s.mov_w_abs24(opcode), false, true, false, 4),
{
    lemma_orderly_fetch_fault(s, false, true, false, 4);
    if s.fetch_l().1 is Ok {
        let fetched = s.fetch_l().0;
        let operand = s.fetch_l().1->Ok_0;
        let data = nibble(opcode, 4);
        let from = Ok::<u32, Fault>(operand);
        let to = Ok::<u32, Fault>(operand);
        lemma_orderly_mov_access(fetched, from, data, 3);
        lemma_orderly_mov_access(fetched, to, data, 3);
        lemma_orderly_after_fetch_l(s, fetched.mov_w_load(from, data, 3), false, true, false, 0);
        lemma_orderly_after_fetch_l(s, fetched.mov_w_store(to, data, 3), false, true, false, 0);
    }
}

/// MOV.W is orderly.
#[verifier::spinoff_prover]
proof fn lemma_orderly_mov_w(s: CpuState, opcode: u16)
    ensures
        orderly(s, s.mov_w(opcode), false, true, false, 4),
{
    lemma_orderly_mov_w_rn(s, opcode);
    lemma_orderly_mov_w_imm(s, opcode);
    lemma_orderly_mov_w_ern(s, opcode);
    lemma_orderly_mov_w_disp16(s, opcode);
    lemma_orderly_mov_w_inc_or_dec(s, opcode);
    lemma_orderly_mov_w_abs16(s, opcode);
    lemma_orderly_mov_w_abs24(s, opcode);
    lemma_orderly_weaken(s, s.mov_w_rn(opcode), false, true, false, 0, 4);
    lemma_orderly_weaken(s, s.mov_w_imm(opcode), false, true, false, 2, 4);
    lemma_orderly_weaken(s, s.mov_w_ern(opcode), false, true, false, 0, 4);
    lemma_orderly_weaken(s, s.mov_w_disp16(opcode), false, true, false, 2, 4);
    lemma_orderly_weaken(s, s.mov_w_inc_or_dec(opcode), false, true, false, 0, 4);
    lemma_orderly_weaken(s, s.mov_w_abs16(opcode), false, true, false, 2, 4);
    lemma_orderly_fault(s, Fault::UnimplementedOpcode, false, true, false, 4);
}

/// MOV.W at @(d:24,ERn) is orderly.
#[verifier::spinoff_prover]
proof fn lemma_orderly_mov_w_disp24(s: CpuState, opcode: u16, opcode2: u16)
    ensures
        orderly(s, s.mov_w_disp24(opcode, opcode2), false, true, false, 4),
{
    lemma_orderly_fetch_fault(s, false, true, false, 4);
    if s.fetch_l().1 is Ok {
        let fetched = s.fetch_l().0;
        let operand = s.fetch_l().1->Ok_0;
        let data = nibble(opcode2, 4);
        let from = fetched.ea_disp24(nibble(opcode, 3), operand);
        let to = fetched.ea_disp24(low3(nibble(opcode, 3)), operand);
        lemma_orderly_mov_access(fetched, from, data, 4);
        lemma_orderly_mov_access(fetched, to, data, 4);
        lemma_orderly_after_fetch_l(s, fetched.mov_w_load(from, data, 4), false, true, false, 0);
        lemma_orderly_after_fetch_l(s, fetched.mov_w_store(to, data, 4), false, true, false, 0);
    }
}

/// Group 78 is orderly.
#[verifier::spinoff_prover]
proof fn lemma_orderly_disp24(s: CpuState, opcode: u16)
    ensures
        orderly(s, s.exec_disp24(opcode), false, true, false, 6),
{
    lemma_orderly_fault(s, Fault::UnimplementedOpcode, false, true, false, 6);
    if s.fetch().1 is Ok {
        let fetched = s.fetch().0;
        let opcode2 = s.fetch().1->Ok_0;
        lemma_orderly_mov_w_disp24(fetched, opcode, opcode2);
        lemma_orderly_after_fetch(s, fetched.mov_w_disp24(opcode, opcode2), false, true, false, 4);
        lemma_orderly_fault(fetched, Fault::UnimplementedOpcode, false, true, false, 4);
        lemma_orderly_after_fetch(
            s,
            (fetched, Err(Fault::UnimplementedOpcode)),
            false,
            true,
            false,
            4,
        );
    }
}

/// SHLL is orderly.
#[verifier::spinoff_prover]
proof fn lemma_orderly_shll(s: CpuState, opcode: u16)
    ensures
        orderly(s, s.shll_b(opcode), false, true, true, 0),
        orderly(s, s.shll_w(opcode), false, true, true, 0),
        orderly(s, s.shll_l(opcode), false, true, true, 0),
{
    lemma_ccr_algebra();
}

/// SHAL is orderly.
#[verifier::spinoff_prover]
proof fn lemma_orderly_shal(s: CpuState, opcode: u16)
    ensures
        orderly(s, s.shal_b(opcode), false, true, true, 0),
        orderly(s, s.shal_w(opcode), false, true, true, 0),
        orderly(s, s.shal_l(opcode), false, true, true, 0),
{
    lemma_ccr_algebra();
}

/// Group 10 is orderly.
#[verifier::spinoff_prover]
proof fn lemma_orderly_shift(s: CpuState, opcode: u16)
    ensures
        orderly(s, s.exec_shift(opcode), false, true, true, 0),
{
    lemma_orderly_shll(s, opcode);
    lemma_orderly_shal(s, opcode);
    lemma_orderly_fault(s, Fault::UnimplementedOpcode, false, true, true, 0);
}

/// BAND and BILD on a register are orderly.
#[verifier::spinoff_prover]
proof fn lemma_orderly_bit_test_rn(s: CpuState, opcode: u16)
    ensures
        orderly(s, s.band_rn(opcode), false, false, true, 0),
        orderly(s, s.bild_rn(opcode), false, false, true, 0),
{
    lemma_ccr_algebra();
}

/// BAND and BILD on a byte in memory are orderly.
#[verifier::spinoff_prover]
proof fn lemma_orderly_bit_test_mem(s: CpuState, opcode: u16, opcode2: u16)
    ensures
        orderly(s, s.band_ern(opcode, opcode2), false, false, true, 0),
        orderly(s, s.bild_ern(opcode, opcode2), false, false, true, 0),
        orderly(s, s.band_abs(opcode, opcode2), false, false, true, 0),
        orderly(s, s.bild_abs(opcode, opcode2), false, false, true, 0),
{
    lemma_ccr_algebra();
}

/// Group 7C is orderly.
#[verifier::spinoff_prover]
proof fn lemma_orderly_bit_test_ern(s: CpuState, opcode: u16)
    ensures
        orderly(s, s.exec_bit_test_ern(opcode), false, false, true, 2),
{
    lemma_orderly_fault(s, Fault::UnimplementedOpcode, false, false, true, 2);
    if s.fetch().1 is Ok {
        let fetched = s.fetch().0;
        let opcode2 = s.fetch().1->Ok_0;
        lemma_orderly_bit_test_mem(fetched, opcode, opcode2);
        lemma_orderly_after_fetch(s, fetched.band_ern(opcode, opcode2), false, false, true, 0);
        lemma_orderly_after_fetch(s, fetched.bild_ern(opcode, opcode2), false, false, true, 0);
        lemma_orderly_fault(fetched, Fault::UnimplementedOpcode, false, false, true, 0);
        lemma_orderly_after_fetch(
            s,
            (fetched, Err(Fault::UnimplementedOpcode)),
            false,
            false,
            true,
            0,
        );
    }
}

/// Group 7E is orderly.
#[verifier::spinoff_prover]
proof fn lemma_orderly_bit_test_abs(s: CpuState, opcode: u16)
    ensures
        orderly(s, s.exec_bit_test_abs(opcode), false, false, true, 2),
{
    lemma_orderly_fault(s, Fault::UnimplementedOpcode, false, false, true, 2);
    if s.fetch().1 is Ok {
        let fetched = s.fetch().0;
        let opcode2 = s.fetch().1->Ok_0;
        lemma_orderly_bit_test_mem(fetched, opcode, opcode2);
        lemma_orderly_after_fetch(s, fetched.band_abs(opcode, opcode2), false, false, true, 0);
        lemma_orderly_after_fetch(s, fetched.bild_abs(opcode, opcode2), false, false, true, 0);
        lemma_orderly_fault(fetched, Fault::UnimplementedOpcode, false, false, true, 0);
        lemma_orderly_after_fetch(
            s,
            (fetched, Err(Fault::UnimplementedOpcode)),
            false,
            false,
            true,
            0,
        );
    }
}

/// BST, BNOT and BCLR on a register are orderly.
#[verifier::spinoff_prover]
proof fn lemma_orderly_bit_write_rn(s: CpuState, opcode: u16)
    ensures
        orderly(s, s.bst_rn(opcode), false, false, false, 0),
        orderly(s, s.bnot_rn_from_rn(opcode), false, false, false, 0),
        orderly(s, s.bnot_rn_from_imm(opcode), false, false, false, 0),
        orderly(s, s.bclr_rn_from_rn(opcode), false, false, false, 0),
        orderly(s, s.bclr_rn_from_imm(opcode), false, false, false, 0),
{
}

/// BST, BNOT and BCLR on a byte in memory are orderly.
#[verifier::spinoff_prover]
proof fn lemma_orderly_bit_write_mem(s: CpuState, opcode: u16, opcode2: u16)
    ensures
        orderly(s, s.bst_ern(opcode, opcode2), false, false, false, 0),
        orderly(s, s.bst_abs(opcode, opcode2), false, false, false, 0),
        orderly(s, s.bnot_ern(opcode, opcode2), false, false, false, 0),
        orderly(s, s.bnot_abs(opcode, opcode2), false, false, false, 0),
        orderly(s, s.bclr_ern(opcode, opcode2), false, false, false, 0),
        orderly(s, s.bclr_abs(opcode, opcode2), false, false, false, 0),
{
}

/// Group 7D is orderly.
#[verifier::spinoff_prover]
proof fn lemma_orderly_bit_write_ern(s: CpuState, opcode: u16)
    ensures
        orderly(s, s.exec_bit_write_ern(opcode), false, false, false, 2),
{
    lemma_orderly_fault(s, Fault::UnimplementedOpcode, false, false, false, 2);
    if s.fetch().1 is Ok {
        let fetched = s.fetch().0;
        let opcode2 = s.fetch().1->Ok_0;
        lemma_orderly_bit_write_mem(fetched, opcode, opcode2);
        lemma_orderly_after_fetch(s, fetched.bst_ern(opcode, opcode2), false, false, false, 0);
        lemma_orderly_after_fetch(s, fetched.bnot_ern(opcode, opcode2), false, false, false, 0);
        lemma_orderly_after_fetch(s, fetched.bclr_ern(opcode, opcode2), false, false, false, 0);
        lemma_orderly_fault(fetched, Fault::UnimplementedOpcode, false, false, false, 0);
        lemma_orderly_after_fetch(
            s,
            (fetched, Err(Fault::UnimplementedOpcode)),
            false,
            false,
            false,
            0,
        );
    }
}

/// Group 7F is orderly.
#[verifier::spinoff_prover]
proof fn lemma_orderly_bit_write_abs(s: CpuState, opcode: u16)
    ensures
        orderly(s, s.exec_bit_write_abs(opcode), false, false, false, 2),
{
    lemma_orderly_fault(s, Fault::UnimplementedOpcode, false, false, false, 2);
    if s.fetch().1 is Ok {
        let fetched = s.fetch().0;
        let opcode2 = s.fetch().1->Ok_0;
        lemma_orderly_bit_write_mem(fetched, opcode, opcode2);
        lemma_orderly_after_fetch(s, fetched.bst_abs(opcode, opcode2), false, false, false, 0);
        lemma_orderly_after_fetch(s, fetched.bnot_abs(opcode, opcode2), false, false, false, 0);
        lemma_orderly_after_fetch(s, fetched.bclr_abs(opcode, opcode2), false, false, false, 0);
        lemma_orderly_fault(fetched, Fault::UnimplementedOpcode, false, false, false, 0);
        lemma_orderly_after_fetch(
            s,
            (fetched, Err(Fault::UnimplementedOpcode)),
            false,
            false,
            false,
            0,
        );
    }
}

/// Bcc is orderly.
#[verifier::spinoff_prover]
proof fn lemma_orderly_branch(s: CpuState, opcode: u16)
    ensures
        orderly(s, s.bcc(opcode), false, false, false, -1),
{
}

/// BSR is orderly.
#[verifier::spinoff_prover]
proof fn lemma_orderly_call(s: CpuState, opcode: u16)
    ensures
        orderly(s, s.bsr_disp16(opcode), false, false, false, -1),
        orderly(s, s.bsr_disp24(opcode), false, false, false, -1),
{
}

/// JMP is orderly.
#[verifier::spinoff_prover]
proof fn lemma_orderly_jump(s: CpuState, opcode: u16)
    ensures
        orderly(s, s.jmp(opcode), false, false, false, -1),
{
}

/// JSR and RTS are orderly.
#[verifier::spinoff_prover]
proof fn lemma_orderly_subroutine(s: CpuState, opcode: u16)
    ensures
        orderly(s, s.jsr(opcode), false, false, false, -1),
        orderly(s, s.rts(), false, false, false, -1),
{
}

/// Group 79 is orderly.
#[verifier::spinoff_prover]
proof fn lemma_orderly_imm16(s: CpuState, opcode: u16)
    ensures
        orderly(
            s,
            s.exec_imm16(opcode),
            nibble(opcode, 3) != 0,
            true,
            nibble(opcode, 3) != 0,
            8,
        ),
{
    lemma_orderly_mov_w(s, opcode);
    lemma_orderly_add_w(s, opcode);
    lemma_orderly_compare(s, opcode);
    lemma_orderly_weaken(s, s.mov_w(opcode), false, true, false, 4, 8);
    lemma_orderly_weaken(s, s.add_w(opcode), true, true, true, 2, 8);
    lemma_orderly_weaken(s, s.cmp_w(opcode), true, true, true, 2, 8);
    lemma_orderly_fault(s, Fault::UnimplementedOpcode, false, true, false, 8);
}

/// What `lemma_exec_orderly` says of an instruction.
pub open spec fn exec_orderly(s: CpuState, opcode: u16) -> bool {
    orderly(
        s,
        s.exec(opcode),
        may_change(opcode, CCR::H),
        may_change(opcode, CCR::N),
        may_change(opcode, CCR::C),
        if transfers_control(opcode) {
            -1int
        } else {
            8int
        },
    )
}

/// The instructions of the groups below 40 are orderly: the moves between
/// registers, the arithmetic and the shifts.
#[verifier::spinoff_prover]
proof fn lemma_exec_orderly_low(s: CpuState, opcode: u16)
    requires
        high_byte(opcode) < 0x40,
    ensures
        exec_orderly(s, opcode),
{
    reveal(CpuState::exec);
    lemma_orderly_mov_l(s, opcode);
    lemma_orderly_add_b(s, opcode);
    lemma_orderly_add_w(s, opcode);
    lemma_orderly_add_l(s, opcode);
    lemma_orderly_adds(s, opcode);
    lemma_orderly_mov_w(s, opcode);
    lemma_orderly_shift(s, opcode);
    lemma_orderly_sub_l(s, opcode);
    lemma_orderly_compare(s, opcode);
}

/// The instructions of the groups 40 to 5F are orderly: the branches, the
/// jumps, the calls, the return and TRAPA.
#[verifier::spinoff_prover]
proof fn lemma_exec_orderly_transfer(s: CpuState, opcode: u16)
    requires
        0x40 <= high_byte(opcode) < 0x60,
    ensures
        exec_orderly(s, opcode),
{
    reveal(CpuState::exec);
    lemma_orderly_branch(s, opcode);
    lemma_orderly_call(s, opcode);
    lemma_orderly_jump(s, opcode);
    lemma_orderly_subroutine(s, opcode);
}

/// The instructions of the groups 60 to 77 are orderly: the bit
/// instructions on a register and the moves of a word.
#[verifier::spinoff_prover]
proof fn lemma_exec_orderly_bits(s: CpuState, opcode: u16)
    requires
        0x60 <= high_byte(opcode) < 0x78,
    ensures
        exec_orderly(s, opcode),
{
    reveal(CpuState::exec);
    lemma_orderly_mov_w(s, opcode);
    lemma_orderly_bit_test_rn(s, opcode);
    lemma_orderly_bit_write_rn(s, opcode);
}

/// The instructions of the groups from 78 on are orderly: those of more
/// than one word, and ADD.B with an immediate.
#[verifier::spinoff_prover]
proof fn lemma_exec_orderly_long(s: CpuState, opcode: u16)
    requires
        0x78 <= high_byte(opcode),
    ensures
        exec_orderly(s, opcode),
{
    reveal(CpuState::exec);
    lemma_orderly_disp24(s, opcode);
    lemma_orderly_imm16(s, opcode);
    lemma_orderly_imm32(s, opcode);
    lemma_orderly_bit_test_ern(s, opcode);
    lemma_orderly_bit_test_abs(s, opcode);
    lemma_orderly_bit_write_ern(s, opcode);
    lemma_orderly_bit_write_abs(s, opcode);
    lemma_orderly_add_b(s, opcode);
}

/// Every instruction is orderly, with the condition codes that `may_change`
/// names for its opcode, and runs on unless it transfers control.
pub proof fn lemma_exec_orderly(s: CpuState, opcode: u16)
    ensures
        exec_orderly(s, opcode),
{
    if high_byte(opcode) < 0x40 {
        lemma_exec_orderly_low(s, opcode);
    } else if high_byte(opcode) < 0x60 {
        lemma_exec_orderly_transfer(s, opcode);
    } else if high_byte(opcode) < 0x78 {
        lemma_exec_orderly_bits(s, opcode);
    } else {
        lemma_exec_orderly_long(s, opcode);
    }
}

/// An instruction that succeeds takes at least one state, and at most
/// `MAX_STATES`.
pub proof fn lemma_exec_takes_states(s: CpuState, opcode: u16)
    ensures
        s.exec(opcode).1 matches Ok(states) ==> 1 <= states <= MAX_STATES,
{
    lemma_exec_orderly(s, opcode);
}

/// A step that succeeds takes at least one state, and at most
/// `MAX_STATES`.
pub proof fn lemma_step_takes_states(s: CpuState)
    ensures
        s.step().1 matches Ok(states) ==> 1 <= states <= MAX_STATES,
{
    if s.fetch().1 is Ok {
        lemma_exec_orderly(s.fetch().0, s.fetch().1->Ok_0);
    }
}

/// An instruction leaves every condition code that it is not documented to
/// decide as it was, whether it succeeds or not.
pub proof fn lemma_exec_keeps_flags(s: CpuState, opcode: u16)
    ensures
        forall|code: CCR|
            !may_change(opcode, code) ==> #[trigger] s.exec(opcode).0.flag(code) == s.flag(code),
{
    lemma_exec_orderly(s, opcode);
}

/// An instruction leaves a program counter that was within 24 bits within
/// 24 bits, whether it succeeds or not.
pub proof fn lemma_exec_keeps_pc_in_range(s: CpuState, opcode: u16)
    requires
        s.pc < 0x100_0000,
    ensures
        s.exec(opcode).0.pc < 0x100_0000,
{
    lemma_exec_orderly(s, opcode);
}

/// A step that succeeds leaves the program counter within 24 bits.
pub proof fn lemma_step_keeps_pc_in_range(s: CpuState)
    ensures
        s.step().1 is Ok ==> s.step().0.pc < 0x100_0000,
{
    if s.fetch().1 is Ok {
        lemma_exec_orderly(s.fetch().0, s.fetch().1->Ok_0);
    }
}

/// One step of an instruction that does not transfer control leaves the
/// program counter at least one word and at most five words further, and
/// even where it was even.
pub proof fn lemma_step_advances(s: CpuState)
    requires
        s.step().1 is Ok,
        !transfers_control(s.fetch().1->Ok_0),
    ensures
        s.pc + 2 <= s.step().0.pc <= s.pc + 10,
        s.step().0.pc % 2 == s.pc % 2,
{
    lemma_exec_orderly(s.fetch().0, s.fetch().1->Ok_0);
}

} // verus!
