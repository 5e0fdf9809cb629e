use vstd::prelude::*;
use crate::cpu::{Cpu, CCR};
use crate::error::Fault;
use crate::model::{nibble, CpuState, Size};
use crate::state::{states, StateType};

verus! {

/// `src` shifted left by one bit at the given width.
pub open spec fn shll_result(size: Size, src: int) -> int {
    (src * 2) % size.modulus()
}

impl CpuState {
    /// The state with the condition codes of a shift of `src` to the left:
    /// N and Z follow the result, V is cleared, C takes the bit that was
    /// shifted out.
    pub open spec fn with_shll_flags(self, size: Size, src: int) -> CpuState {
        self.with_flag(CCR::N, shll_result(size, src) >= size.half()).with_flag(
            CCR::Z,
            shll_result(size, src) == 0,
        ).with_flag(CCR::V, false).with_flag(CCR::C, src >= size.half())
    }

    /// SHLL.B Rd.
    pub open spec fn shll_b(self, opcode: u16) -> (CpuState, Result<usize, Fault>) {
        let rd = nibble(opcode, 4);
        let src = self.rn_b(rd);
        (
            self.with_shll_flags(Size::Byte, src as int).with_rn_b(
                rd,
                shll_result(Size::Byte, src as int) as u8,
            ),
            Ok(states(StateType::I, 1)),
        )
    }

    /// SHLL.W Rd.
    pub open spec fn shll_w(self, opcode: u16) -> (CpuState, Result<usize, Fault>) {
        let rd = nibble(opcode, 4);
        let src = self.rn_w(rd);
        (
            self.with_shll_flags(Size::Word, src as int).with_rn_w(
                rd,
                shll_result(Size::Word, src as int) as u16,
            ),
            Ok(states(StateType::I, 1)),
        )
    }

    /// SHLL.L ERd. A register field with bit 3 set names no register.
    pub open spec fn shll_l(self, opcode: u16) -> (CpuState, Result<usize, Fault>) {
        let rd = nibble(opcode, 4);
        match self.reg_l(rd) {
            Ok(src) => (
                self.with_shll_flags(Size::Long, src as int).with_rn_l(
                    rd,
                    shll_result(Size::Long, src as int) as u32,
                ),
                Ok(states(StateType::I, 1)),
            ),
            Err(fault) => (self, Err(fault)),
        }
    }
}

impl Cpu {
    /// SHLL.B Rd.
    pub fn shll_b(&mut self, opcode: u16) -> (r: Result<usize, Fault>)
        ensures
            (final(self)@, r) == old(self)@.shll_b(opcode),
    {
        let register = Cpu::get_nibble_opcode(opcode, 4)?;
        let src = self.read_rn_b(register)?;
        let result: u8 = ((src as u16 * 2) % 0x100) as u8;
        self.set_flag(CCR::N, result >= 0x80);
        self.set_flag(CCR::Z, result == 0);
        self.set_flag(CCR::V, false);
        self.set_flag(CCR::C, src >= 0x80);
        self.write_rn_b(register, result)?;
        Ok(Cpu::calc_state(StateType::I, 1))
    }

    /// SHLL.W Rd.
    pub fn shll_w(&mut self, opcode: u16) -> (r: Result<usize, Fault>)
        ensures
            (final(self)@, r) == old(self)@.shll_w(opcode),
    {
        let register = Cpu::get_nibble_opcode(opcode, 4)?;
        let src = self.read_rn_w(register)?;
        let result: u16 = ((src as u32 * 2) % 0x1_0000) as u16;
        self.set_flag(CCR::N, result >= 0x8000);
        self.set_flag(CCR::Z, result == 0);
        self.set_flag(CCR::V, false);
        self.set_flag(CCR::C, src >= 0x8000);
        self.write_rn_w(register, result)?;
        Ok(Cpu::calc_state(StateType::I, 1))
    }

    /// SHLL.L ERd.
    pub fn shll_l(&mut self, opcode: u16) -> (r: Result<usize, Fault>)
        ensures
            (final(self)@, r) == old(self)@.shll_l(opcode),
    {
        let register = Cpu::get_nibble_opcode(opcode, 4)?;
        let src = self.read_rn_l(register)?;
        let result: u32 = ((src as u64 * 2) % 0x1_0000_0000) as u32;
        self.set_flag(CCR::N, result >= 0x8000_0000);
        self.set_flag(CCR::Z, result == 0);
        self.set_flag(CCR::V, false);
        self.set_flag(CCR::C, src >= 0x8000_0000);
        self.write_rn_l(register, result)?;
        Ok(Cpu::calc_state(StateType::I, 1))
    }
}

} // verus!
