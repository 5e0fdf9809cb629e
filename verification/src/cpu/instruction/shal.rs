use vstd::prelude::*;
use crate::cpu::instruction::shll::shll_result;
use crate::cpu::{Cpu, CCR};
use crate::error::Fault;
use crate::model::{nibble, CpuState, Size};
use crate::state::{states, StateType};

verus! {

impl CpuState {
    /// The state with the condition codes of an arithmetic shift of `src`
    /// to the left: N and Z follow the result, V is set where the top bit
    /// of the result is not that of `src`, C takes the bit that was
    /// shifted out.
    pub open spec fn with_shal_flags(self, size: Size, src: int) -> CpuState {
        let result = shll_result(size, src);
        self.with_flag(CCR::N, result >= size.half()).with_flag(CCR::Z, result == 0).with_flag(
            CCR::V,
            (result >= size.half()) != (src >= size.half()),
        ).with_flag(CCR::C, src >= size.half())
    }

    /// SHAL.B Rd.
    pub open spec fn shal_b(self, opcode: u16) -> (CpuState, Result<usize, Fault>) {
        let rd = nibble(opcode, 4);
        let src = self.rn_b(rd);
        (
            self.with_shal_flags(Size::Byte, src as int).with_rn_b(
                rd,
                shll_result(Size::Byte, src as int) as u8,
            ),
            Ok(states(StateType::I, 1)),
        )
    }

    /// SHAL.W Rd.
    pub open spec fn shal_w(self, opcode: u16) -> (CpuState, Result<usize, Fault>) {
        let rd = nibble(opcode, 4);
        let src = self.rn_w(rd);
        (
            self.with_shal_flags(Size::Word, src as int).with_rn_w(
                rd,
                shll_result(Size::Word, src as int) as u16,
            ),
            Ok(states(StateType::I, 1)),
        )
    }

    /// SHAL.L ERd. A register field with bit 3 set names no register.
    pub open spec fn shal_l(self, opcode: u16) -> (CpuState, Result<usize, Fault>) {
        let rd = nibble(opcode, 4);
        match self.reg_l(rd) {
            Ok(src) => (
                self.with_shal_flags(Size::Long, src as int).with_rn_l(
                    rd,
                    shll_result(Size::Long, src as int) as u32,
                ),
                Ok(states(StateType::I, 1)),
            ),
            Err(fault) => (self, Err(fault)),
        }
    }
}

impl Cpu {
    /// SHAL.B Rd.
    pub fn shal_b(&mut self, opcode: u16) -> (r: Result<usize, Fault>)
        ensures
            (final(self)@, r) == old(self)@.shal_b(opcode),
    {
        let register = Cpu::get_nibble_opcode(opcode, 4)?;
        let src = self.read_rn_b(register)?;
        let result: u8 = ((src as u16 * 2) % 0x100) as u8;
        self.set_flag(CCR::N, result >= 0x80);
        self.set_flag(CCR::Z, result == 0);
        self.set_flag(CCR::V, (result >= 0x80) != (src >= 0x80));
        self.set_flag(CCR::C, src >= 0x80);
        self.write_rn_b(register, result)?;
        Ok(Cpu::calc_state(StateType::I, 1))
    }

    /// SHAL.W Rd.
    pub fn shal_w(&mut self, opcode: u16) -> (r: Result<usize, Fault>)
        ensures
            (final(self)@, r) == old(self)@.shal_w(opcode),
    {
        let register = Cpu::get_nibble_opcode(opcode, 4)?;
        let src = self.read_rn_w(register)?;
        let result: u16 = ((src as u32 * 2) % 0x1_0000) as u16;
        self.set_flag(CCR::N, result >= 0x8000);
        self.set_flag(CCR::Z, result == 0);
        self.set_flag(CCR::V, (result >= 0x8000) != (src >= 0x8000));
        self.set_flag(CCR::C, src >= 0x8000);
        self.write_rn_w(register, result)?;
        Ok(Cpu::calc_state(StateType::I, 1))
    }

    /// SHAL.L ERd.
    pub fn shal_l(&mut self, opcode: u16) -> (r: Result<usize, Fault>)
        ensures
            (final(self)@, r) == old(self)@.shal_l(opcode),
    {
        let register = Cpu::get_nibble_opcode(opcode, 4)?;
        let src = self.read_rn_l(register)?;
        let result: u32 = ((src as u64 * 2) % 0x1_0000_0000) as u32;
        self.set_flag(CCR::N, result >= 0x8000_0000);
        self.set_flag(CCR::Z, result == 0);
        self.set_flag(CCR::V, (result >= 0x8000_0000) != (src >= 0x8000_0000));
        self.set_flag(CCR::C, src >= 0x8000_0000);
        self.write_rn_l(register, result)?;
        Ok(Cpu::calc_state(StateType::I, 1))
    }
}

} // verus!
