use vstd::prelude::*;
use crate::cpu::instruction::arith::sub_result;
use crate::cpu::Cpu;
use crate::error::Fault;
use crate::model::{high_byte, low3, nibble, sub_flags, CpuState, Flags, Size};
use crate::state::{states, StateType};

verus! {

/// Condition codes of a 32-bit subtraction.
pub open spec fn sub_l_flags(dest: u32, src: u32) -> Flags {
    sub_flags(Size::Long, dest as int, src as int)
}

/// Difference of a 32-bit subtraction.
pub open spec fn sub_l_result(dest: u32, src: u32) -> u32 {
    sub_result(Size::Long, dest as int, src as int) as u32
}

impl CpuState {
    /// The state after `src` was subtracted from the extended register
    /// that `rd` names, in an instruction of `fetches` words. A field with
    /// bit 3 set names no register.
    pub open spec fn sub_l_from(self, rd: u8, src: u32, fetches: u8) -> (
        CpuState,
        Result<usize, Fault>,
    ) {
        match self.reg_l(rd) {
            Ok(dest) => (
                self.with_flags(sub_l_flags(dest, src)).with_rn_l(rd, sub_l_result(dest, src)),
                Ok(states(StateType::I, fetches)),
            ),
            Err(fault) => (self, Err(fault)),
        }
    }

    /// SUB.L #xx:32, ERd. The immediate follows in two words.
    pub open spec fn sub_l_imm(self, opcode: u16) -> (CpuState, Result<usize, Fault>) {
        match self.fetch_l() {
            (fetched, Ok(imm)) => fetched.sub_l_from(nibble(opcode, 4), imm, 3),
            (failed, Err(fault)) => (failed, Err(fault)),
        }
    }

    /// SUB.L ERs, ERd. The source is the register that the low three bits
    /// of its field name.
    pub open spec fn sub_l_rn(self, opcode: u16) -> (CpuState, Result<usize, Fault>) {
        self.sub_l_from(nibble(opcode, 4), self.rn_l(low3(nibble(opcode, 3))), 1)
    }

    /// SUB.L in either form; another opcode is not implemented.
    pub open spec fn sub_l(self, opcode: u16) -> (CpuState, Result<usize, Fault>) {
        if high_byte(opcode) == 0x7a {
            self.sub_l_imm(opcode)
        } else if high_byte(opcode) == 0x1a {
            self.sub_l_rn(opcode)
        } else {
            (self, Err(Fault::UnimplementedOpcode))
        }
    }
}

impl Cpu {
    /// SUB.L in either form.
    pub fn sub_l(&mut self, opcode: u16) -> (r: Result<usize, Fault>)
        ensures
            (final(self)@, r) == old(self)@.sub_l(opcode),
    {
        match Cpu::opcode_high(opcode) {
            0x7a => self.sub_l_imm(opcode),
            0x1a => self.sub_l_rn(opcode),
            _ => Err(Fault::UnimplementedOpcode),
        }
    }

    /// Subtracts `src` from `dest`, sets H, N, Z, V and C from the
    /// difference, and returns it.
    pub fn sub_l_proc(&mut self, dest: u32, src: u32) -> (result: u32)
        ensures
            final(self)@ == old(self)@.with_flags(sub_l_flags(dest, src)),
            final(self)@.flags() == sub_l_flags(dest, src),
            result == sub_l_result(dest, src),
    {
        self.sub_proc(Size::Long, dest, src)
    }

    /// SUB.L #xx:32, ERd.
    pub fn sub_l_imm(&mut self, opcode: u16) -> (r: Result<usize, Fault>)
        ensures
            (final(self)@, r) == old(self)@.sub_l_imm(opcode),
    {
        let imm = self.fetch_l()?;
        let register = Cpu::get_nibble_opcode(opcode, 4)?;
        let dest = self.read_rn_l(register)?;
        let result = self.sub_l_proc(dest, imm);
        self.write_rn_l(register, result)?;
        Ok(Cpu::calc_state(StateType::I, 3))
    }

    /// SUB.L ERs, ERd.
    pub fn sub_l_rn(&mut self, opcode: u16) -> (r: Result<usize, Fault>)
        ensures
            (final(self)@, r) == old(self)@.sub_l_rn(opcode),
    {
        let register_dest = Cpu::get_nibble_opcode(opcode, 4)?;
        let dest = self.read_rn_l(register_dest)?;
        let register_src = Cpu::field_low3(Cpu::get_nibble_opcode(opcode, 3)?);
        let src = self.read_rn_l(register_src)?;
        let result = self.sub_l_proc(dest, src);
        self.write_rn_l(register_dest, result)?;
        Ok(Cpu::calc_state(StateType::I, 1))
    }
}

} // verus!
