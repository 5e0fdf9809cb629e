use vstd::prelude::*;
use crate::cpu::instruction::arith::add_result;
use crate::cpu::Cpu;
use crate::error::Fault;
use crate::model::{add_flags, high_byte, low_byte, nibble, CpuState, Flags, Size};
use crate::state::{states, StateType};

verus! {

/// Condition codes of an 8-bit addition.
pub open spec fn add_b_flags(dest: u8, src: u8) -> Flags {
    add_flags(Size::Byte, dest as int, src as int)
}

/// Sum of an 8-bit addition.
pub open spec fn add_b_result(dest: u8, src: u8) -> u8 {
    add_result(Size::Byte, dest as int, src as int) as u8
}

impl CpuState {
    /// The state after `src` was added to byte register `rd`.
    pub open spec fn add_b_into(self, rd: u8, src: u8) -> (CpuState, Result<usize, Fault>) {
        let dest = self.rn_b(rd);
        (
            self.with_flags(add_b_flags(dest, src)).with_rn_b(rd, add_b_result(dest, src)),
            Ok(states(StateType::I, 1)),
        )
    }

    /// ADD.B #xx:8, Rd: the register is the second nibble, the immediate
    /// the low byte.
    pub open spec fn add_b_imm(self, opcode: u16) -> (CpuState, Result<usize, Fault>) {
        self.add_b_into(nibble(opcode, 2), low_byte(opcode))
    }

    /// ADD.B Rs, Rd.
    pub open spec fn add_b_rn(self, opcode: u16) -> (CpuState, Result<usize, Fault>) {
        self.add_b_into(nibble(opcode, 4), self.rn_b(nibble(opcode, 3)))
    }

    /// ADD.B in either form; another opcode is not implemented.
    pub open spec fn add_b(self, opcode: u16) -> (CpuState, Result<usize, Fault>) {
        if nibble(opcode, 1) == 0x8 {
            self.add_b_imm(opcode)
        } else if high_byte(opcode) == 0x08 {
            self.add_b_rn(opcode)
        } else {
            (self, Err(Fault::UnimplementedOpcode))
        }
    }
}

impl Cpu {
    /// ADD.B in either form.
    pub fn add_b(&mut self, opcode: u16) -> (r: Result<usize, Fault>)
        ensures
            (final(self)@, r) == old(self)@.add_b(opcode),
    {
        if Cpu::get_nibble_opcode(opcode, 1)? == 0x8 {
            self.add_b_imm(opcode)
        } else if Cpu::opcode_high(opcode) == 0x08 {
            self.add_b_rn(opcode)
        } else {
            Err(Fault::UnimplementedOpcode)
        }
    }

    /// Adds two bytes, sets H, N, Z, V and C from the sum, and returns it.
    pub fn add_b_proc(&mut self, dest: u8, src: u8) -> (result: u8)
        ensures
            final(self)@ == old(self)@.with_flags(add_b_flags(dest, src)),
            final(self)@.flags() == add_b_flags(dest, src),
            result == add_b_result(dest, src),
    {
        self.add_proc(Size::Byte, dest as u32, src as u32) as u8
    }

    /// ADD.B #xx:8, Rd.
    pub fn add_b_imm(&mut self, opcode: u16) -> (r: Result<usize, Fault>)
        ensures
            (final(self)@, r) == old(self)@.add_b_imm(opcode),
    {
        let register = Cpu::get_nibble_opcode(opcode, 2)?;
        let dest = self.read_rn_b(register)?;
        let result = self.add_b_proc(dest, Cpu::opcode_low(opcode));
        self.write_rn_b(register, result)?;
        Ok(Cpu::calc_state(StateType::I, 1))
    }

    /// ADD.B Rs, Rd.
    pub fn add_b_rn(&mut self, opcode: u16) -> (r: Result<usize, Fault>)
        ensures
            (final(self)@, r) == old(self)@.add_b_rn(opcode),
    {
        let register_dest = Cpu::get_nibble_opcode(opcode, 4)?;
        let dest = self.read_rn_b(register_dest)?;
        let src = self.read_rn_b(Cpu::get_nibble_opcode(opcode, 3)?)?;
        let result = self.add_b_proc(dest, src);
        self.write_rn_b(register_dest, result)?;
        Ok(Cpu::calc_state(StateType::I, 1))
    }
}

} // verus!
