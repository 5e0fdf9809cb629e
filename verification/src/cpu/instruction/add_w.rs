use vstd::prelude::*;
use crate::cpu::instruction::arith::add_result;
use crate::cpu::Cpu;
use crate::error::Fault;
use crate::model::{add_flags, high_byte, nibble, CpuState, Flags, Size};
use crate::state::{states, StateType};

verus! {

/// Condition codes of a 16-bit addition.
pub open spec fn add_w_flags(dest: u16, src: u16) -> Flags {
    add_flags(Size::Word, dest as int, src as int)
}

/// Sum of a 16-bit addition.
pub open spec fn add_w_result(dest: u16, src: u16) -> u16 {
    add_result(Size::Word, dest as int, src as int) as u16
}

impl CpuState {
    /// The state after `dest` and `src` were added into word register `rd`.
    pub open spec fn add_w_into(self, rd: u8, dest: u16, src: u16) -> CpuState {
        self.with_flags(add_w_flags(dest, src)).with_rn_w(rd, add_w_result(dest, src))
    }

    /// ADD.W #xx:16, Rd.
    pub open spec fn add_w_imm(self, opcode: u16) -> (CpuState, Result<usize, Fault>) {
        match self.fetch() {
            (fetched, Ok(imm)) => {
                let rd = nibble(opcode, 4);
                (fetched.add_w_into(rd, fetched.rn_w(rd), imm), Ok(states(StateType::I, 2)))
            },
            (failed, Err(fault)) => (failed, Err(fault)),
        }
    }

    /// ADD.W Rs, Rd. Either field names any of R0 to R7 and E0 to E7.
    pub open spec fn add_w_rn(self, opcode: u16) -> (CpuState, Result<usize, Fault>) {
        let rd = nibble(opcode, 4);
        let rs = nibble(opcode, 3);
        (self.add_w_into(rd, self.rn_w(rd), self.rn_w(rs)), Ok(states(StateType::I, 1)))
    }

    /// ADD.W in either form; another opcode is not implemented.
    pub open spec fn add_w(self, opcode: u16) -> (CpuState, Result<usize, Fault>) {
        if high_byte(opcode) == 0x79 {
            self.add_w_imm(opcode)
        } else if high_byte(opcode) == 0x09 {
            self.add_w_rn(opcode)
        } else {
            (self, Err(Fault::UnimplementedOpcode))
        }
    }
}

impl Cpu {
    /// ADD.W in either form.
    pub fn add_w(&mut self, opcode: u16) -> (r: Result<usize, Fault>)
        ensures
            (final(self)@, r) == old(self)@.add_w(opcode),
    {
        match Cpu::opcode_high(opcode) {
            0x79 => self.add_w_imm(opcode),
            0x09 => self.add_w_rn(opcode),
            _ => Err(Fault::UnimplementedOpcode),
        }
    }

    /// Adds two half-words, sets H, N, Z, V and C from the sum, and returns
    /// it.
    pub fn add_w_proc(&mut self, dest: u16, src: u16) -> (result: u16)
        ensures
            final(self)@ == old(self)@.with_flags(add_w_flags(dest, src)),
            final(self)@.flags() == add_w_flags(dest, src),
            result == add_w_result(dest, src),
    {
        self.add_proc(Size::Word, dest as u32, src as u32) as u16
    }

    /// ADD.W #xx:16, Rd.
    pub fn add_w_imm(&mut self, opcode: u16) -> (r: Result<usize, Fault>)
        ensures
            (final(self)@, r) == old(self)@.add_w_imm(opcode),
    {
        let imm = self.fetch()?;
        let register = Cpu::get_nibble_opcode(opcode, 4)?;
        let dest = self.read_rn_w(register)?;
        let result = self.add_w_proc(dest, imm);
        self.write_rn_w(register, result)?;
        Ok(Cpu::calc_state(StateType::I, 2))
    }

    /// ADD.W Rs, Rd.
    pub fn add_w_rn(&mut self, opcode: u16) -> (r: Result<usize, Fault>)
        ensures
            (final(self)@, r) == old(self)@.add_w_rn(opcode),
    {
        let register_dest = Cpu::get_nibble_opcode(opcode, 4)?;
        let dest = self.read_rn_w(register_dest)?;
        let register_src = Cpu::get_nibble_opcode(opcode, 3)?;
        let src = self.read_rn_w(register_src)?;
        let result = self.add_w_proc(dest, src);
        self.write_rn_w(register_dest, result)?;
        Ok(Cpu::calc_state(StateType::I, 1))
    }
}

} // verus!
