use vstd::prelude::*;
use crate::cpu::addressing_mode::abs::abs8_addr;
use crate::cpu::instruction::band::bit_write_states;
use crate::cpu::{Cpu, CCR};
use crate::error::Fault;
use crate::model::{low3, low_byte, nibble, CpuState};
use crate::state::{states, StateType};

verus! {

/// What BST leaves of `value`: bit `n` is the carry, every other bit is
/// what it was.
pub open spec fn bit_stored(value: u8, n: u8, carry: bool) -> u8 {
    if carry {
        value | (1u8 << n)
    } else {
        value & !(1u8 << n)
    }
}

impl CpuState {
    /// The state after BST wrote the byte at `addr` back.
    pub open spec fn bst_at(self, addr: u32, n: u8) -> (CpuState, Result<usize, Fault>) {
        match self.load_b(addr) {
            Ok(value) => match self.store_b(addr, bit_stored(value, n, self.flag(CCR::C))) {
                (stored, Ok(_)) => (stored, Ok(bit_write_states(addr))),
                (failed, Err(fault)) => (failed, Err(fault)),
            },
            Err(fault) => (self, Err(fault)),
        }
    }

    /// BST #xx:3, Rd.
    pub open spec fn bst_rn(self, opcode: u16) -> (CpuState, Result<usize, Fault>) {
        let rd = nibble(opcode, 4);
        let n = low3(nibble(opcode, 3));
        (
            self.with_rn_b(rd, bit_stored(self.rn_b(rd), n, self.flag(CCR::C))),
            Ok(states(StateType::I, 1)),
        )
    }

    /// BST #xx:3, @ERd. The bit number is in the second word.
    pub open spec fn bst_ern(self, opcode: u16, opcode2: u16) -> (CpuState, Result<usize, Fault>) {
        match self.ea_ern(nibble(opcode, 3)) {
            Ok(addr) => self.bst_at(addr, low3(nibble(opcode2, 3))),
            Err(fault) => (self, Err(fault)),
        }
    }

    /// BST #xx:3, @aa:8. The bit number is in the second word.
    pub open spec fn bst_abs(self, opcode: u16, opcode2: u16) -> (CpuState, Result<usize, Fault>) {
        self.bst_at(abs8_addr(low_byte(opcode)), low3(nibble(opcode2, 3)))
    }
}

impl Cpu {
    /// BST #xx:3, Rd.
    pub fn bst_rn(&mut self, opcode: u16) -> (r: Result<usize, Fault>)
        ensures
            (final(self)@, r) == old(self)@.bst_rn(opcode),
    {
        let register = Cpu::get_nibble_opcode(opcode, 4)?;
        let value = self.read_rn_b(register)?;
        let imm = Cpu::field_low3(Cpu::get_nibble_opcode(opcode, 3)?);
        let c = self.read_ccr(CCR::C);
        if c == 1 {
            self.write_rn_b(register, value | (1u8 << imm))?;
        } else {
            self.write_rn_b(register, value & !(1u8 << imm))?;
        }
        Ok(Cpu::calc_state(StateType::I, 1))
    }

    /// BST #xx:3, @ERd.
    pub fn bst_ern(&mut self, opcode: u16, opcode2: u16) -> (r: Result<usize, Fault>)
        ensures
            (final(self)@, r) == old(self)@.bst_ern(opcode, opcode2),
    {
        let register = Cpu::get_nibble_opcode(opcode, 3)?;
        let access_addr = self.get_addr_ern(register)?;
        let value = self.read_ern_b(register)?;
        let imm = Cpu::field_low3(Cpu::get_nibble_opcode(opcode2, 3)?);
        let c = self.read_ccr(CCR::C);
        if c == 1 {
            self.write_ern_b(register, value | (1u8 << imm))?;
        } else {
            self.write_ern_b(register, value & !(1u8 << imm))?;
        }
        Ok(
            Cpu::calc_state(StateType::I, 2) + Cpu::calc_state_with_addr(
                StateType::L,
                2,
                access_addr,
            ),
        )
    }

    /// BST #xx:3, @aa:8.
    pub fn bst_abs(&mut self, opcode: u16, opcode2: u16) -> (r: Result<usize, Fault>)
        ensures
            (final(self)@, r) == old(self)@.bst_abs(opcode, opcode2),
    {
        let imm = Cpu::field_low3(Cpu::get_nibble_opcode(opcode2, 3)?);
        let value = self.read_abs8_b(Cpu::opcode_low(opcode))?;
        let c = self.read_ccr(CCR::C);
        if c == 1 {
            self.write_abs8_b(Cpu::opcode_low(opcode), value | (1u8 << imm))?;
        } else {
            self.write_abs8_b(Cpu::opcode_low(opcode), value & !(1u8 << imm))?;
        }
        let access_addr = Cpu::get_addr_abs8(Cpu::opcode_low(opcode));
        Ok(
            Cpu::calc_state(StateType::I, 2) + Cpu::calc_state_with_addr(
                StateType::L,
                2,
                access_addr,
            ),
        )
    }
}

} // verus!
