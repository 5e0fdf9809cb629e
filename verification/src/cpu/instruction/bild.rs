use vstd::prelude::*;
use crate::cpu::addressing_mode::abs::abs8_addr;
use crate::cpu::{Cpu, CCR};
use crate::error::Fault;
use crate::model::{bit_of, low3, low_byte, nibble, CpuState};
use crate::cpu::instruction::band::bit_read_states;
use crate::state::{states, StateType};

verus! {

impl CpuState {
    /// The state after BILD found `value` in its operand: C becomes the
    /// inverse of bit `n` of the value.
    pub open spec fn bild_with(self, value: u8, n: u8) -> CpuState {
        self.with_flag(CCR::C, !bit_of(value, n))
    }

    /// BILD #xx:3, Rd.
    pub open spec fn bild_rn(self, opcode: u16) -> (CpuState, Result<usize, Fault>) {
        let value = self.rn_b(nibble(opcode, 4));
        (self.bild_with(value, low3(nibble(opcode, 3))), Ok(states(StateType::I, 1)))
    }

    /// BILD #xx:3, @ERd. The bit number is in the second word.
    pub open spec fn bild_ern(self, opcode: u16, opcode2: u16) -> (
        CpuState,
        Result<usize, Fault>,
    ) {
        let ea = self.ea_ern(nibble(opcode, 3));
        match (ea, self.load_b_at(ea)) {
            (Ok(addr), Ok(value)) => (
                self.bild_with(value, low3(nibble(opcode2, 3))),
                Ok(bit_read_states(addr)),
            ),
            (_, Err(fault)) => (self, Err(fault)),
            (Err(fault), _) => (self, Err(fault)),
        }
    }

    /// BILD #xx:3, @aa:8. The bit number is in the second word.
    pub open spec fn bild_abs(self, opcode: u16, opcode2: u16) -> (
        CpuState,
        Result<usize, Fault>,
    ) {
        let addr = abs8_addr(low_byte(opcode));
        match self.load_b(addr) {
            Ok(value) => (
                self.bild_with(value, low3(nibble(opcode2, 3))),
                Ok(bit_read_states(addr)),
            ),
            Err(fault) => (self, Err(fault)),
        }
    }
}

impl Cpu {
    /// BILD #xx:3, Rd.
    pub fn bild_rn(&mut self, opcode: u16) -> (r: Result<usize, Fault>)
        ensures
            (final(self)@, r) == old(self)@.bild_rn(opcode),
    {
        let register = Cpu::get_nibble_opcode(opcode, 4)?;
        let value = self.read_rn_b(register)?;
        let imm = Cpu::field_low3(Cpu::get_nibble_opcode(opcode, 3)?);
        self.set_flag(CCR::C, (value >> imm) & 1 != 1);
        Ok(Cpu::calc_state(StateType::I, 1))
    }

    /// BILD #xx:3, @ERd.
    pub fn bild_ern(&mut self, opcode: u16, opcode2: u16) -> (r: Result<usize, Fault>)
        ensures
            (final(self)@, r) == old(self)@.bild_ern(opcode, opcode2),
    {
        let register = Cpu::get_nibble_opcode(opcode, 3)?;
        let access_addr = self.get_addr_ern(register)?;
        let value = self.read_ern_b(register)?;
        let imm = Cpu::field_low3(Cpu::get_nibble_opcode(opcode2, 3)?);
        self.set_flag(CCR::C, (value >> imm) & 1 != 1);
        Ok(
            Cpu::calc_state(StateType::I, 2) + Cpu::calc_state_with_addr(
                StateType::L,
                1,
                access_addr,
            ),
        )
    }

    /// BILD #xx:3, @aa:8.
    pub fn bild_abs(&mut self, opcode: u16, opcode2: u16) -> (r: Result<usize, Fault>)
        ensures
            (final(self)@, r) == old(self)@.bild_abs(opcode, opcode2),
    {
        let imm = Cpu::field_low3(Cpu::get_nibble_opcode(opcode2, 3)?);
        let value = self.read_abs8_b(Cpu::opcode_low(opcode))?;
        let access_addr = Cpu::get_addr_abs8(Cpu::opcode_low(opcode));
        self.set_flag(CCR::C, (value >> imm) & 1 != 1);
        Ok(
            Cpu::calc_state(StateType::I, 2) + Cpu::calc_state_with_addr(
                StateType::L,
                1,
                access_addr,
            ),
        )
    }
}

} // verus!
