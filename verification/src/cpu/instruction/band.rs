use vstd::prelude::*;
use crate::cpu::addressing_mode::abs::abs8_addr;
use crate::cpu::{Cpu, CCR};
use crate::error::Fault;
use crate::model::{bit_of, low3, low_byte, nibble, CpuState};
use crate::state::{states, states_at, StateType};

verus! {

/// States of a bit instruction on a byte in memory that only reads it: two
/// fetches and one access.
pub open spec fn bit_read_states(addr: u32) -> usize {
    (states(StateType::I, 2) + states_at(StateType::L, 1, addr)) as usize
}

/// States of a bit instruction on a byte in memory that writes it back: two
/// fetches and two accesses.
pub open spec fn bit_write_states(addr: u32) -> usize {
    (states(StateType::I, 2) + states_at(StateType::L, 2, addr)) as usize
}

impl CpuState {
    /// The state after BAND found `value` in its operand: C stays set only
    /// where bit `n` of the value is set too.
    pub open spec fn band_with(self, value: u8, n: u8) -> CpuState {
        self.with_flag(CCR::C, bit_of(value, n) && self.flag(CCR::C))
    }

    /// BAND #xx:3, Rd.
    pub open spec fn band_rn(self, opcode: u16) -> (CpuState, Result<usize, Fault>) {
        let value = self.rn_b(nibble(opcode, 4));
        (self.band_with(value, low3(nibble(opcode, 3))), Ok(states(StateType::I, 1)))
    }

    /// BAND #xx:3, @ERd. The bit number is in the second word.
    pub open spec fn band_ern(self, opcode: u16, opcode2: u16) -> (
        CpuState,
        Result<usize, Fault>,
    ) {
        let ea = self.ea_ern(nibble(opcode, 3));
        match (ea, self.load_b_at(ea)) {
            (Ok(addr), Ok(value)) => (
                self.band_with(value, low3(nibble(opcode2, 3))),
                Ok(bit_read_states(addr)),
            ),
            (_, Err(fault)) => (self, Err(fault)),
            (Err(fault), _) => (self, Err(fault)),
        }
    }

    /// BAND #xx:3, @aa:8. The bit number is in the second word.
    pub open spec fn band_abs(self, opcode: u16, opcode2: u16) -> (
        CpuState,
        Result<usize, Fault>,
    ) {
        let addr = abs8_addr(low_byte(opcode));
        match self.load_b(addr) {
            Ok(value) => (
                self.band_with(value, low3(nibble(opcode2, 3))),
                Ok(bit_read_states(addr)),
            ),
            Err(fault) => (self, Err(fault)),
        }
    }
}

impl Cpu {
    /// BAND #xx:3, Rd.
    pub fn band_rn(&mut self, opcode: u16) -> (r: Result<usize, Fault>)
        ensures
            (final(self)@, r) == old(self)@.band_rn(opcode),
    {
        let register = Cpu::get_nibble_opcode(opcode, 4)?;
        let value = self.read_rn_b(register)?;
        let imm = Cpu::field_low3(Cpu::get_nibble_opcode(opcode, 3)?);
        let carry = self.read_ccr(CCR::C);
        self.set_flag(CCR::C, (value >> imm) & 1 == 1 && carry == 1);
        Ok(Cpu::calc_state(StateType::I, 1))
    }

    /// BAND #xx:3, @ERd.
    pub fn band_ern(&mut self, opcode: u16, opcode2: u16) -> (r: Result<usize, Fault>)
        ensures
            (final(self)@, r) == old(self)@.band_ern(opcode, opcode2),
    {
        let register = Cpu::get_nibble_opcode(opcode, 3)?;
        let access_addr = self.get_addr_ern(register)?;
        let value = self.read_ern_b(register)?;
        let imm = Cpu::field_low3(Cpu::get_nibble_opcode(opcode2, 3)?);
        let carry = self.read_ccr(CCR::C);
        self.set_flag(CCR::C, (value >> imm) & 1 == 1 && carry == 1);
        Ok(
            Cpu::calc_state(StateType::I, 2) + Cpu::calc_state_with_addr(
                StateType::L,
                1,
                access_addr,
            ),
        )
    }

    /// BAND #xx:3, @aa:8.
    pub fn band_abs(&mut self, opcode: u16, opcode2: u16) -> (r: Result<usize, Fault>)
        ensures
            (final(self)@, r) == old(self)@.band_abs(opcode, opcode2),
    {
        let imm = Cpu::field_low3(Cpu::get_nibble_opcode(opcode2, 3)?);
        let value = self.read_abs8_b(Cpu::opcode_low(opcode))?;
        let access_addr = Cpu::get_addr_abs8(Cpu::opcode_low(opcode));
        let carry = self.read_ccr(CCR::C);
        self.set_flag(CCR::C, (value >> imm) & 1 == 1 && carry == 1);
        Ok(
            Cpu::calc_state(StateType::I, 2) + Cpu::calc_state_with_addr(
                StateType::L,
                1,
                access_addr,
            ),
        )
    }
}

} // verus!
