use vstd::prelude::*;
use crate::cpu::addressing_mode::abs::abs8_addr;
use crate::cpu::instruction::band::bit_write_states;
use crate::cpu::Cpu;
use crate::error::Fault;
use crate::model::{low3, low_byte, nibble, CpuState};
use crate::state::{states, StateType};

verus! {

/// `value` with bit `n` inverted.
pub open spec fn bit_inverted(value: u8, n: u8) -> u8 {
    value ^ (1u8 << n)
}

impl CpuState {
    /// The bit number that the second word of BNOT on a byte in memory
    /// gives: three bits of the word itself, or the low three bits of the
    /// byte register that it names. Another second word is not implemented.
    pub open spec fn bnot_bit(self, opcode2: u16) -> Result<u8, Fault> {
        if opcode2 & 0xff0f == 0x7100 {
            Ok(low3(nibble(opcode2, 3)))
        } else if opcode2 & 0xff0f == 0x6100 {
            Ok(low3(self.rn_b(nibble(opcode2, 3))))
        } else {
            Err(Fault::UnimplementedOpcode)
        }
    }

    /// The state after bit `n` of the byte at `addr` was inverted.
    pub open spec fn bnot_at(self, addr: u32, n: u8) -> (CpuState, Result<usize, Fault>) {
        match self.load_b(addr) {
            Ok(value) => match self.store_b(addr, bit_inverted(value, n)) {
                (stored, Ok(_)) => (stored, Ok(bit_write_states(addr))),
                (failed, Err(fault)) => (failed, Err(fault)),
            },
            Err(fault) => (self, Err(fault)),
        }
    }

    /// BNOT #xx:3, Rd.
    pub open spec fn bnot_rn_from_imm(self, opcode: u16) -> (CpuState, Result<usize, Fault>) {
        let rd = nibble(opcode, 4);
        (
            self.with_rn_b(rd, bit_inverted(self.rn_b(rd), low3(nibble(opcode, 3)))),
            Ok(states(StateType::I, 1)),
        )
    }

    /// BNOT Rn, Rd: the bit number is the low three bits of Rn.
    pub open spec fn bnot_rn_from_rn(self, opcode: u16) -> (CpuState, Result<usize, Fault>) {
        let rd = nibble(opcode, 4);
        let n = low3(self.rn_b(nibble(opcode, 3)));
        (self.with_rn_b(rd, bit_inverted(self.rn_b(rd), n)), Ok(states(StateType::I, 1)))
    }

    /// BNOT on the byte at @ERd, in either form.
    pub open spec fn bnot_ern(self, opcode: u16, opcode2: u16) -> (
        CpuState,
        Result<usize, Fault>,
    ) {
        match (self.bnot_bit(opcode2), self.ea_ern(nibble(opcode, 3))) {
            (Ok(n), Ok(addr)) => self.bnot_at(addr, n),
            (Err(fault), _) => (self, Err(fault)),
            (_, Err(fault)) => (self, Err(fault)),
        }
    }

    /// BNOT on the byte at @aa:8, in either form.
    pub open spec fn bnot_abs(self, opcode: u16, opcode2: u16) -> (
        CpuState,
        Result<usize, Fault>,
    ) {
        match self.bnot_bit(opcode2) {
            Ok(n) => self.bnot_at(abs8_addr(low_byte(opcode)), n),
            Err(fault) => (self, Err(fault)),
        }
    }
}

impl Cpu {
    /// BNOT #xx:3, Rd.
    pub fn bnot_rn_from_imm(&mut self, opcode: u16) -> (r: Result<usize, Fault>)
        ensures
            (final(self)@, r) == old(self)@.bnot_rn_from_imm(opcode),
    {
        let register = Cpu::get_nibble_opcode(opcode, 4)?;
        let value = self.read_rn_b(register)?;
        let imm = Cpu::field_low3(Cpu::get_nibble_opcode(opcode, 3)?);
        self.write_rn_b(register, value ^ (1u8 << imm))?;
        Ok(Cpu::calc_state(StateType::I, 1))
    }

    /// BNOT Rn, Rd.
    pub fn bnot_rn_from_rn(&mut self, opcode: u16) -> (r: Result<usize, Fault>)
        ensures
            (final(self)@, r) == old(self)@.bnot_rn_from_rn(opcode),
    {
        let register_bit = Cpu::get_nibble_opcode(opcode, 3)?;
        let register_value = Cpu::get_nibble_opcode(opcode, 4)?;
        let bit = Cpu::field_low3(self.read_rn_b(register_bit)?);
        let value = self.read_rn_b(register_value)?;
        self.write_rn_b(register_value, value ^ (1u8 << bit))?;
        Ok(Cpu::calc_state(StateType::I, 1))
    }

    /// BNOT on the byte at @ERd.
    pub fn bnot_ern(&mut self, opcode: u16, opcode2: u16) -> (r: Result<usize, Fault>)
        ensures
            (final(self)@, r) == old(self)@.bnot_ern(opcode, opcode2),
    {
        let access_addr;
        match opcode2 & 0xff0f {
            0x7100 => {
                let register = Cpu::get_nibble_opcode(opcode, 3)?;
                access_addr = self.get_addr_ern(register)?;
                let value = self.read_ern_b(register)?;
                let imm = Cpu::field_low3(Cpu::get_nibble_opcode(opcode2, 3)?);
                self.write_ern_b(register, value ^ (1u8 << imm))?;
            },
            0x6100 => {
                let register_bit = Cpu::get_nibble_opcode(opcode2, 3)?;
                let register_value = Cpu::get_nibble_opcode(opcode, 3)?;
                access_addr = self.get_addr_ern(register_value)?;
                let bit = Cpu::field_low3(self.read_rn_b(register_bit)?);
                let value = self.read_ern_b(register_value)?;
                self.write_ern_b(register_value, value ^ (1u8 << bit))?;
            },
            _ => {
                return Err(Fault::UnimplementedOpcode);
            },
        }
        Ok(
            Cpu::calc_state(StateType::I, 2) + Cpu::calc_state_with_addr(
                StateType::L,
                2,
                access_addr,
            ),
        )
    }

    /// BNOT on the byte at @aa:8.
    pub fn bnot_abs(&mut self, opcode: u16, opcode2: u16) -> (r: Result<usize, Fault>)
        ensures
            (final(self)@, r) == old(self)@.bnot_abs(opcode, opcode2),
    {
        let access_addr = Cpu::get_addr_abs8(Cpu::opcode_low(opcode));
        match opcode2 & 0xff0f {
            0x7100 => {
                let imm = Cpu::field_low3(Cpu::get_nibble_opcode(opcode2, 3)?);
                let value = self.read_abs8_b(Cpu::opcode_low(opcode))?;
                self.write_abs8_b(Cpu::opcode_low(opcode), value ^ (1u8 << imm))?;
            },
            0x6100 => {
                let register = Cpu::get_nibble_opcode(opcode2, 3)?;
                let bit = Cpu::field_low3(self.read_rn_b(register)?);
                let value = self.read_abs8_b(Cpu::opcode_low(opcode))?;
                self.write_abs8_b(Cpu::opcode_low(opcode), value ^ (1u8 << bit))?;
            },
            _ => {
                return Err(Fault::UnimplementedOpcode);
            },
        }
        Ok(
            Cpu::calc_state(StateType::I, 2) + Cpu::calc_state_with_addr(
                StateType::L,
                2,
                access_addr,
            ),
        )
    }
}

} // verus!
