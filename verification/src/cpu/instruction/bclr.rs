use vstd::prelude::*;
use crate::cpu::addressing_mode::abs::abs8_addr;
use crate::cpu::instruction::band::bit_write_states;
use crate::cpu::Cpu;
use crate::error::Fault;
use crate::model::{low3, low_byte, nibble, CpuState};
use crate::state::{states, StateType};

verus! {

/// `value` with bit `n` cleared.
pub open spec fn bit_cleared(value: u8, n: u8) -> u8 {
    value & !(1u8 << n)
}

impl CpuState {
    /// The bit number that the second word of BCLR on a byte in memory
    /// gives: three bits of the word itself, or the low three bits of the
    /// byte register that it names. Another second word is not implemented.
    pub open spec fn bclr_bit(self, opcode2: u16) -> Result<u8, Fault> {
        if opcode2 & 0xff0f == 0x7200 {
            Ok(low3(nibble(opcode2, 3)))
        } else if opcode2 & 0xff0f == 0x6200 {
            Ok(low3(self.rn_b(nibble(opcode2, 3))))
        } else {
            Err(Fault::UnimplementedOpcode)
        }
    }

    /// The state after bit `n` of the byte at `addr` was cleared.
    pub open spec fn bclr_at(self, addr: u32, n: u8) -> (CpuState, Result<usize, Fault>) {
        match self.load_b(addr) {
            Ok(value) => match self.store_b(addr, bit_cleared(value, n)) {
                (stored, Ok(_)) => (stored, Ok(bit_write_states(addr))),
                (failed, Err(fault)) => (failed, Err(fault)),
            },
            Err(fault) => (self, Err(fault)),
        }
    }

    /// BCLR #xx:3, Rd.
    pub open spec fn bclr_rn_from_imm(self, opcode: u16) -> (CpuState, Result<usize, Fault>) {
        let rd = nibble(opcode, 4);
        (
            self.with_rn_b(rd, bit_cleared(self.rn_b(rd), low3(nibble(opcode, 3)))),
            Ok(states(StateType::I, 1)),
        )
    }

    /// BCLR Rn, Rd: the bit number is the low three bits of Rn.
    pub open spec fn bclr_rn_from_rn(self, opcode: u16) -> (CpuState, Result<usize, Fault>) {
        let rd = nibble(opcode, 4);
        let n = low3(self.rn_b(nibble(opcode, 3)));
        (self.with_rn_b(rd, bit_cleared(self.rn_b(rd), n)), Ok(states(StateType::I, 1)))
    }

    /// BCLR on the byte at @ERd, in either form.
    pub open spec fn bclr_ern(self, opcode: u16, opcode2: u16) -> (
        CpuState,
        Result<usize, Fault>,
    ) {
        match (self.ea_ern(nibble(opcode, 3)), self.bclr_bit(opcode2)) {
            (Ok(addr), Ok(n)) => self.bclr_at(addr, n),
            (Err(fault), _) => (self, Err(fault)),
            (_, Err(fault)) => (self, Err(fault)),
        }
    }

    /// BCLR on the byte at @aa:8, in either form.
    pub open spec fn bclr_abs(self, opcode: u16, opcode2: u16) -> (
        CpuState,
        Result<usize, Fault>,
    ) {
        match self.bclr_bit(opcode2) {
            Ok(n) => self.bclr_at(abs8_addr(low_byte(opcode)), n),
            Err(fault) => (self, Err(fault)),
        }
    }
}

impl Cpu {
    /// BCLR #xx:3, Rd.
    pub fn bclr_rn_from_imm(&mut self, opcode: u16) -> (r: Result<usize, Fault>)
        ensures
            (final(self)@, r) == old(self)@.bclr_rn_from_imm(opcode),
    {
        let register = Cpu::get_nibble_opcode(opcode, 4)?;
        let value = self.read_rn_b(register)?;
        let imm = Cpu::field_low3(Cpu::get_nibble_opcode(opcode, 3)?);
        self.write_rn_b(register, value & !(1u8 << imm))?;
        Ok(Cpu::calc_state(StateType::I, 1))
    }

    /// BCLR Rn, Rd.
    pub fn bclr_rn_from_rn(&mut self, opcode: u16) -> (r: Result<usize, Fault>)
        ensures
            (final(self)@, r) == old(self)@.bclr_rn_from_rn(opcode),
    {
        let register_bit = Cpu::get_nibble_opcode(opcode, 3)?;
        let register_value = Cpu::get_nibble_opcode(opcode, 4)?;
        let bit = Cpu::field_low3(self.read_rn_b(register_bit)?);
        let value = self.read_rn_b(register_value)?;
        self.write_rn_b(register_value, value & !(1u8 << bit))?;
        Ok(Cpu::calc_state(StateType::I, 1))
    }

    /// BCLR on the byte at @ERd.
    pub fn bclr_ern(&mut self, opcode: u16, opcode2: u16) -> (r: Result<usize, Fault>)
        ensures
            (final(self)@, r) == old(self)@.bclr_ern(opcode, opcode2),
    {
        let register_ern = Cpu::get_nibble_opcode(opcode, 3)?;
        let access_addr = self.get_addr_ern(register_ern)?;
        match opcode2 & 0xff0f {
            0x7200 => {
                let value = self.read_ern_b(register_ern)?;
                let imm = Cpu::field_low3(Cpu::get_nibble_opcode(opcode2, 3)?);
                self.write_ern_b(register_ern, value & !(1u8 << imm))?;
            },
            0x6200 => {
                let register_bit = Cpu::get_nibble_opcode(opcode2, 3)?;
                let bit = Cpu::field_low3(self.read_rn_b(register_bit)?);
                let value = self.read_ern_b(register_ern)?;
                self.write_ern_b(register_ern, value & !(1u8 << bit))?;
            },
            _ => {
                return Err(Fault::UnimplementedOpcode);
            },
        }
        Ok(
            Cpu::calc_state(StateType::I, 2) + Cpu::calc_state_with_addr(
                StateType::L,
                2,
                access_addr,
            ),
        )
    }

    /// BCLR on the byte at @aa:8.
    pub fn bclr_abs(&mut self, opcode: u16, opcode2: u16) -> (r: Result<usize, Fault>)
        ensures
            (final(self)@, r) == old(self)@.bclr_abs(opcode, opcode2),
    {
        let access_addr = Cpu::get_addr_abs8(Cpu::opcode_low(opcode));
        match opcode2 & 0xff0f {
            0x7200 => {
                let imm = Cpu::field_low3(Cpu::get_nibble_opcode(opcode2, 3)?);
                let value = self.read_abs8_b(Cpu::opcode_low(opcode))?;
                self.write_abs8_b(Cpu::opcode_low(opcode), value & !(1u8 << imm))?;
            },
            0x6200 => {
                let register = Cpu::get_nibble_opcode(opcode2, 3)?;
                let bit = Cpu::field_low3(self.read_rn_b(register)?);
                let value = self.read_abs8_b(Cpu::opcode_low(opcode))?;
                self.write_abs8_b(Cpu::opcode_low(opcode), value & !(1u8 << bit))?;
            },
            _ => {
                return Err(Fault::UnimplementedOpcode);
            },
        }
        Ok(
            Cpu::calc_state(StateType::I, 2) + Cpu::calc_state_with_addr(
                StateType::L,
                2,
                access_addr,
            ),
        )
    }
}

} // verus!
