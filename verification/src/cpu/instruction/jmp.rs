use vstd::prelude::*;
use crate::bits::{lemma_join_u32, lemma_mask24};
use crate::cpu::addressing_mode::abs::abs8_addr;
use crate::cpu::addressing_mode::ern::mask24;
use crate::cpu::Cpu;
use crate::error::Fault;
use crate::model::{high_byte, low_byte, nibble, CpuState};
use crate::state::{states, states_at, StateType};

verus! {

impl CpuState {
    /// JMP @ERn: the program counter becomes the low 24 bits of ERn.
    pub open spec fn jmp_ern(self, opcode: u16) -> (CpuState, Result<usize, Fault>) {
        match self.reg_l(nibble(opcode, 3)) {
            Ok(addr) => (self.with_pc(mask24(addr)), Ok(states(StateType::I, 2))),
            Err(fault) => (self, Err(fault)),
        }
    }

    /// JMP @aa:24: the address is the low byte of the opcode and the word
    /// that follows.
    pub open spec fn jmp_abs(self, opcode: u16) -> (CpuState, Result<usize, Fault>) {
        match self.fetch() {
            (fetched, Ok(low)) => (
                fetched.with_pc((low_byte(opcode) * 0x1_0000 + low) as u32),
                Ok((states(StateType::I, 2) + states(StateType::N, 2)) as usize),
            ),
            (failed, Err(fault)) => (failed, Err(fault)),
        }
    }

    /// JMP @@aa:8: the program counter becomes the address that @@aa:8
    /// names.
    pub open spec fn jmp_indirect(self, opcode: u16) -> (CpuState, Result<usize, Fault>) {
        let pointer = abs8_addr(low_byte(opcode));
        match self.ea_indirect(low_byte(opcode)) {
            Ok(addr) => (
                self.with_pc(addr),
                Ok(
                    (states(StateType::I, 2) + states_at(StateType::J, 1, pointer) + states(
                        StateType::N,
                        2,
                    )) as usize,
                ),
            ),
            Err(fault) => (self, Err(fault)),
        }
    }

    /// JMP in its three forms; another opcode is not implemented.
    pub open spec fn jmp(self, opcode: u16) -> (CpuState, Result<usize, Fault>) {
        if high_byte(opcode) == 0x59 {
            self.jmp_ern(opcode)
        } else if high_byte(opcode) == 0x5a {
            self.jmp_abs(opcode)
        } else if high_byte(opcode) == 0x5b {
            self.jmp_indirect(opcode)
        } else {
            (self, Err(Fault::UnimplementedOpcode))
        }
    }
}

impl Cpu {
    /// JMP in its three forms.
    pub fn jmp(&mut self, opcode: u16) -> (r: Result<usize, Fault>)
        ensures
            (final(self)@, r) == old(self)@.jmp(opcode),
    {
        match Cpu::opcode_high(opcode) {
            0x59 => self.jmp_ern(opcode),
            0x5a => self.jmp_abs(opcode),
            0x5b => self.jmp_indirect(opcode),
            _ => Err(Fault::UnimplementedOpcode),
        }
    }

    /// JMP @ERn.
    pub fn jmp_ern(&mut self, opcode: u16) -> (r: Result<usize, Fault>)
        ensures
            (final(self)@, r) == old(self)@.jmp_ern(opcode),
    {
        let addr = self.read_rn_l(Cpu::get_nibble_opcode(opcode, 3)?)?;
        proof {
            lemma_mask24(addr);
        }
        self.pc = addr & 0x00ff_ffff;
        Ok(Cpu::calc_state(StateType::I, 2))
    }

    /// JMP @aa:24.
    pub fn jmp_abs(&mut self, opcode: u16) -> (r: Result<usize, Fault>)
        ensures
            (final(self)@, r) == old(self)@.jmp_abs(opcode),
    {
        let low = self.fetch()?;
        let high = Cpu::opcode_low(opcode);
        proof {
            lemma_join_u32(high as u16, low);
        }
        self.pc = ((high as u32) << 16) | (low as u32);
        Ok(Cpu::calc_state(StateType::I, 2) + Cpu::calc_state(StateType::N, 2))
    }

    /// JMP @@aa:8.
    pub fn jmp_indirect(&mut self, opcode: u16) -> (r: Result<usize, Fault>)
        ensures
            (final(self)@, r) == old(self)@.jmp_indirect(opcode),
    {
        let addr = self.get_addr_indirect(Cpu::opcode_low(opcode))?;
        self.pc = addr;
        let access_addr = Cpu::get_addr_abs8(Cpu::opcode_low(opcode));
        Ok(
            Cpu::calc_state(StateType::I, 2) + Cpu::calc_state_with_addr(
                StateType::J,
                1,
                access_addr,
            ) + Cpu::calc_state(StateType::N, 2),
        )
    }
}

} // verus!
