use vstd::prelude::*;
use crate::bits::{lemma_join_u32, lemma_mask24};
use crate::cpu::addressing_mode::abs::abs8_addr;
use crate::cpu::addressing_mode::ern::mask24;
use crate::cpu::Cpu;
use crate::error::Fault;
use crate::model::{high_byte, low_byte, nibble, CpuState};
use crate::state::{states, states_at, StateType};

verus! {

impl CpuState {
    /// The state after the program counter, with a zero top byte, was
    /// pushed as a 32-bit word, and the address it lies at.
    pub open spec fn push_pc(self) -> (CpuState, Result<u32, Fault>) {
        match self.store_dec_l(7, mask24(self.pc)) {
            (pushed, Ok(_)) => (pushed, Ok(mask24(pushed.rn_l(7)))),
            (failed, Err(fault)) => (failed, Err(fault)),
        }
    }

    /// JSR @ERn.
    pub open spec fn jsr_ern(self, opcode: u16) -> (CpuState, Result<usize, Fault>) {
        match self.reg_l(nibble(opcode, 3)) {
            Ok(target) => match self.push_pc() {
                (pushed, Ok(stack)) => (
                    pushed.with_pc(mask24(target)),
                    Ok((states(StateType::I, 2) + states_at(StateType::K, 2, stack)) as usize),
                ),
                (failed, Err(fault)) => (failed, Err(fault)),
            },
            Err(fault) => (self, Err(fault)),
        }
    }

    /// JSR @aa:24: the address is the low byte of the opcode and the word
    /// that follows.
    pub open spec fn jsr_abs(self, opcode: u16) -> (CpuState, Result<usize, Fault>) {
        match self.fetch() {
            (fetched, Ok(low)) => match fetched.push_pc() {
                (pushed, Ok(stack)) => (
                    pushed.with_pc((low_byte(opcode) * 0x1_0000 + low) as u32),
                    Ok(
                        (states(StateType::I, 2) + states_at(StateType::K, 2, stack) + states(
                            StateType::N,
                            2,
                        )) as usize,
                    ),
                ),
                (failed, Err(fault)) => (failed, Err(fault)),
            },
            (failed, Err(fault)) => (failed, Err(fault)),
        }
    }

    /// JSR @@aa:8: the target is the address that @@aa:8 names.
    pub open spec fn jsr_indirect(self, opcode: u16) -> (CpuState, Result<usize, Fault>) {
        let pointer = abs8_addr(low_byte(opcode));
        match self.ea_indirect(low_byte(opcode)) {
            Ok(target) => match self.push_pc() {
                (pushed, Ok(stack)) => (
                    pushed.with_pc(target),
                    Ok(
                        (states(StateType::I, 2) + states_at(StateType::J, 2, pointer)
                            + states_at(StateType::K, 2, stack)) as usize,
                    ),
                ),
                (failed, Err(fault)) => (failed, Err(fault)),
            },
            Err(fault) => (self, Err(fault)),
        }
    }

    /// JSR in its three forms; another opcode is not implemented.
    pub open spec fn jsr(self, opcode: u16) -> (CpuState, Result<usize, Fault>) {
        if high_byte(opcode) == 0x5d {
            self.jsr_ern(opcode)
        } else if high_byte(opcode) == 0x5e {
            self.jsr_abs(opcode)
        } else if high_byte(opcode) == 0x5f {
            self.jsr_indirect(opcode)
        } else {
            (self, Err(Fault::UnimplementedOpcode))
        }
    }

    /// RTS: the program counter becomes the low 24 bits of the word on top
    /// of the stack, and ER7 moves past it.
    pub open spec fn rts(self) -> (CpuState, Result<usize, Fault>) {
        match self.load_inc_l(7) {
            (popped, Ok(target)) => (
                popped.with_pc(mask24(target)),
                Ok(
                    (states(StateType::I, 2) + states_at(StateType::K, 2, mask24(self.rn_l(7)))
                        + states(StateType::N, 2)) as usize,
                ),
            ),
            (failed, Err(fault)) => (failed, Err(fault)),
        }
    }
}

impl Cpu {
    /// Pushes the program counter and returns the address it lies at.
    pub fn push_pc(&mut self) -> (r: Result<u32, Fault>)
        ensures
            (final(self)@, r) == old(self)@.push_pc(),
    {
        proof {
            lemma_mask24(self.pc);
        }
        self.write_dec_ern_l(7, self.pc & 0x00ff_ffff)?;
        self.get_addr_ern(7)
    }

    /// JSR in its three forms.
    pub fn jsr(&mut self, opcode: u16) -> (r: Result<usize, Fault>)
        ensures
            (final(self)@, r) == old(self)@.jsr(opcode),
    {
        match Cpu::opcode_high(opcode) {
            0x5d => self.jsr_ern(opcode),
            0x5e => self.jsr_abs(opcode),
            0x5f => self.jsr_indirect(opcode),
            _ => Err(Fault::UnimplementedOpcode),
        }
    }

    /// JSR @ERn.
    pub fn jsr_ern(&mut self, opcode: u16) -> (r: Result<usize, Fault>)
        ensures
            (final(self)@, r) == old(self)@.jsr_ern(opcode),
    {
        let target = self.read_rn_l(Cpu::get_nibble_opcode(opcode, 3)?)?;
        let access_addr = self.push_pc()?;
        proof {
            lemma_mask24(target);
        }
        self.pc = target & 0x00ff_ffff;
        Ok(
            Cpu::calc_state(StateType::I, 2) + Cpu::calc_state_with_addr(
                StateType::K,
                2,
                access_addr,
            ),
        )
    }

    /// JSR @aa:24.
    pub fn jsr_abs(&mut self, opcode: u16) -> (r: Result<usize, Fault>)
        ensures
            (final(self)@, r) == old(self)@.jsr_abs(opcode),
    {
        let low = self.fetch()?;
        let high = Cpu::opcode_low(opcode);
        let access_addr = self.push_pc()?;
        proof {
            lemma_join_u32(high as u16, low);
        }
        self.pc = ((high as u32) << 16) | (low as u32);
        Ok(
            Cpu::calc_state(StateType::I, 2) + Cpu::calc_state_with_addr(
                StateType::K,
                2,
                access_addr,
            ) + Cpu::calc_state(StateType::N, 2),
        )
    }

    /// JSR @@aa:8.
    pub fn jsr_indirect(&mut self, opcode: u16) -> (r: Result<usize, Fault>)
        ensures
            (final(self)@, r) == old(self)@.jsr_indirect(opcode),
    {
        let target = self.get_addr_indirect(Cpu::opcode_low(opcode))?;
        let pointer = Cpu::get_addr_abs8(Cpu::opcode_low(opcode));
        let access_addr = self.push_pc()?;
        self.pc = target;
        Ok(
            Cpu::calc_state(StateType::I, 2) + Cpu::calc_state_with_addr(StateType::J, 2, pointer)
                + Cpu::calc_state_with_addr(StateType::K, 2, access_addr),
        )
    }

    /// RTS.
    pub fn rts(&mut self) -> (r: Result<usize, Fault>)
        ensures
            (final(self)@, r) == old(self)@.rts(),
    {
        let access_addr = self.get_addr_ern(7)?;
        let target = self.read_inc_ern_l(7)?;
        proof {
            lemma_mask24(target);
        }
        self.pc = target & 0x00ff_ffff;
        Ok(
            Cpu::calc_state(StateType::I, 2) + Cpu::calc_state_with_addr(
                StateType::K,
                2,
                access_addr,
            ) + Cpu::calc_state(StateType::N, 2),
        )
    }
}

} // verus!
