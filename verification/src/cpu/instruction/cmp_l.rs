use vstd::prelude::*;
use crate::cpu::instruction::sub_l::sub_l_flags;
use crate::cpu::Cpu;
use crate::error::Fault;
use crate::model::{high_byte, low3, nibble, CpuState};
use crate::state::{states, StateType};

verus! {

impl CpuState {
    /// The state after `src` was compared with the extended register that
    /// `rd` names, in an instruction of `fetches` words: the condition
    /// codes of the difference; the register stays. A field with bit 3 set
    /// names no register.
    pub open spec fn cmp_l_with(self, rd: u8, src: u32, fetches: u8) -> (
        CpuState,
        Result<usize, Fault>,
    ) {
        match self.reg_l(rd) {
            Ok(dest) => (
                self.with_flags(sub_l_flags(dest, src)),
                Ok(states(StateType::I, fetches)),
            ),
            Err(fault) => (self, Err(fault)),
        }
    }

    /// CMP.L #xx:32, ERd. The immediate follows in two words.
    pub open spec fn cmp_l_imm(self, opcode: u16) -> (CpuState, Result<usize, Fault>) {
        match self.fetch_l() {
            (fetched, Ok(imm)) => fetched.cmp_l_with(nibble(opcode, 4), imm, 3),
            (failed, Err(fault)) => (failed, Err(fault)),
        }
    }

    /// CMP.L ERs, ERd. The source is the register that the low three bits
    /// of its field name.
    pub open spec fn cmp_l_rn(self, opcode: u16) -> (CpuState, Result<usize, Fault>) {
        self.cmp_l_with(nibble(opcode, 4), self.rn_l(low3(nibble(opcode, 3))), 1)
    }

    /// CMP.L in either form; another opcode is not implemented.
    pub open spec fn cmp_l(self, opcode: u16) -> (CpuState, Result<usize, Fault>) {
        if high_byte(opcode) == 0x7a {
            self.cmp_l_imm(opcode)
        } else if high_byte(opcode) == 0x1f {
            self.cmp_l_rn(opcode)
        } else {
            (self, Err(Fault::UnimplementedOpcode))
        }
    }
}

impl Cpu {
    /// CMP.L in either form.
    pub fn cmp_l(&mut self, opcode: u16) -> (r: Result<usize, Fault>)
        ensures
            (final(self)@, r) == old(self)@.cmp_l(opcode),
    {
        match Cpu::opcode_high(opcode) {
            0x7a => self.cmp_l_imm(opcode),
            0x1f => self.cmp_l_rn(opcode),
            _ => Err(Fault::UnimplementedOpcode),
        }
    }

    /// CMP.L #xx:32, ERd.
    pub fn cmp_l_imm(&mut self, opcode: u16) -> (r: Result<usize, Fault>)
        ensures
            (final(self)@, r) == old(self)@.cmp_l_imm(opcode),
    {
        let imm = self.fetch_l()?;
        let dest = self.read_rn_l(Cpu::get_nibble_opcode(opcode, 4)?)?;
        self.sub_l_proc(dest, imm);
        Ok(Cpu::calc_state(StateType::I, 3))
    }

    /// CMP.L ERs, ERd.
    pub fn cmp_l_rn(&mut self, opcode: u16) -> (r: Result<usize, Fault>)
        ensures
            (final(self)@, r) == old(self)@.cmp_l_rn(opcode),
    {
        let dest = self.read_rn_l(Cpu::get_nibble_opcode(opcode, 4)?)?;
        let src = self.read_rn_l(Cpu::field_low3(Cpu::get_nibble_opcode(opcode, 3)?))?;
        self.sub_l_proc(dest, src);
        Ok(Cpu::calc_state(StateType::I, 1))
    }
}

} // verus!
