use vstd::prelude::*;
use crate::cpu::addressing_mode::disp::sign_extend_16;
use crate::cpu::instruction::bsr::{branch_target, sign_extend_8};
use crate::cpu::{Cpu, CCR};
use crate::error::Fault;
use crate::model::{high_byte, low_byte, nibble, CpuState};
use crate::state::{states, StateType};

verus! {

impl CpuState {
    /// Whether the branch with the given condition field is taken: BRA,
    /// BRN, BHI, BLS, BCC, BCS, BNE, BEQ, BVC, BVS, BPL, BMI, BGE, BLT, BGT
    /// and BLE for the fields 0 to 15.
    pub open spec fn branch_taken(self, condition: u8) -> bool {
        let c = self.flag(CCR::C);
        let v = self.flag(CCR::V);
        let z = self.flag(CCR::Z);
        let n = self.flag(CCR::N);
        if condition == 0x0 {
            true
        } else if condition == 0x1 {
            false
        } else if condition == 0x2 {
            !(c || z)
        } else if condition == 0x3 {
            c || z
        } else if condition == 0x4 {
            !c
        } else if condition == 0x5 {
            c
        } else if condition == 0x6 {
            !z
        } else if condition == 0x7 {
            z
        } else if condition == 0x8 {
            !v
        } else if condition == 0x9 {
            v
        } else if condition == 0xa {
            !n
        } else if condition == 0xb {
            n
        } else if condition == 0xc {
            n == v
        } else if condition == 0xd {
            n != v
        } else if condition == 0xe {
            !z && n == v
        } else {
            z || n != v
        }
    }

    /// The state after a branch on `condition` by a signed offset: the
    /// program counter moves where the branch is taken and stays where it
    /// is not.
    pub open spec fn branch(self, condition: u8, offset: int) -> CpuState {
        if self.branch_taken(condition) {
            self.with_pc(branch_target(self.pc, offset))
        } else {
            self
        }
    }

    /// Bcc d:8: the condition is the second nibble, the displacement the
    /// low byte.
    pub open spec fn bcc_disp8(self, opcode: u16) -> (CpuState, Result<usize, Fault>) {
        (
            self.branch(nibble(opcode, 2), sign_extend_8(low_byte(opcode))),
            Ok(states(StateType::I, 2)),
        )
    }

    /// Bcc d:16: the condition is the third nibble, the displacement
    /// follows in one word.
    pub open spec fn bcc_disp16(self, opcode: u16) -> (CpuState, Result<usize, Fault>) {
        match self.fetch() {
            (fetched, Ok(disp)) => (
                fetched.branch(nibble(opcode, 3), sign_extend_16(disp)),
                Ok((states(StateType::I, 2) + states(StateType::N, 2)) as usize),
            ),
            (failed, Err(fault)) => (failed, Err(fault)),
        }
    }

    /// Bcc in either form; another opcode is not implemented.
    pub open spec fn bcc(self, opcode: u16) -> (CpuState, Result<usize, Fault>) {
        if nibble(opcode, 1) == 0x4 {
            self.bcc_disp8(opcode)
        } else if high_byte(opcode) == 0x58 && nibble(opcode, 4) == 0 {
            self.bcc_disp16(opcode)
        } else {
            (self, Err(Fault::UnimplementedOpcode))
        }
    }
}

impl Cpu {
    /// Whether the branch with the given condition field is taken.
    pub fn is_branch_taken(&self, condition: u8) -> (taken: bool)
        ensures
            taken == self@.branch_taken(condition),
    {
        let c = self.read_ccr(CCR::C) == 1;
        let v = self.read_ccr(CCR::V) == 1;
        let z = self.read_ccr(CCR::Z) == 1;
        let n = self.read_ccr(CCR::N) == 1;
        match condition {
            0x0 => true,
            0x1 => false,
            0x2 => !(c || z),
            0x3 => c || z,
            0x4 => !c,
            0x5 => c,
            0x6 => !z,
            0x7 => z,
            0x8 => !v,
            0x9 => v,
            0xa => !n,
            0xb => n,
            0xc => n == v,
            0xd => n != v,
            0xe => !z && n == v,
            _ => z || n != v,
        }
    }

    /// Bcc in either form.
    pub fn bcc(&mut self, opcode: u16) -> (r: Result<usize, Fault>)
        ensures
            (final(self)@, r) == old(self)@.bcc(opcode),
    {
        if Cpu::get_nibble_opcode(opcode, 1)? == 0x4 {
            self.bcc_disp8(opcode)
        } else if Cpu::opcode_high(opcode) == 0x58 && Cpu::get_nibble_opcode(opcode, 4)? == 0 {
            self.bcc_disp16(opcode)
        } else {
            Err(Fault::UnimplementedOpcode)
        }
    }

    /// Bcc d:8.
    pub fn bcc_disp8(&mut self, opcode: u16) -> (r: Result<usize, Fault>)
        ensures
            (final(self)@, r) == old(self)@.bcc_disp8(opcode),
    {
        if self.is_branch_taken(Cpu::get_nibble_opcode(opcode, 2)?) {
            self.pc = Cpu::branch_disp8(self.pc, Cpu::opcode_low(opcode));
        }
        Ok(Cpu::calc_state(StateType::I, 2))
    }

    /// Bcc d:16.
    pub fn bcc_disp16(&mut self, opcode: u16) -> (r: Result<usize, Fault>)
        ensures
            (final(self)@, r) == old(self)@.bcc_disp16(opcode),
    {
        let disp = self.fetch()?;
        if self.is_branch_taken(Cpu::get_nibble_opcode(opcode, 3)?) {
            self.pc = Cpu::branch_disp16(self.pc, disp);
        }
        Ok(Cpu::calc_state(StateType::I, 2) + Cpu::calc_state(StateType::N, 2))
    }
}

} // verus!
