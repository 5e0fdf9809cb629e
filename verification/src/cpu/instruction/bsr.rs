use vstd::prelude::*;
use crate::cpu::addressing_mode::disp::sign_extend_16;
use crate::cpu::Cpu;
use crate::error::Fault;
use crate::model::{low_byte, CpuState};
use crate::state::{states, states_at, StateType};

verus! {

/// An 8-bit displacement as the signed number it stands for.
pub open spec fn sign_extend_8(disp: u8) -> int {
    if disp >= 0x80 {
        disp - 0x100
    } else {
        disp as int
    }
}

/// Where a branch from `pc` by a signed offset lands: within the 24-bit
/// address space, around its ends if need be.
pub open spec fn branch_target(pc: u32, offset: int) -> u32 {
    ((pc + offset) % 0x100_0000) as u32
}

/// States of a subroutine call that fetches two words and pushes the return
/// address in `pushes` stack cycles at `addr`.
pub open spec fn call_states(pushes: u8, addr: u32) -> usize {
    (states(StateType::I, 2) + states_at(StateType::K, pushes, addr) + states(
        StateType::N,
        2,
    )) as usize
}

impl CpuState {
    /// The state after a call from this state to `target`: the program
    /// counter, with a zero top byte, lies on the stack as a 32-bit word,
    /// ER7 points to it, and the program counter is `target`.
    pub open spec fn call(self, target: u32, pushes: u8) -> (CpuState, Result<usize, Fault>) {
        match self.push_pc() {
            (pushed, Ok(stack)) => (pushed.with_pc(target), Ok(call_states(pushes, stack))),
            (failed, Err(fault)) => (failed, Err(fault)),
        }
    }

    /// BSR d:8. The displacement is the low byte of the opcode.
    pub open spec fn bsr_disp16(self, opcode: u16) -> (CpuState, Result<usize, Fault>) {
        self.call(branch_target(self.pc, sign_extend_8(low_byte(opcode))), 1)
    }

    /// BSR d:16. The displacement follows in one word.
    pub open spec fn bsr_disp24(self, opcode: u16) -> (CpuState, Result<usize, Fault>) {
        match self.fetch() {
            (fetched, Ok(disp)) => fetched.call(
                branch_target(fetched.pc, sign_extend_16(disp)),
                2,
            ),
            (failed, Err(fault)) => (failed, Err(fault)),
        }
    }
}

impl Cpu {
    /// Where a branch from `pc` by a signed 8-bit displacement lands.
    pub fn branch_disp8(pc: u32, disp: u8) -> (target: u32)
        ensures
            target == branch_target(pc, sign_extend_8(disp)),
    {
        let moved: u64 = if disp < 0x80 {
            pc as u64 + disp as u64
        } else {
            pc as u64 + 0x100_0000 - (0x100 - disp as u64)
        };
        (moved % 0x100_0000) as u32
    }

    /// Where a branch from `pc` by a signed 16-bit displacement lands.
    pub fn branch_disp16(pc: u32, disp: u16) -> (target: u32)
        ensures
            target == branch_target(pc, sign_extend_16(disp)),
    {
        let moved: u64 = if disp < 0x8000 {
            pc as u64 + disp as u64
        } else {
            pc as u64 + 0x100_0000 - (0x1_0000 - disp as u64)
        };
        (moved % 0x100_0000) as u32
    }

    /// Pushes the program counter and continues at `target`.
    pub fn call_to(&mut self, target: u32, pushes: u8) -> (r: Result<usize, Fault>)
        ensures
            (final(self)@, r) == old(self)@.call(target, pushes),
    {
        let access_addr = self.push_pc()?;
        self.pc = target;
        Ok(
            Cpu::calc_state(StateType::I, 2) + Cpu::calc_state_with_addr(
                StateType::K,
                pushes,
                access_addr,
            ) + Cpu::calc_state(StateType::N, 2),
        )
    }

    /// BSR d:8.
    pub fn bsr_disp16(&mut self, opcode: u16) -> (r: Result<usize, Fault>)
        ensures
            (final(self)@, r) == old(self)@.bsr_disp16(opcode),
    {
        let target = Cpu::branch_disp8(self.pc, Cpu::opcode_low(opcode));
        self.call_to(target, 1)
    }

    /// BSR d:16.
    pub fn bsr_disp24(&mut self, opcode: u16) -> (r: Result<usize, Fault>)
        ensures
            (final(self)@, r) == old(self)@.bsr_disp24(opcode),
    {
        let opcode2 = self.fetch()?;
        let target = Cpu::branch_disp16(self.pc, opcode2);
        self.call_to(target, 2)
    }
}

} // verus!
