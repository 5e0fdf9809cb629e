use vstd::prelude::*;
use crate::cpu::Cpu;
use crate::error::Fault;
use crate::model::{nibble, CpuState};
use crate::state::{states, StateType};

verus! {

/// The number that ADDS adds and SUBS subtracts: 1, 2 or 4 for the
/// operation fields 0, 8 and 9. Another field selects neither.
pub open spec fn step_size(operation: u8) -> Result<u32, Fault> {
    if operation == 0x0 {
        Ok(1u32)
    } else if operation == 0x8 {
        Ok(2u32)
    } else if operation == 0x9 {
        Ok(4u32)
    } else {
        Err(Fault::UnimplementedOpcode)
    }
}

impl CpuState {
    /// ADDS #1, #2 or #4 to ERd: the sum goes around at 32 bits, and no
    /// condition code changes.
    pub open spec fn adds(self, opcode: u16) -> (CpuState, Result<usize, Fault>) {
        let rd = nibble(opcode, 4);
        match (step_size(nibble(opcode, 3)), self.reg_l(rd)) {
            (Ok(size), Ok(value)) => (
                self.with_rn_l(rd, ((value + size) % 0x1_0000_0000) as u32),
                Ok(states(StateType::I, 1)),
            ),
            (Err(fault), _) => (self, Err(fault)),
            (_, Err(fault)) => (self, Err(fault)),
        }
    }

    /// SUBS #1, #2 or #4 from ERd: the difference goes around at 32 bits,
    /// and no condition code changes.
    pub open spec fn subs(self, opcode: u16) -> (CpuState, Result<usize, Fault>) {
        let rd = nibble(opcode, 4);
        match (step_size(nibble(opcode, 3)), self.reg_l(rd)) {
            (Ok(size), Ok(value)) => (
                self.with_rn_l(rd, ((value - size) % 0x1_0000_0000) as u32),
                Ok(states(StateType::I, 1)),
            ),
            (Err(fault), _) => (self, Err(fault)),
            (_, Err(fault)) => (self, Err(fault)),
        }
    }
}

impl Cpu {
    /// The number that ADDS adds and SUBS subtracts.
    pub fn get_step_size(operation: u8) -> (r: Result<u32, Fault>)
        ensures
            r == step_size(operation),
    {
        match operation {
            0x0 => Ok(1),
            0x8 => Ok(2),
            0x9 => Ok(4),
            _ => Err(Fault::UnimplementedOpcode),
        }
    }

    /// ADDS #1, #2 or #4 to ERd.
    pub fn adds(&mut self, opcode: u16) -> (r: Result<usize, Fault>)
        ensures
            (final(self)@, r) == old(self)@.adds(opcode),
    {
        let size = Cpu::get_step_size(Cpu::get_nibble_opcode(opcode, 3)?)?;
        let register = Cpu::get_nibble_opcode(opcode, 4)?;
        let value = self.read_rn_l(register)?;
        let result: u32 = ((value as u64 + size as u64) % 0x1_0000_0000) as u32;
        self.write_rn_l(register, result)?;
        Ok(Cpu::calc_state(StateType::I, 1))
    }

    /// SUBS #1, #2 or #4 from ERd.
    pub fn subs(&mut self, opcode: u16) -> (r: Result<usize, Fault>)
        ensures
            (final(self)@, r) == old(self)@.subs(opcode),
    {
        let size = Cpu::get_step_size(Cpu::get_nibble_opcode(opcode, 3)?)?;
        let register = Cpu::get_nibble_opcode(opcode, 4)?;
        let value = self.read_rn_l(register)?;
        let result: u32 = ((value as u64 + 0x1_0000_0000 - size as u64) % 0x1_0000_0000) as u32;
        self.write_rn_l(register, result)?;
        Ok(Cpu::calc_state(StateType::I, 1))
    }
}

} // verus!
