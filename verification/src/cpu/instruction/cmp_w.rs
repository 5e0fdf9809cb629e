use vstd::prelude::*;
use crate::cpu::instruction::arith::{sub_w_flags, sub_w_result};
use crate::cpu::Cpu;
use crate::error::Fault;
use crate::model::{high_byte, nibble, CpuState};
use crate::state::{states, StateType};

verus! {

impl CpuState {
    /// CMP.W #xx:16, Rd: the condition codes of `Rd - #xx`; Rd stays.
    pub open spec fn cmp_w_imm(self, opcode: u16) -> (CpuState, Result<usize, Fault>) {
        match self.fetch() {
            (fetched, Ok(imm)) => {
                let dest = fetched.rn_w(nibble(opcode, 4));
                (fetched.with_flags(sub_w_flags(dest, imm)), Ok(states(StateType::I, 2)))
            },
            (failed, Err(fault)) => (failed, Err(fault)),
        }
    }

    /// CMP.W Rs, Rd: the condition codes of `Rd - Rs`; Rd stays. Either
    /// field names any of R0 to R7 and E0 to E7.
    pub open spec fn cmp_w_rn(self, opcode: u16) -> (CpuState, Result<usize, Fault>) {
        let src = self.rn_w(nibble(opcode, 3));
        let dest = self.rn_w(nibble(opcode, 4));
        (self.with_flags(sub_w_flags(dest, src)), Ok(states(StateType::I, 1)))
    }

    /// CMP.W in either form; another opcode is not implemented.
    pub open spec fn cmp_w(self, opcode: u16) -> (CpuState, Result<usize, Fault>) {
        if high_byte(opcode) == 0x79 {
            self.cmp_w_imm(opcode)
        } else if high_byte(opcode) == 0x1d {
            self.cmp_w_rn(opcode)
        } else {
            (self, Err(Fault::UnimplementedOpcode))
        }
    }
}

impl Cpu {
    /// CMP.W in either form.
    pub fn cmp_w(&mut self, opcode: u16) -> (r: Result<usize, Fault>)
        ensures
            (final(self)@, r) == old(self)@.cmp_w(opcode),
    {
        match Cpu::opcode_high(opcode) {
            0x79 => self.cmp_w_imm(opcode),
            0x1d => self.cmp_w_rn(opcode),
            _ => Err(Fault::UnimplementedOpcode),
        }
    }

    /// Sets H, N, Z, V and C from `dest - src` and returns the difference.
    pub fn cmp_w_proc(&mut self, dest: u16, src: u16) -> (result: u16)
        ensures
            final(self)@ == old(self)@.with_flags(sub_w_flags(dest, src)),
            final(self)@.flags() == sub_w_flags(dest, src),
            result == sub_w_result(dest, src),
    {
        self.sub_w_proc(dest, src)
    }

    /// CMP.W #xx:16, Rd.
    pub fn cmp_w_imm(&mut self, opcode: u16) -> (r: Result<usize, Fault>)
        ensures
            (final(self)@, r) == old(self)@.cmp_w_imm(opcode),
    {
        let imm = self.fetch()?;
        let dest = self.read_rn_w(Cpu::get_nibble_opcode(opcode, 4)?)?;
        self.cmp_w_proc(dest, imm);
        Ok(Cpu::calc_state(StateType::I, 2))
    }

    /// CMP.W Rs, Rd.
    pub fn cmp_w_rn(&mut self, opcode: u16) -> (r: Result<usize, Fault>)
        ensures
            (final(self)@, r) == old(self)@.cmp_w_rn(opcode),
    {
        let src = self.read_rn_w(Cpu::get_nibble_opcode(opcode, 3)?)?;
        let dest = self.read_rn_w(Cpu::get_nibble_opcode(opcode, 4)?)?;
        self.cmp_w_proc(dest, src);
        Ok(Cpu::calc_state(StateType::I, 1))
    }
}

} // verus!
