//! The decoder: from the first word of an instruction to its handler.

use vstd::prelude::*;
use crate::cpu::{Cpu, CCR};
use crate::error::{CpuError, Fault};
use crate::model::{high_byte, nibble, CpuState};
use crate::theorems::execution::{
    lemma_exec_keeps_flags, lemma_exec_orderly, may_change, transfers_control, MAX_STATES,
};

verus! {

/// States that TRAPA takes.
pub const TRAPA_STATES: usize = 14;

impl CpuState {
    /// The instructions of group 10, the shifts to the left: the third
    /// nibble selects SHLL or SHAL and the width.
    pub open spec fn exec_shift(self, opcode: u16) -> (CpuState, Result<usize, Fault>) {
        let operation = nibble(opcode, 3);
        if operation == 0x0 {
            self.shll_b(opcode)
        } else if operation == 0x1 {
            self.shll_w(opcode)
        } else if operation == 0x3 {
            self.shll_l(opcode)
        } else if operation == 0x8 {
            self.shal_b(opcode)
        } else if operation == 0x9 {
            self.shal_w(opcode)
        } else if operation == 0xb {
            self.shal_l(opcode)
        } else {
            (self, Err(Fault::UnimplementedOpcode))
        }
    }

    /// The instructions of group 79, on a register and a 16-bit immediate:
    /// the third nibble selects MOV.W, ADD.W or CMP.W.
    pub open spec fn exec_imm16(self, opcode: u16) -> (CpuState, Result<usize, Fault>) {
        let operation = nibble(opcode, 3);
        if operation == 0x0 {
            self.mov_w(opcode)
        } else if operation == 0x1 {
            self.add_w(opcode)
        } else if operation == 0x2 {
            self.cmp_w(opcode)
        } else {
            (self, Err(Fault::UnimplementedOpcode))
        }
    }

    /// The instructions of group 7A, on a register and a 32-bit immediate:
    /// the third nibble selects MOV.L, ADD.L, CMP.L or SUB.L.
    pub open spec fn exec_imm32(self, opcode: u16) -> (CpuState, Result<usize, Fault>) {
        let operation = nibble(opcode, 3);
        if operation == 0x0 {
            self.mov_l(opcode)
        } else if operation == 0x1 {
            self.add_l(opcode)
        } else if operation == 0x2 {
            self.cmp_l(opcode)
        } else if operation == 0x3 {
            self.sub_l(opcode)
        } else {
            (self, Err(Fault::UnimplementedOpcode))
        }
    }

    /// The instructions of group 78, on an operand at @(d:24,ERn): the
    /// second word selects MOV.W in either direction.
    pub open spec fn exec_disp24(self, opcode: u16) -> (CpuState, Result<usize, Fault>) {
        if opcode & 0xff0f != 0x7800 {
            (self, Err(Fault::UnimplementedOpcode))
        } else {
            match self.fetch() {
                (fetched, Ok(opcode2)) => if opcode2 & 0xfff0 == 0x6b20 || opcode2 & 0xfff0
                    == 0x6ba0 {
                    fetched.mov_w_disp24(opcode, opcode2)
                } else {
                    (fetched, Err(Fault::UnimplementedOpcode))
                },
                (failed, Err(fault)) => (failed, Err(fault)),
            }
        }
    }

    /// The instructions of group 7C, which test a bit of the byte at @ERd:
    /// the second word selects BAND or BILD.
    pub open spec fn exec_bit_test_ern(self, opcode: u16) -> (CpuState, Result<usize, Fault>) {
        if opcode & 0xff0f != 0x7c00 {
            (self, Err(Fault::UnimplementedOpcode))
        } else {
            match self.fetch() {
                (fetched, Ok(opcode2)) => if opcode2 & 0xff8f == 0x7600 {
                    fetched.band_ern(opcode, opcode2)
                } else if opcode2 & 0xff8f == 0x7780 {
                    fetched.bild_ern(opcode, opcode2)
                } else {
                    (fetched, Err(Fault::UnimplementedOpcode))
                },
                (failed, Err(fault)) => (failed, Err(fault)),
            }
        }
    }

    /// The instructions of group 7E, which test a bit of the byte at
    /// @aa:8: the second word selects BAND or BILD.
    pub open spec fn exec_bit_test_abs(self, opcode: u16) -> (CpuState, Result<usize, Fault>) {
        match self.fetch() {
            (fetched, Ok(opcode2)) => if opcode2 & 0xff8f == 0x7600 {
                fetched.band_abs(opcode, opcode2)
            } else if opcode2 & 0xff8f == 0x7780 {
                fetched.bild_abs(opcode, opcode2)
            } else {
                (fetched, Err(Fault::UnimplementedOpcode))
            },
            (failed, Err(fault)) => (failed, Err(fault)),
        }
    }

    /// The instructions of group 7D, which change a bit of the byte at
    /// @ERd: the second word selects BNOT, BCLR or BST.
    pub open spec fn exec_bit_write_ern(self, opcode: u16) -> (CpuState, Result<usize, Fault>) {
        if opcode & 0xff0f != 0x7d00 {
            (self, Err(Fault::UnimplementedOpcode))
        } else {
            match self.fetch() {
                (fetched, Ok(opcode2)) => {
                    let operation = high_byte(opcode2);
                    if operation == 0x61 || operation == 0x71 {
                        fetched.bnot_ern(opcode, opcode2)
                    } else if operation == 0x62 || operation == 0x72 {
                        fetched.bclr_ern(opcode, opcode2)
                    } else if opcode2 & 0xff8f == 0x6700 {
                        fetched.bst_ern(opcode, opcode2)
                    } else {
                        (fetched, Err(Fault::UnimplementedOpcode))
                    }
                },
                (failed, Err(fault)) => (failed, Err(fault)),
            }
        }
    }

    /// The instructions of group 7F, which change a bit of the byte at
    /// @aa:8: the second word selects BNOT, BCLR or BST.
    pub open spec fn exec_bit_write_abs(self, opcode: u16) -> (CpuState, Result<usize, Fault>) {
        match self.fetch() {
            (fetched, Ok(opcode2)) => {
                let operation = high_byte(opcode2);
                if operation == 0x61 || operation == 0x71 {
                    fetched.bnot_abs(opcode, opcode2)
                } else if operation == 0x62 || operation == 0x72 {
                    fetched.bclr_abs(opcode, opcode2)
                } else if opcode2 & 0xff8f == 0x6700 {
                    fetched.bst_abs(opcode, opcode2)
                } else {
                    (fetched, Err(Fault::UnimplementedOpcode))
                }
            },
            (failed, Err(fault)) => (failed, Err(fault)),
        }
    }

    /// What the instruction that begins with `opcode` does to the state
    /// that the fetch of `opcode` left, and the states it takes. An opcode
    /// that no instruction here begins with is not implemented.
    ///
    /// The table is long, so it is opaque: a proof that needs it says
    /// `reveal(CpuState::exec)`.
    #[verifier::opaque]
    pub open spec fn exec(self, opcode: u16) -> (CpuState, Result<usize, Fault>) {
        let group = high_byte(opcode);
        if group == 0x01 || group == 0x0f {
            self.mov_l(opcode)
        } else if group == 0x08 {
            self.add_b(opcode)
        } else if group == 0x09 {
            self.add_w(opcode)
        } else if group == 0x0a {
            self.add_l(opcode)
        } else if group == 0x0b {
            self.adds(opcode)
        } else if group == 0x0d || group == 0x69 || group == 0x6b || group == 0x6d || group
            == 0x6f {
            self.mov_w(opcode)
        } else if group == 0x10 {
            self.exec_shift(opcode)
        } else if group == 0x1a {
            self.sub_l(opcode)
        } else if group == 0x1b {
            self.subs(opcode)
        } else if group == 0x1d {
            self.cmp_w(opcode)
        } else if group == 0x1f {
            self.cmp_l(opcode)
        } else if 0x40 <= group <= 0x4f || group == 0x58 {
            self.bcc(opcode)
        } else if group == 0x54 {
            self.rts()
        } else if group == 0x55 {
            self.bsr_disp16(opcode)
        } else if group == 0x57 {
            (self, Ok(TRAPA_STATES))
        } else if group == 0x59 || group == 0x5a || group == 0x5b {
            self.jmp(opcode)
        } else if group == 0x5c {
            self.bsr_disp24(opcode)
        } else if group == 0x5d || group == 0x5e || group == 0x5f {
            self.jsr(opcode)
        } else if group == 0x61 {
            self.bnot_rn_from_rn(opcode)
        } else if group == 0x62 {
            self.bclr_rn_from_rn(opcode)
        } else if group == 0x67 && opcode & 0x0080 == 0 {
            self.bst_rn(opcode)
        } else if group == 0x71 && opcode & 0x0080 == 0 {
            self.bnot_rn_from_imm(opcode)
        } else if group == 0x72 && opcode & 0x0080 == 0 {
            self.bclr_rn_from_imm(opcode)
        } else if group == 0x76 && opcode & 0x0080 == 0 {
            self.band_rn(opcode)
        } else if group == 0x77 && opcode & 0x0080 != 0 {
            self.bild_rn(opcode)
        } else if group == 0x78 {
            self.exec_disp24(opcode)
        } else if group == 0x79 {
            self.exec_imm16(opcode)
        } else if group == 0x7a {
            self.exec_imm32(opcode)
        } else if group == 0x7c {
            self.exec_bit_test_ern(opcode)
        } else if group == 0x7d {
            self.exec_bit_write_ern(opcode)
        } else if group == 0x7e {
            self.exec_bit_test_abs(opcode)
        } else if group == 0x7f {
            self.exec_bit_write_abs(opcode)
        } else if 0x80 <= group <= 0x8f {
            self.add_b(opcode)
        } else {
            (self, Err(Fault::UnimplementedOpcode))
        }
    }

    /// One instruction: the fetch of its first word and what `exec` makes
    /// of it. A fault comes with the address of the instruction and its
    /// first word.
    pub open spec fn step(self) -> (CpuState, Result<usize, CpuError>) {
        match self.fetch() {
            (fetched, Ok(opcode)) => match fetched.exec(opcode) {
                (done, Ok(states)) => (done, Ok(states)),
                (failed, Err(kind)) => (failed, Err(CpuError { kind, pc: self.pc, opcode })),
            },
            (failed, Err(kind)) => (failed, Err(CpuError { kind, pc: self.pc, opcode: 0 })),
        }
    }

    /// Whether the program counter has reached the exit address.
    pub open spec fn halted(self) -> bool {
        self.pc == self.exit_addr
    }
}

impl Cpu {
    /// The instructions of group 10.
    pub fn exec_shift(&mut self, opcode: u16) -> (r: Result<usize, Fault>)
        ensures
            (final(self)@, r) == old(self)@.exec_shift(opcode),
    {
        match Cpu::get_nibble_opcode(opcode, 3)? {
            0x0 => self.shll_b(opcode),
            0x1 => self.shll_w(opcode),
            0x3 => self.shll_l(opcode),
            0x8 => self.shal_b(opcode),
            0x9 => self.shal_w(opcode),
            0xb => self.shal_l(opcode),
            _ => Err(Fault::UnimplementedOpcode),
        }
    }

    /// The instructions of group 79.
    pub fn exec_imm16(&mut self, opcode: u16) -> (r: Result<usize, Fault>)
        ensures
            (final(self)@, r) == old(self)@.exec_imm16(opcode),
    {
        match Cpu::get_nibble_opcode(opcode, 3)? {
            0x0 => self.mov_w(opcode),
            0x1 => self.add_w(opcode),
            0x2 => self.cmp_w(opcode),
            _ => Err(Fault::UnimplementedOpcode),
        }
    }

    /// The instructions of group 7A.
    pub fn exec_imm32(&mut self, opcode: u16) -> (r: Result<usize, Fault>)
        ensures
            (final(self)@, r) == old(self)@.exec_imm32(opcode),
    {
        match Cpu::get_nibble_opcode(opcode, 3)? {
            0x0 => self.mov_l(opcode),
            0x1 => self.add_l(opcode),
            0x2 => self.cmp_l(opcode),
            0x3 => self.sub_l(opcode),
            _ => Err(Fault::UnimplementedOpcode),
        }
    }

    /// The instructions of group 78.
    pub fn exec_disp24(&mut self, opcode: u16) -> (r: Result<usize, Fault>)
        ensures
            (final(self)@, r) == old(self)@.exec_disp24(opcode),
    {
        if opcode & 0xff0f != 0x7800 {
            return Err(Fault::UnimplementedOpcode);
        }
        let opcode2 = self.fetch()?;
        match opcode2 & 0xfff0 {
            0x6b20 | 0x6ba0 => self.mov_w_disp24(opcode, opcode2),
            _ => Err(Fault::UnimplementedOpcode),
        }
    }

    /// The instructions of group 7C.
    pub fn exec_bit_test_ern(&mut self, opcode: u16) -> (r: Result<usize, Fault>)
        ensures
            (final(self)@, r) == old(self)@.exec_bit_test_ern(opcode),
    {
        if opcode & 0xff0f != 0x7c00 {
            return Err(Fault::UnimplementedOpcode);
        }
        let opcode2 = self.fetch()?;
        match opcode2 & 0xff8f {
            0x7600 => self.band_ern(opcode, opcode2),
            0x7780 => self.bild_ern(opcode, opcode2),
            _ => Err(Fault::UnimplementedOpcode),
        }
    }

    /// The instructions of group 7E.
    pub fn exec_bit_test_abs(&mut self, opcode: u16) -> (r: Result<usize, Fault>)
        ensures
            (final(self)@, r) == old(self)@.exec_bit_test_abs(opcode),
    {
        let opcode2 = self.fetch()?;
        match opcode2 & 0xff8f {
            0x7600 => self.band_abs(opcode, opcode2),
            0x7780 => self.bild_abs(opcode, opcode2),
            _ => Err(Fault::UnimplementedOpcode),
        }
    }

    /// The instructions of group 7D.
    pub fn exec_bit_write_ern(&mut self, opcode: u16) -> (r: Result<usize, Fault>)
        ensures
            (final(self)@, r) == old(self)@.exec_bit_write_ern(opcode),
    {
        if opcode & 0xff0f != 0x7d00 {
            return Err(Fault::UnimplementedOpcode);
        }
        let opcode2 = self.fetch()?;
        match Cpu::opcode_high(opcode2) {
            0x61 | 0x71 => self.bnot_ern(opcode, opcode2),
            0x62 | 0x72 => self.bclr_ern(opcode, opcode2),
            _ => if opcode2 & 0xff8f == 0x6700 {
                self.bst_ern(opcode, opcode2)
            } else {
                Err(Fault::UnimplementedOpcode)
            },
        }
    }

    /// The instructions of group 7F.
    pub fn exec_bit_write_abs(&mut self, opcode: u16) -> (r: Result<usize, Fault>)
        ensures
            (final(self)@, r) == old(self)@.exec_bit_write_abs(opcode),
    {
        let opcode2 = self.fetch()?;
        match Cpu::opcode_high(opcode2) {
            0x61 | 0x71 => self.bnot_abs(opcode, opcode2),
            0x62 | 0x72 => self.bclr_abs(opcode, opcode2),
            _ => if opcode2 & 0xff8f == 0x6700 {
                self.bst_abs(opcode, opcode2)
            } else {
                Err(Fault::UnimplementedOpcode)
            },
        }
    }

    /// Executes the instruction that begins with `opcode`, which the caller
    /// has fetched, and returns the states it took.
    pub fn exec(&mut self, opcode: u16) -> (r: Result<usize, Fault>)
        ensures
            (final(self)@, r) == old(self)@.exec(opcode),
            r matches Ok(states) ==> 1 <= states <= MAX_STATES,
            forall|code: CCR|
                !may_change(opcode, code) ==> #[trigger] final(self)@.flag(code) == old(self)@.flag(
                    code,
                ),
            r is Ok && !transfers_control(opcode) ==> old(self).pc <= final(self).pc <= old(
                self,
            ).pc + 8 && final(self).pc % 2 == old(self).pc % 2,
            r is Ok && transfers_control(opcode) ==> final(self).pc < 0x100_0000 || old(self).pc
                <= final(self).pc <= old(self).pc + 2,
            old(self).pc < 0x100_0000 ==> final(self).pc < 0x100_0000,
    {
        proof {
            lemma_exec_orderly(self@, opcode);
            lemma_exec_keeps_flags(self@, opcode);
        }
        reveal(CpuState::exec);
        match Cpu::opcode_high(opcode) {
            0x01 | 0x0f => self.mov_l(opcode),
            0x08 => self.add_b(opcode),
            0x09 => self.add_w(opcode),
            0x0a => self.add_l(opcode),
            0x0b => self.adds(opcode),
            0x0d | 0x69 | 0x6b | 0x6d | 0x6f => self.mov_w(opcode),
            0x10 => self.exec_shift(opcode),
            0x1a => self.sub_l(opcode),
            0x1b => self.subs(opcode),
            0x1d => self.cmp_w(opcode),
            0x1f => self.cmp_l(opcode),
            0x40..=0x4f | 0x58 => self.bcc(opcode),
            0x54 => self.rts(),
            0x55 => self.bsr_disp16(opcode),
            0x57 => Ok(TRAPA_STATES),
            0x59 | 0x5a | 0x5b => self.jmp(opcode),
            0x5c => self.bsr_disp24(opcode),
            0x5d | 0x5e | 0x5f => self.jsr(opcode),
            0x61 => self.bnot_rn_from_rn(opcode),
            0x62 => self.bclr_rn_from_rn(opcode),
            0x67 => if opcode & 0x0080 == 0 {
                self.bst_rn(opcode)
            } else {
                Err(Fault::UnimplementedOpcode)
            },
            0x71 => if opcode & 0x0080 == 0 {
                self.bnot_rn_from_imm(opcode)
            } else {
                Err(Fault::UnimplementedOpcode)
            },
            0x72 => if opcode & 0x0080 == 0 {
                self.bclr_rn_from_imm(opcode)
            } else {
                Err(Fault::UnimplementedOpcode)
            },
            0x76 => if opcode & 0x0080 == 0 {
                self.band_rn(opcode)
            } else {
                Err(Fault::UnimplementedOpcode)
            },
            0x77 => if opcode & 0x0080 != 0 {
                self.bild_rn(opcode)
            } else {
                Err(Fault::UnimplementedOpcode)
            },
            0x78 => self.exec_disp24(opcode),
            0x79 => self.exec_imm16(opcode),
            0x7a => self.exec_imm32(opcode),
            0x7c => self.exec_bit_test_ern(opcode),
            0x7d => self.exec_bit_write_ern(opcode),
            0x7e => self.exec_bit_test_abs(opcode),
            0x7f => self.exec_bit_write_abs(opcode),
            0x80..=0x8f => self.add_b(opcode),
            _ => Err(Fault::UnimplementedOpcode),
        }
    }

    /// Fetches and executes one instruction and returns the states it took.
    pub fn step(&mut self) -> (r: Result<usize, CpuError>)
        ensures
            (final(self)@, r) == old(self)@.step(),
            r matches Ok(states) ==> 1 <= states <= MAX_STATES,
            r is Ok ==> final(self).pc < 0x100_0000,
            r is Ok && !transfers_control(old(self)@.fetch().1->Ok_0) ==> old(self).pc + 2
                <= final(self).pc <= old(self).pc + 10 && final(self).pc % 2 == old(self).pc % 2,
    {
        let pc = self.pc;
        let opcode = match self.fetch() {
            Ok(opcode) => opcode,
            Err(kind) => {
                return Err(CpuError { kind, pc, opcode: 0 });
            },
        };
        match self.exec(opcode) {
            Ok(states) => Ok(states),
            Err(kind) => Err(CpuError { kind, pc, opcode }),
        }
    }

    /// Whether the program counter has reached the exit address.
    pub fn is_halted(&self) -> (r: bool)
        ensures
            r == self@.halted(),
    {
        self.pc == self.exit_addr
    }
}

} // verus!
