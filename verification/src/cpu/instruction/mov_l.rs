use vstd::prelude::*;
use crate::cpu::addressing_mode::abs::abs16_addr;
use crate::cpu::addressing_mode::ern::mask24;
use crate::cpu::{Cpu, CCR};
use crate::error::Fault;
use crate::model::{high_byte, low3, nibble, CpuState, Size};
use crate::state::{states, states_at, StateType};
use crate::theorems::flags::lemma_flags_after_move;

verus! {

/// States of a move that fetches `fetches` words and accesses the word at
/// `addr` in two cycles.
pub open spec fn mov_l_states(fetches: u8, addr: u32) -> usize {
    (states(StateType::I, fetches) + states_at(StateType::M, 2, addr)) as usize
}

/// States of a move that steps its address register: two fetches, the
/// access at `addr`, and two internal states.
pub open spec fn mov_l_step_states(addr: u32) -> usize {
    (states(StateType::I, 2) + states_at(StateType::M, 2, addr) + states(StateType::N, 2)) as usize
}

impl CpuState {
    /// The state after `value` was moved into ER`rd`.
    pub open spec fn mov_l_into(self, rd: u8, value: u32) -> CpuState {
        self.with_rn_l(rd, value).with_move_flags(Size::Long, value as int)
    }

    /// The word at `ea` moved into the extended register that `rd` names.
    /// The register field is looked at first.
    pub open spec fn mov_l_load(self, ea: Result<u32, Fault>, rd: u8, fetches: u8) -> (
        CpuState,
        Result<usize, Fault>,
    ) {
        match (self.reg_l(rd), ea, self.load_l_at(ea)) {
            (Err(fault), _, _) => (self, Err(fault)),
            (_, Ok(addr), Ok(value)) => (
                self.mov_l_into(rd, value),
                Ok(mov_l_states(fetches, addr)),
            ),
            (_, _, Err(fault)) => (self, Err(fault)),
            (_, Err(fault), _) => (self, Err(fault)),
        }
    }

    /// The extended register that `rs` names moved to the word at `ea`.
    /// The register field is looked at first.
    pub open spec fn mov_l_store(self, ea: Result<u32, Fault>, rs: u8, fetches: u8) -> (
        CpuState,
        Result<usize, Fault>,
    ) {
        match (self.reg_l(rs), ea) {
            (Err(fault), _) => (self, Err(fault)),
            (Ok(value), Ok(addr)) => match self.store_l(addr, value) {
                (stored, Ok(_)) => (
                    stored.with_move_flags(Size::Long, value as int),
                    Ok(mov_l_states(fetches, addr)),
                ),
                (failed, Err(fault)) => (failed, Err(fault)),
            },
            (_, Err(fault)) => (self, Err(fault)),
        }
    }

    /// MOV.L ERs, ERd. The source is the register that the low three bits
    /// of its field name.
    pub open spec fn mov_l_rn(self, opcode: u16) -> (CpuState, Result<usize, Fault>) {
        let rd = nibble(opcode, 4);
        match self.reg_l(rd) {
            Ok(_) => (
                self.mov_l_into(rd, self.rn_l(low3(nibble(opcode, 3)))),
                Ok(states(StateType::I, 1)),
            ),
            Err(fault) => (self, Err(fault)),
        }
    }

    /// MOV.L #xx:32, ERd. The immediate follows in two words.
    pub open spec fn mov_l_imm(self, opcode: u16) -> (CpuState, Result<usize, Fault>) {
        let rd = nibble(opcode, 4);
        match self.fetch_l() {
            (fetched, Ok(imm)) => match fetched.reg_l(rd) {
                Ok(_) => (fetched.mov_l_into(rd, imm), Ok(states(StateType::I, 3))),
                Err(fault) => (fetched, Err(fault)),
            },
            (failed, Err(fault)) => (failed, Err(fault)),
        }
    }

    /// MOV.L @ERs, ERd where bit 7 of the word is clear, MOV.L ERs, @ERd
    /// where it is set.
    pub open spec fn mov_l_ern(self, opcode2: u16) -> (CpuState, Result<usize, Fault>) {
        if opcode2 & 0x0080 == 0 {
            self.mov_l_load(self.ea_ern(nibble(opcode2, 3)), nibble(opcode2, 4), 2)
        } else {
            self.mov_l_store(self.ea_ern(low3(nibble(opcode2, 3))), nibble(opcode2, 4), 2)
        }
    }

    /// MOV.L @(d:16,ERs), ERd where bit 7 of the word is clear,
    /// MOV.L ERs, @(d:16,ERd) where it is set.
    pub open spec fn mov_l_disp16(self, opcode2: u16) -> (CpuState, Result<usize, Fault>) {
        match self.fetch() {
            (fetched, Ok(disp)) => if opcode2 & 0x0080 == 0 {
                fetched.mov_l_load(
                    fetched.ea_disp16(nibble(opcode2, 3), disp),
                    nibble(opcode2, 4),
                    3,
                )
            } else {
                fetched.mov_l_store(
                    fetched.ea_disp16(low3(nibble(opcode2, 3)), disp),
                    nibble(opcode2, 4),
                    3,
                )
            },
            (failed, Err(fault)) => (failed, Err(fault)),
        }
    }

    /// MOV.L @(d:24,ERs), ERd where the third word is 6B2x,
    /// MOV.L ERs, @(d:24,ERd) otherwise. The displacement follows in two
    /// words.
    pub open spec fn mov_l_disp24(self, opcode2: u16, opcode3: u16) -> (
        CpuState,
        Result<usize, Fault>,
    ) {
        match self.fetch_l() {
            (fetched, Ok(disp)) => if opcode3 & 0xfff0 == 0x6b20 {
                fetched.mov_l_load(
                    fetched.ea_disp24(nibble(opcode2, 3), disp),
                    nibble(opcode3, 4),
                    5,
                )
            } else {
                fetched.mov_l_store(
                    fetched.ea_disp24(low3(nibble(opcode2, 3)), disp),
                    nibble(opcode3, 4),
                    5,
                )
            },
            (failed, Err(fault)) => (failed, Err(fault)),
        }
    }

    /// MOV.L @ERs+, ERd where bit 7 of the word is clear,
    /// MOV.L ERs, @-ERd where it is set.
    pub open spec fn mov_l_inc_or_dec(self, opcode2: u16) -> (CpuState, Result<usize, Fault>) {
        let data = nibble(opcode2, 4);
        if opcode2 & 0x0080 == 0 {
            let ern = nibble(opcode2, 3);
            match (self.reg_l(data), self.load_inc_l(ern)) {
                (Err(fault), _) => (self, Err(fault)),
                (_, (stepped, Ok(value))) => (
                    stepped.mov_l_into(data, value),
                    Ok(mov_l_step_states(mask24(self.rn_l(ern)))),
                ),
                (_, (failed, Err(fault))) => (failed, Err(fault)),
            }
        } else {
            let ern = low3(nibble(opcode2, 3));
            match self.reg_l(data) {
                Ok(value) => match self.store_dec_l(ern, value) {
                    (stepped, Ok(_)) => (
                        stepped.with_move_flags(Size::Long, value as int),
                        Ok(mov_l_step_states(mask24(stepped.rn_l(ern)))),
                    ),
                    (failed, Err(fault)) => (failed, Err(fault)),
                },
                Err(fault) => (self, Err(fault)),
            }
        }
    }

    /// MOV.L @aa:16, ERd where the word is 6B0x, MOV.L ERs, @aa:16
    /// otherwise. The address follows in one word.
    pub open spec fn mov_l_abs16(self, opcode2: u16) -> (CpuState, Result<usize, Fault>) {
        match self.fetch() {
            (fetched, Ok(abs_addr)) => if opcode2 & 0xfff0 == 0x6b00 {
                fetched.mov_l_load(Ok(abs16_addr(abs_addr)), nibble(opcode2, 4), 3)
            } else {
                fetched.mov_l_store(Ok(abs16_addr(abs_addr)), nibble(opcode2, 4), 3)
            },
            (failed, Err(fault)) => (failed, Err(fault)),
        }
    }

    /// MOV.L @aa:24, ERd where the word is 6B2x, MOV.L ERs, @aa:24
    /// otherwise. The address follows in two words.
    pub open spec fn mov_l_abs24(self, opcode2: u16) -> (CpuState, Result<usize, Fault>) {
        match self.fetch_l() {
            (fetched, Ok(abs_addr)) => if opcode2 & 0xfff0 == 0x6b20 {
                fetched.mov_l_load(Ok(abs_addr), nibble(opcode2, 4), 4)
            } else {
                fetched.mov_l_store(Ok(abs_addr), nibble(opcode2, 4), 4)
            },
            (failed, Err(fault)) => (failed, Err(fault)),
        }
    }

    /// MOV.L with an operand in memory, after the prefix word: `opcode2`
    /// selects the addressing mode as the opcode of MOV.W does. Another
    /// word is not implemented.
    pub open spec fn mov_l_mem(self, opcode2: u16) -> (CpuState, Result<usize, Fault>) {
        let group = high_byte(opcode2);
        if group == 0x69 {
            self.mov_l_ern(opcode2)
        } else if group == 0x6f {
            self.mov_l_disp16(opcode2)
        } else if group == 0x6d {
            self.mov_l_inc_or_dec(opcode2)
        } else if group == 0x6b && (opcode2 & 0xfff0 == 0x6b00 || opcode2 & 0xfff0 == 0x6b80) {
            self.mov_l_abs16(opcode2)
        } else if group == 0x6b && (opcode2 & 0xfff0 == 0x6b20 || opcode2 & 0xfff0 == 0x6ba0) {
            self.mov_l_abs24(opcode2)
        } else if group == 0x78 && opcode2 & 0xff0f == 0x7800 {
            match self.fetch() {
                (fetched, Ok(opcode3)) => if opcode3 & 0xfff0 == 0x6b20 || opcode3 & 0xfff0
                    == 0x6ba0 {
                    fetched.mov_l_disp24(opcode2, opcode3)
                } else {
                    (fetched, Err(Fault::UnimplementedOpcode))
                },
                (failed, Err(fault)) => (failed, Err(fault)),
            }
        } else {
            (self, Err(Fault::UnimplementedOpcode))
        }
    }

    /// MOV.L in all its forms: between registers, from an immediate, and,
    /// behind the prefix word 0100, with an operand in memory. Another
    /// opcode is not implemented.
    pub open spec fn mov_l(self, opcode: u16) -> (CpuState, Result<usize, Fault>) {
        if high_byte(opcode) == 0x0f {
            self.mov_l_rn(opcode)
        } else if high_byte(opcode) == 0x7a {
            self.mov_l_imm(opcode)
        } else if opcode == 0x0100 {
            match self.fetch() {
                (fetched, Ok(opcode2)) => fetched.mov_l_mem(opcode2),
                (failed, Err(fault)) => (failed, Err(fault)),
            }
        } else {
            (self, Err(Fault::UnimplementedOpcode))
        }
    }
}

impl Cpu {
    /// MOV.L in all its forms.
    pub fn mov_l(&mut self, opcode: u16) -> (r: Result<usize, Fault>)
        ensures
            (final(self)@, r) == old(self)@.mov_l(opcode),
    {
        match Cpu::opcode_high(opcode) {
            0x0f => self.mov_l_rn(opcode),
            0x7a => self.mov_l_imm(opcode),
            _ => if opcode == 0x0100 {
                let opcode2 = self.fetch()?;
                self.mov_l_mem(opcode2)
            } else {
                Err(Fault::UnimplementedOpcode)
            },
        }
    }

    /// MOV.L with an operand in memory, after the prefix word.
    pub fn mov_l_mem(&mut self, opcode2: u16) -> (r: Result<usize, Fault>)
        ensures
            (final(self)@, r) == old(self)@.mov_l_mem(opcode2),
    {
        match Cpu::opcode_high(opcode2) {
            0x69 => self.mov_l_ern(opcode2),
            0x6f => self.mov_l_disp16(opcode2),
            0x6d => self.mov_l_inc_or_dec(opcode2),
            0x6b => match opcode2 & 0xfff0 {
                0x6b00 | 0x6b80 => self.mov_l_abs16(opcode2),
                0x6b20 | 0x6ba0 => self.mov_l_abs24(opcode2),
                _ => Err(Fault::UnimplementedOpcode),
            },
            0x78 => if opcode2 & 0xff0f == 0x7800 {
                let opcode3 = self.fetch()?;
                match opcode3 & 0xfff0 {
                    0x6b20 | 0x6ba0 => self.mov_l_disp24(opcode2, opcode3),
                    _ => Err(Fault::UnimplementedOpcode),
                }
            } else {
                Err(Fault::UnimplementedOpcode)
            },
            _ => Err(Fault::UnimplementedOpcode),
        }
    }

    /// Sets N and Z from a moved word and clears V.
    pub fn mov_l_proc_pcc(&mut self, src: u32)
        ensures
            final(self)@ == old(self)@.with_move_flags(Size::Long, src as int),
            final(self)@.flag(CCR::N) == (src >= 0x8000_0000),
            final(self)@.flag(CCR::Z) == (src == 0),
            !final(self)@.flag(CCR::V),
            final(self)@.flag(CCR::H) == old(self)@.flag(CCR::H),
            final(self)@.flag(CCR::C) == old(self)@.flag(CCR::C),
    {
        proof {
            lemma_flags_after_move(self@, Size::Long, src as int, CCR::N);
            lemma_flags_after_move(self@, Size::Long, src as int, CCR::Z);
            lemma_flags_after_move(self@, Size::Long, src as int, CCR::V);
            lemma_flags_after_move(self@, Size::Long, src as int, CCR::H);
            lemma_flags_after_move(self@, Size::Long, src as int, CCR::C);
        }
        self.set_flag(CCR::N, src >= 0x8000_0000);
        self.set_flag(CCR::Z, src == 0);
        self.set_flag(CCR::V, false);
    }

    /// MOV.L ERs, ERd.
    pub fn mov_l_rn(&mut self, opcode: u16) -> (r: Result<usize, Fault>)
        ensures
            (final(self)@, r) == old(self)@.mov_l_rn(opcode),
    {
        let register_dest = Cpu::get_nibble_opcode(opcode, 4)?;
        self.read_rn_l(register_dest)?;
        let value = self.read_rn_l(Cpu::field_low3(Cpu::get_nibble_opcode(opcode, 3)?))?;
        self.write_rn_l(register_dest, value)?;
        self.mov_l_proc_pcc(value);
        Ok(Cpu::calc_state(StateType::I, 1))
    }

    /// MOV.L #xx:32, ERd.
    pub fn mov_l_imm(&mut self, opcode: u16) -> (r: Result<usize, Fault>)
        ensures
            (final(self)@, r) == old(self)@.mov_l_imm(opcode),
    {
        let imm = self.fetch_l()?;
        self.write_rn_l(Cpu::get_nibble_opcode(opcode, 4)?, imm)?;
        self.mov_l_proc_pcc(imm);
        Ok(Cpu::calc_state(StateType::I, 3))
    }

    /// Moves the word at `addr` into the extended register that
    /// `register` names, after `fetches` words were fetched.
    fn mov_l_from(&mut self, addr: Result<u32, Fault>, register: u8, fetches: u8) -> (r: Result<
        usize,
        Fault,
    >)
        ensures
            (final(self)@, r) == old(self)@.mov_l_load(addr, register, fetches),
    {
        self.read_rn_l(register)?;
        let access_addr = addr?;
        let value = self.read_abs24_l(access_addr)?;
        self.write_rn_l(register, value)?;
        self.mov_l_proc_pcc(value);
        Ok(
            Cpu::calc_state(StateType::I, fetches) + Cpu::calc_state_with_addr(
                StateType::M,
                2,
                access_addr,
            ),
        )
    }

    /// Moves the extended register that `register` names to the word at
    /// `addr`, after `fetches` words were fetched.
    fn mov_l_to(&mut self, addr: Result<u32, Fault>, register: u8, fetches: u8) -> (r: Result<
        usize,
        Fault,
    >)
        ensures
            (final(self)@, r) == old(self)@.mov_l_store(addr, register, fetches),
    {
        let value = self.read_rn_l(register)?;
        let access_addr = addr?;
        self.write_abs24_l(access_addr, value)?;
        self.mov_l_proc_pcc(value);
        Ok(
            Cpu::calc_state(StateType::I, fetches) + Cpu::calc_state_with_addr(
                StateType::M,
                2,
                access_addr,
            ),
        )
    }

    /// MOV.L @ERs, ERd or MOV.L ERs, @ERd.
    pub fn mov_l_ern(&mut self, opcode2: u16) -> (r: Result<usize, Fault>)
        ensures
            (final(self)@, r) == old(self)@.mov_l_ern(opcode2),
    {
        let register = Cpu::get_nibble_opcode(opcode2, 4)?;
        if opcode2 & 0x0080 == 0 {
            let register_ern = Cpu::get_nibble_opcode(opcode2, 3)?;
            self.mov_l_from(self.get_addr_ern(register_ern), register, 2)
        } else {
            let register_ern = Cpu::field_low3(Cpu::get_nibble_opcode(opcode2, 3)?);
            self.mov_l_to(self.get_addr_ern(register_ern), register, 2)
        }
    }

    /// MOV.L @(d:16,ERs), ERd or MOV.L ERs, @(d:16,ERd).
    pub fn mov_l_disp16(&mut self, opcode2: u16) -> (r: Result<usize, Fault>)
        ensures
            (final(self)@, r) == old(self)@.mov_l_disp16(opcode2),
    {
        let disp = self.fetch()?;
        let register = Cpu::get_nibble_opcode(opcode2, 4)?;
        if opcode2 & 0x0080 == 0 {
            let register_ern = Cpu::get_nibble_opcode(opcode2, 3)?;
            self.mov_l_from(self.get_addr_disp16_ern(register_ern, disp), register, 3)
        } else {
            let register_ern = Cpu::field_low3(Cpu::get_nibble_opcode(opcode2, 3)?);
            self.mov_l_to(self.get_addr_disp16_ern(register_ern, disp), register, 3)
        }
    }

    /// MOV.L @(d:24,ERs), ERd or MOV.L ERs, @(d:24,ERd).
    pub fn mov_l_disp24(&mut self, opcode2: u16, opcode3: u16) -> (r: Result<usize, Fault>)
        ensures
            (final(self)@, r) == old(self)@.mov_l_disp24(opcode2, opcode3),
    {
        let disp = self.fetch_l()?;
        let register = Cpu::get_nibble_opcode(opcode3, 4)?;
        if opcode3 & 0xfff0 == 0x6b20 {
            let register_ern = Cpu::get_nibble_opcode(opcode2, 3)?;
            self.mov_l_from(self.get_addr_disp24_ern(register_ern, disp), register, 5)
        } else {
            let register_ern = Cpu::field_low3(Cpu::get_nibble_opcode(opcode2, 3)?);
            self.mov_l_to(self.get_addr_disp24_ern(register_ern, disp), register, 5)
        }
    }

    /// MOV.L @ERs+, ERd or MOV.L ERs, @-ERd.
    pub fn mov_l_inc_or_dec(&mut self, opcode2: u16) -> (r: Result<usize, Fault>)
        ensures
            (final(self)@, r) == old(self)@.mov_l_inc_or_dec(opcode2),
    {
        let register = Cpu::get_nibble_opcode(opcode2, 4)?;
        if opcode2 & 0x0080 == 0 {
            let register_ern = Cpu::get_nibble_opcode(opcode2, 3)?;
            self.read_rn_l(register)?;
            let access_addr = self.get_addr_ern(register_ern)?;
            let value = self.read_inc_ern_l(register_ern)?;
            self.write_rn_l(register, value)?;
            self.mov_l_proc_pcc(value);
            Ok(
                Cpu::calc_state(StateType::I, 2) + Cpu::calc_state_with_addr(
                    StateType::M,
                    2,
                    access_addr,
                ) + Cpu::calc_state(StateType::N, 2),
            )
        } else {
            let register_ern = Cpu::field_low3(Cpu::get_nibble_opcode(opcode2, 3)?);
            let value = self.read_rn_l(register)?;
            self.write_dec_ern_l(register_ern, value)?;
            let access_addr = self.get_addr_ern(register_ern)?;
            self.mov_l_proc_pcc(value);
            Ok(
                Cpu::calc_state(StateType::I, 2) + Cpu::calc_state_with_addr(
                    StateType::M,
                    2,
                    access_addr,
                ) + Cpu::calc_state(StateType::N, 2),
            )
        }
    }

    /// MOV.L @aa:16, ERd or MOV.L ERs, @aa:16.
    pub fn mov_l_abs16(&mut self, opcode2: u16) -> (r: Result<usize, Fault>)
        ensures
            (final(self)@, r) == old(self)@.mov_l_abs16(opcode2),
    {
        let abs_addr = self.fetch()?;
        let register = Cpu::get_nibble_opcode(opcode2, 4)?;
        if opcode2 & 0xfff0 == 0x6b00 {
            self.mov_l_from(Ok(Cpu::get_addr_abs16(abs_addr)), register, 3)
        } else {
            self.mov_l_to(Ok(Cpu::get_addr_abs16(abs_addr)), register, 3)
        }
    }

    /// MOV.L @aa:24, ERd or MOV.L ERs, @aa:24.
    pub fn mov_l_abs24(&mut self, opcode2: u16) -> (r: Result<usize, Fault>)
        ensures
            (final(self)@, r) == old(self)@.mov_l_abs24(opcode2),
    {
        let abs_addr = self.fetch_l()?;
        let register = Cpu::get_nibble_opcode(opcode2, 4)?;
        if opcode2 & 0xfff0 == 0x6b20 {
            self.mov_l_from(Ok(abs_addr), register, 4)
        } else {
            self.mov_l_to(Ok(abs_addr), register, 4)
        }
    }
}

} // verus!
