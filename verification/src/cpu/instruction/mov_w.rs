use vstd::prelude::*;
use crate::bits::lemma_join_u32;
use crate::cpu::addressing_mode::abs::abs16_addr;
use crate::cpu::addressing_mode::ern::mask24;
use crate::cpu::{Cpu, CCR};
use crate::error::Fault;
use crate::model::{high_byte, low3, nibble, CpuState, Size};
use crate::state::{states, states_at, StateType};
use crate::theorems::flags::lemma_flags_after_move;

verus! {

/// States of a move that fetches `fetches` words and accesses the half-word
/// at `addr`.
pub open spec fn mov_w_states(fetches: u8, addr: u32) -> usize {
    (states(StateType::I, fetches) + states_at(StateType::M, 1, addr)) as usize
}

/// States of a move that steps its address register: one fetch, the
/// access at `addr`, and two internal states.
pub open spec fn mov_w_step_states(addr: u32) -> usize {
    (states(StateType::I, 1) + states_at(StateType::M, 1, addr) + states(StateType::N, 2)) as usize
}

impl CpuState {
    /// The state after `value` was moved into word register `rd`.
    pub open spec fn mov_w_into(self, rd: u8, value: u16) -> CpuState {
        self.with_rn_w(rd, value).with_move_flags(Size::Word, value as int)
    }

    /// The half-word at `ea` moved into word register `rd`.
    pub open spec fn mov_w_load(self, ea: Result<u32, Fault>, rd: u8, fetches: u8) -> (
        CpuState,
        Result<usize, Fault>,
    ) {
        match (ea, self.load_w_at(ea)) {
            (Ok(addr), Ok(value)) => (self.mov_w_into(rd, value), Ok(mov_w_states(fetches, addr))),
            (_, Err(fault)) => (self, Err(fault)),
            (Err(fault), _) => (self, Err(fault)),
        }
    }

    /// Word register `rs` moved to the half-word at `ea`.
    pub open spec fn mov_w_store(self, ea: Result<u32, Fault>, rs: u8, fetches: u8) -> (
        CpuState,
        Result<usize, Fault>,
    ) {
        let value = self.rn_w(rs);
        match (ea, self.store_w_at(ea, value)) {
            (Ok(addr), (stored, Ok(_))) => (
                stored.with_move_flags(Size::Word, value as int),
                Ok(mov_w_states(fetches, addr)),
            ),
            (_, (failed, Err(fault))) => (failed, Err(fault)),
            (Err(fault), _) => (self, Err(fault)),
        }
    }

    /// Two words of the instruction stream as one 32-bit operand, the first
    /// word on top.
    pub open spec fn fetch_l(self) -> (CpuState, Result<u32, Fault>) {
        match self.fetch() {
            (first, Ok(hi)) => match first.fetch() {
                (second, Ok(lo)) => (second, Ok((hi * 0x1_0000 + lo) as u32)),
                (failed, Err(fault)) => (failed, Err(fault)),
            },
            (failed, Err(fault)) => (failed, Err(fault)),
        }
    }

    /// MOV.W Rs, Rd.
    pub open spec fn mov_w_rn(self, opcode: u16) -> (CpuState, Result<usize, Fault>) {
        let value = self.rn_w(nibble(opcode, 3));
        (self.mov_w_into(nibble(opcode, 4), value), Ok(states(StateType::I, 1)))
    }

    /// MOV.W #xx:16, Rd.
    pub open spec fn mov_w_imm(self, opcode: u16) -> (CpuState, Result<usize, Fault>) {
        match self.fetch() {
            (fetched, Ok(imm)) => (
                fetched.mov_w_into(nibble(opcode, 4), imm),
                Ok(states(StateType::I, 2)),
            ),
            (failed, Err(fault)) => (failed, Err(fault)),
        }
    }

    /// MOV.W @ERs, Rd where bit 7 of the opcode is clear, MOV.W Rs, @ERd
    /// where it is set.
    pub open spec fn mov_w_ern(self, opcode: u16) -> (CpuState, Result<usize, Fault>) {
        if opcode & 0x0080 == 0 {
            self.mov_w_load(self.ea_ern(nibble(opcode, 3)), nibble(opcode, 4), 1)
        } else {
            self.mov_w_store(self.ea_ern(low3(nibble(opcode, 3))), nibble(opcode, 4), 1)
        }
    }

    /// MOV.W @(d:16,ERs), Rd where bit 7 of the opcode is clear,
    /// MOV.W Rs, @(d:16,ERd) where it is set.
    pub open spec fn mov_w_disp16(self, opcode: u16) -> (CpuState, Result<usize, Fault>) {
        match self.fetch() {
            (fetched, Ok(disp)) => if opcode & 0x0080 == 0 {
                fetched.mov_w_load(
                    fetched.ea_disp16(nibble(opcode, 3), disp),
                    nibble(opcode, 4),
                    2,
                )
            } else {
                fetched.mov_w_store(
                    fetched.ea_disp16(low3(nibble(opcode, 3)), disp),
                    nibble(opcode, 4),
                    2,
                )
            },
            (failed, Err(fault)) => (failed, Err(fault)),
        }
    }

    /// MOV.W @(d:24,ERs), Rd where the second word is 6B2x,
    /// MOV.W Rs, @(d:24,ERd) otherwise. The displacement follows in two
    /// words.
    pub open spec fn mov_w_disp24(self, opcode: u16, opcode2: u16) -> (
        CpuState,
        Result<usize, Fault>,
    ) {
        match self.fetch_l() {
            (fetched, Ok(disp)) => if opcode2 & 0xfff0 == 0x6b20 {
                fetched.mov_w_load(
                    fetched.ea_disp24(nibble(opcode, 3), disp),
                    nibble(opcode2, 4),
                    4,
                )
            } else {
                fetched.mov_w_store(
                    fetched.ea_disp24(low3(nibble(opcode, 3)), disp),
                    nibble(opcode2, 4),
                    4,
                )
            },
            (failed, Err(fault)) => (failed, Err(fault)),
        }
    }

    /// MOV.W @ERs+, Rd where bit 7 of the opcode is clear,
    /// MOV.W Rs, @-ERd where it is set.
    pub open spec fn mov_w_inc_or_dec(self, opcode: u16) -> (CpuState, Result<usize, Fault>) {
        let rd = nibble(opcode, 4);
        if opcode & 0x0080 == 0 {
            let ern = nibble(opcode, 3);
            match self.load_inc_w(ern) {
                (stepped, Ok(value)) => (
                    stepped.mov_w_into(rd, value),
                    Ok(mov_w_step_states(mask24(self.rn_l(ern)))),
                ),
                (failed, Err(fault)) => (failed, Err(fault)),
            }
        } else {
            let ern = low3(nibble(opcode, 3));
            let value = self.rn_w(rd);
            match self.store_dec_w(ern, value) {
                (stepped, Ok(_)) => (
                    stepped.with_move_flags(Size::Word, value as int),
                    Ok(mov_w_step_states(mask24(stepped.rn_l(ern)))),
                ),
                (failed, Err(fault)) => (failed, Err(fault)),
            }
        }
    }

    /// MOV.W @aa:16, Rd where the opcode is 6B0x, MOV.W Rs, @aa:16
    /// otherwise. The address follows in one word.
    pub open spec fn mov_w_abs16(self, opcode: u16) -> (CpuState, Result<usize, Fault>) {
        match self.fetch() {
            (fetched, Ok(abs_addr)) => if opcode & 0xfff0 == 0x6b00 {
                fetched.mov_w_load(Ok(abs16_addr(abs_addr)), nibble(opcode, 4), 2)
            } else {
                fetched.mov_w_store(Ok(abs16_addr(abs_addr)), nibble(opcode, 4), 2)
            },
            (failed, Err(fault)) => (failed, Err(fault)),
        }
    }

    /// MOV.W @aa:24, Rd where the opcode is 6B2x, MOV.W Rs, @aa:24
    /// otherwise. The address follows in two words.
    pub open spec fn mov_w_abs24(self, opcode: u16) -> (CpuState, Result<usize, Fault>) {
        match self.fetch_l() {
            (fetched, Ok(abs_addr)) => if opcode & 0xfff0 == 0x6b20 {
                fetched.mov_w_load(Ok(abs_addr), nibble(opcode, 4), 3)
            } else {
                fetched.mov_w_store(Ok(abs_addr), nibble(opcode, 4), 3)
            },
            (failed, Err(fault)) => (failed, Err(fault)),
        }
    }

    /// MOV.W in the forms that one opcode word selects; another opcode is
    /// not implemented.
    pub open spec fn mov_w(self, opcode: u16) -> (CpuState, Result<usize, Fault>) {
        let group = high_byte(opcode);
        if group == 0x0d {
            self.mov_w_rn(opcode)
        } else if group == 0x79 {
            self.mov_w_imm(opcode)
        } else if group == 0x69 {
            self.mov_w_ern(opcode)
        } else if group == 0x6f {
            self.mov_w_disp16(opcode)
        } else if group == 0x6d {
            self.mov_w_inc_or_dec(opcode)
        } else if group == 0x6b && (opcode & 0xfff0 == 0x6b00 || opcode & 0xfff0 == 0x6b80) {
            self.mov_w_abs16(opcode)
        } else if group == 0x6b && (opcode & 0xfff0 == 0x6b20 || opcode & 0xfff0 == 0x6ba0) {
            self.mov_w_abs24(opcode)
        } else {
            (self, Err(Fault::UnimplementedOpcode))
        }
    }
}

impl Cpu {
    /// MOV.W in the forms that one opcode word selects.
    pub fn mov_w(&mut self, opcode: u16) -> (r: Result<usize, Fault>)
        ensures
            (final(self)@, r) == old(self)@.mov_w(opcode),
    {
        match Cpu::opcode_high(opcode) {
            0x0d => self.mov_w_rn(opcode),
            0x79 => self.mov_w_imm(opcode),
            0x69 => self.mov_w_ern(opcode),
            0x6f => self.mov_w_disp16(opcode),
            0x6d => self.mov_w_inc_or_dec(opcode),
            0x6b => match opcode & 0xfff0 {
                0x6b00 | 0x6b80 => self.mov_w_abs16(opcode),
                0x6b20 | 0x6ba0 => self.mov_w_abs24(opcode),
                _ => Err(Fault::UnimplementedOpcode),
            },
            _ => Err(Fault::UnimplementedOpcode),
        }
    }

    /// Sets N and Z from a moved half-word and clears V.
    pub fn mov_w_proc_pcc(&mut self, src: u16)
        ensures
            final(self)@ == old(self)@.with_move_flags(Size::Word, src as int),
            final(self)@.flag(CCR::N) == (src >= 0x8000),
            final(self)@.flag(CCR::Z) == (src == 0),
            !final(self)@.flag(CCR::V),
            final(self)@.flag(CCR::H) == old(self)@.flag(CCR::H),
            final(self)@.flag(CCR::C) == old(self)@.flag(CCR::C),
    {
        proof {
            lemma_flags_after_move(self@, Size::Word, src as int, CCR::N);
            lemma_flags_after_move(self@, Size::Word, src as int, CCR::Z);
            lemma_flags_after_move(self@, Size::Word, src as int, CCR::V);
            lemma_flags_after_move(self@, Size::Word, src as int, CCR::H);
            lemma_flags_after_move(self@, Size::Word, src as int, CCR::C);
        }
        self.set_flag(CCR::N, src >= 0x8000);
        self.set_flag(CCR::Z, src == 0);
        self.set_flag(CCR::V, false);
    }

    /// Reads two words of the instruction stream as one 32-bit operand.
    pub fn fetch_l(&mut self) -> (r: Result<u32, Fault>)
        ensures
            (final(self)@, r) == old(self)@.fetch_l(),
    {
        let hi = self.fetch()?;
        let lo = self.fetch()?;
        proof {
            lemma_join_u32(hi, lo);
        }
        Ok(((hi as u32) << 16) | (lo as u32))
    }

    /// MOV.W Rs, Rd.
    pub fn mov_w_rn(&mut self, opcode: u16) -> (r: Result<usize, Fault>)
        ensures
            (final(self)@, r) == old(self)@.mov_w_rn(opcode),
    {
        let value = self.read_rn_w(Cpu::get_nibble_opcode(opcode, 3)?)?;
        self.write_rn_w(Cpu::get_nibble_opcode(opcode, 4)?, value)?;
        self.mov_w_proc_pcc(value);
        Ok(Cpu::calc_state(StateType::I, 1))
    }

    /// MOV.W #xx:16, Rd.
    pub fn mov_w_imm(&mut self, opcode: u16) -> (r: Result<usize, Fault>)
        ensures
            (final(self)@, r) == old(self)@.mov_w_imm(opcode),
    {
        let imm = self.fetch()?;
        self.write_rn_w(Cpu::get_nibble_opcode(opcode, 4)?, imm)?;
        self.mov_w_proc_pcc(imm);
        Ok(Cpu::calc_state(StateType::I, 2))
    }

    /// MOV.W @ERs, Rd or MOV.W Rs, @ERd.
    pub fn mov_w_ern(&mut self, opcode: u16) -> (r: Result<usize, Fault>)
        ensures
            (final(self)@, r) == old(self)@.mov_w_ern(opcode),
    {
        if opcode & 0x0080 == 0 {
            let register_ern = Cpu::get_nibble_opcode(opcode, 3)?;
            let access_addr = self.get_addr_ern(register_ern)?;
            let value = self.read_ern_w(register_ern)?;
            self.write_rn_w(Cpu::get_nibble_opcode(opcode, 4)?, value)?;
            self.mov_w_proc_pcc(value);
            Ok(
                Cpu::calc_state(StateType::I, 1) + Cpu::calc_state_with_addr(
                    StateType::M,
                    1,
                    access_addr,
                ),
            )
        } else {
            let register_ern = Cpu::field_low3(Cpu::get_nibble_opcode(opcode, 3)?);
            let access_addr = self.get_addr_ern(register_ern)?;
            let value = self.read_rn_w(Cpu::get_nibble_opcode(opcode, 4)?)?;
            self.write_ern_w(register_ern, value)?;
            self.mov_w_proc_pcc(value);
            Ok(
                Cpu::calc_state(StateType::I, 1) + Cpu::calc_state_with_addr(
                    StateType::M,
                    1,
                    access_addr,
                ),
            )
        }
    }

    /// MOV.W @(d:16,ERs), Rd or MOV.W Rs, @(d:16,ERd).
    pub fn mov_w_disp16(&mut self, opcode: u16) -> (r: Result<usize, Fault>)
        ensures
            (final(self)@, r) == old(self)@.mov_w_disp16(opcode),
    {
        let disp = self.fetch()?;
        if opcode & 0x0080 == 0 {
            let register_ern = Cpu::get_nibble_opcode(opcode, 3)?;
            let access_addr = self.get_addr_disp16_ern(register_ern, disp)?;
            let value = self.read_disp16_ern_w(register_ern, disp)?;
            self.write_rn_w(Cpu::get_nibble_opcode(opcode, 4)?, value)?;
            self.mov_w_proc_pcc(value);
            Ok(
                Cpu::calc_state(StateType::I, 2) + Cpu::calc_state_with_addr(
                    StateType::M,
                    1,
                    access_addr,
                ),
            )
        } else {
            let register_ern = Cpu::field_low3(Cpu::get_nibble_opcode(opcode, 3)?);
            let access_addr = self.get_addr_disp16_ern(register_ern, disp)?;
            let value = self.read_rn_w(Cpu::get_nibble_opcode(opcode, 4)?)?;
            self.write_disp16_ern_w(register_ern, disp, value)?;
            self.mov_w_proc_pcc(value);
            Ok(
                Cpu::calc_state(StateType::I, 2) + Cpu::calc_state_with_addr(
                    StateType::M,
                    1,
                    access_addr,
                ),
            )
        }
    }

    /// MOV.W @(d:24,ERs), Rd or MOV.W Rs, @(d:24,ERd).
    pub fn mov_w_disp24(&mut self, opcode: u16, opcode2: u16) -> (r: Result<usize, Fault>)
        ensures
            (final(self)@, r) == old(self)@.mov_w_disp24(opcode, opcode2),
    {
        let disp = self.fetch_l()?;
        if opcode2 & 0xfff0 == 0x6b20 {
            let register_ern = Cpu::get_nibble_opcode(opcode, 3)?;
            let access_addr = self.get_addr_disp24_ern(register_ern, disp)?;
            let value = self.read_disp24_ern_w(register_ern, disp)?;
            self.write_rn_w(Cpu::get_nibble_opcode(opcode2, 4)?, value)?;
            self.mov_w_proc_pcc(value);
            Ok(
                Cpu::calc_state(StateType::I, 4) + Cpu::calc_state_with_addr(
                    StateType::M,
                    1,
                    access_addr,
                ),
            )
        } else {
            let register_ern = Cpu::field_low3(Cpu::get_nibble_opcode(opcode, 3)?);
            let access_addr = self.get_addr_disp24_ern(register_ern, disp)?;
            let value = self.read_rn_w(Cpu::get_nibble_opcode(opcode2, 4)?)?;
            self.write_disp24_ern_w(register_ern, disp, value)?;
            self.mov_w_proc_pcc(value);
            Ok(
                Cpu::calc_state(StateType::I, 4) + Cpu::calc_state_with_addr(
                    StateType::M,
                    1,
                    access_addr,
                ),
            )
        }
    }

    /// MOV.W @ERs+, Rd or MOV.W Rs, @-ERd.
    pub fn mov_w_inc_or_dec(&mut self, opcode: u16) -> (r: Result<usize, Fault>)
        ensures
            (final(self)@, r) == old(self)@.mov_w_inc_or_dec(opcode),
    {
        if opcode & 0x0080 == 0 {
            let register_ern = Cpu::get_nibble_opcode(opcode, 3)?;
            let access_addr = self.get_addr_ern(register_ern)?;
            let value = self.read_inc_ern_w(register_ern)?;
            self.write_rn_w(Cpu::get_nibble_opcode(opcode, 4)?, value)?;
            self.mov_w_proc_pcc(value);
            Ok(
                Cpu::calc_state(StateType::I, 1) + Cpu::calc_state_with_addr(
                    StateType::M,
                    1,
                    access_addr,
                ) + Cpu::calc_state(StateType::N, 2),
            )
        } else {
            let register_ern = Cpu::field_low3(Cpu::get_nibble_opcode(opcode, 3)?);
            let value = self.read_rn_w(Cpu::get_nibble_opcode(opcode, 4)?)?;
            self.write_dec_ern_w(register_ern, value)?;
            let access_addr = self.get_addr_ern(register_ern)?;
            self.mov_w_proc_pcc(value);
            Ok(
                Cpu::calc_state(StateType::I, 1) + Cpu::calc_state_with_addr(
                    StateType::M,
                    1,
                    access_addr,
                ) + Cpu::calc_state(StateType::N, 2),
            )
        }
    }

    /// MOV.W @aa:16, Rd or MOV.W Rs, @aa:16.
    pub fn mov_w_abs16(&mut self, opcode: u16) -> (r: Result<usize, Fault>)
        ensures
            (final(self)@, r) == old(self)@.mov_w_abs16(opcode),
    {
        let abs_addr = self.fetch()?;
        let access_addr = Cpu::get_addr_abs16(abs_addr);
        if opcode & 0xfff0 == 0x6b00 {
            let value = self.read_abs16_w(abs_addr)?;
            self.write_rn_w(Cpu::get_nibble_opcode(opcode, 4)?, value)?;
            self.mov_w_proc_pcc(value);
        } else {
            let value = self.read_rn_w(Cpu::get_nibble_opcode(opcode, 4)?)?;
            self.write_abs16_w(abs_addr, value)?;
            self.mov_w_proc_pcc(value);
        }
        Ok(
            Cpu::calc_state(StateType::I, 2) + Cpu::calc_state_with_addr(
                StateType::M,
                1,
                access_addr,
            ),
        )
    }

    /// MOV.W @aa:24, Rd or MOV.W Rs, @aa:24.
    pub fn mov_w_abs24(&mut self, opcode: u16) -> (r: Result<usize, Fault>)
        ensures
            (final(self)@, r) == old(self)@.mov_w_abs24(opcode),
    {
        let abs_addr = self.fetch_l()?;
        if opcode & 0xfff0 == 0x6b20 {
            let value = self.read_abs24_w(abs_addr)?;
            self.write_rn_w(Cpu::get_nibble_opcode(opcode, 4)?, value)?;
            self.mov_w_proc_pcc(value);
        } else {
            let value = self.read_rn_w(Cpu::get_nibble_opcode(opcode, 4)?)?;
            self.write_abs24_w(abs_addr, value)?;
            self.mov_w_proc_pcc(value);
        }
        Ok(
            Cpu::calc_state(StateType::I, 3) + Cpu::calc_state_with_addr(
                StateType::M,
                1,
                abs_addr,
            ),
        )
    }
}

} // verus!
