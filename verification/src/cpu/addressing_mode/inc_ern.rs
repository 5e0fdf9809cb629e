use vstd::prelude::*;
use crate::bits::lemma_mask24;
use crate::cpu::addressing_mode::ern::mask24;
use crate::cpu::Cpu;
use crate::error::Fault;
use crate::model::{CpuState, Size};

verus! {

/// What `@ERn+` leaves in ERn: the register plus the operand's size. There
/// is no such value where the sum does not fit in 32 bits.
pub open spec fn post_increment(value: u32, size: Size) -> Result<u32, Fault> {
    if value + size.bytes() <= u32::MAX {
        Ok((value + size.bytes()) as u32)
    } else {
        Err(Fault::ArithmeticOverflow)
    }
}

impl CpuState {
    /// The value read through `@ERn+` and the state with ERn incremented. A
    /// fault leaves the state as it was.
    pub open spec fn load_inc_b(self, field: u8) -> (CpuState, Result<u8, Fault>) {
        match self.reg_l(field) {
            Ok(addr) => match (self.load_b(mask24(addr)), post_increment(addr, Size::Byte)) {
                (Ok(value), Ok(next)) => (self.with_rn_l(field, next), Ok(value)),
                (Err(fault), _) => (self, Err(fault)),
                (_, Err(fault)) => (self, Err(fault)),
            },
            Err(fault) => (self, Err(fault)),
        }
    }

    /// The value read through `@ERn+` and the state with ERn incremented. A
    /// fault leaves the state as it was.
    pub open spec fn load_inc_w(self, field: u8) -> (CpuState, Result<u16, Fault>) {
        match self.reg_l(field) {
            Ok(addr) => match (self.load_w(mask24(addr)), post_increment(addr, Size::Word)) {
                (Ok(value), Ok(next)) => (self.with_rn_l(field, next), Ok(value)),
                (Err(fault), _) => (self, Err(fault)),
                (_, Err(fault)) => (self, Err(fault)),
            },
            Err(fault) => (self, Err(fault)),
        }
    }

    /// The value read through `@ERn+` and the state with ERn incremented. A
    /// fault leaves the state as it was.
    pub open spec fn load_inc_l(self, field: u8) -> (CpuState, Result<u32, Fault>) {
        match self.reg_l(field) {
            Ok(addr) => match (self.load_l(mask24(addr)), post_increment(addr, Size::Long)) {
                (Ok(value), Ok(next)) => (self.with_rn_l(field, next), Ok(value)),
                (Err(fault), _) => (self, Err(fault)),
                (_, Err(fault)) => (self, Err(fault)),
            },
            Err(fault) => (self, Err(fault)),
        }
    }
}

impl Cpu {
    /// What `@ERn+` leaves in a register that held `value`.
    pub fn get_post_increment(value: u32, size: Size) -> (r: Result<u32, Fault>)
        ensures
            r == post_increment(value, size),
    {
        match value.checked_add(size.width()) {
            Some(next) => Ok(next),
            None => Err(Fault::ArithmeticOverflow),
        }
    }

    /// Reads the byte that ERn points to and increments ERn by 1.
    pub fn read_inc_ern_b(&mut self, register_field: u8) -> (r: Result<u8, Fault>)
        ensures
            (final(self)@, r) == old(self)@.load_inc_b(register_field),
    {
        let addr = self.read_rn_l(register_field)?;
        proof {
            lemma_mask24(addr);
        }
        let value = self.read_abs24_b(addr & 0x00ff_ffff)?;
        let next = Cpu::get_post_increment(addr, Size::Byte)?;
        self.write_rn_l(register_field, next)?;
        Ok(value)
    }

    /// Reads the half-word that ERn points to and increments ERn by 2.
    pub fn read_inc_ern_w(&mut self, register_field: u8) -> (r: Result<u16, Fault>)
        ensures
            (final(self)@, r) == old(self)@.load_inc_w(register_field),
    {
        let addr = self.read_rn_l(register_field)?;
        proof {
            lemma_mask24(addr);
        }
        let value = self.read_abs24_w(addr & 0x00ff_ffff)?;
        let next = Cpu::get_post_increment(addr, Size::Word)?;
        self.write_rn_l(register_field, next)?;
        Ok(value)
    }

    /// Reads the word that ERn points to and increments ERn by 4.
    pub fn read_inc_ern_l(&mut self, register_field: u8) -> (r: Result<u32, Fault>)
        ensures
            (final(self)@, r) == old(self)@.load_inc_l(register_field),
    {
        let addr = self.read_rn_l(register_field)?;
        proof {
            lemma_mask24(addr);
        }
        let value = self.read_abs24_l(addr & 0x00ff_ffff)?;
        let next = Cpu::get_post_increment(addr, Size::Long)?;
        self.write_rn_l(register_field, next)?;
        Ok(value)
    }
}

} // verus!
