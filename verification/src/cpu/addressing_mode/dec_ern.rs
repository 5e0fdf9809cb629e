use vstd::prelude::*;
use crate::bits::lemma_mask24;
use crate::cpu::addressing_mode::ern::mask24;
use crate::cpu::Cpu;
use crate::error::Fault;
use crate::model::{CpuState, Size};

verus! {

impl CpuState {
    /// What `@-ERn` leaves in ERn: the register less the operand's size.
    /// There is no such value where the register holds less than that.
    pub open spec fn pre_decrement(self, field: u8, size: Size) -> Result<u32, Fault> {
        match self.reg_l(field) {
            Ok(value) => if value >= size.bytes() {
                Ok((value - size.bytes()) as u32)
            } else {
                Err(Fault::ArithmeticOverflow)
            },
            Err(fault) => Err(fault),
        }
    }

    /// The state after a store through `@-ERn`: the value lies at the
    /// decremented address and ERn holds that address. A fault leaves the
    /// state as it was.
    pub open spec fn store_dec_b(self, field: u8, value: u8) -> (CpuState, Result<(), Fault>) {
        match self.pre_decrement(field, Size::Byte) {
            Ok(next) => match self.store_b(mask24(next), value) {
                (stored, Ok(_)) => (stored.with_rn_l(field, next), Ok(())),
                (_, Err(fault)) => (self, Err(fault)),
            },
            Err(fault) => (self, Err(fault)),
        }
    }

    /// The value read through `@-ERn` and the state with ERn decremented. A
    /// fault leaves the state as it was.
    pub open spec fn load_dec_b(self, field: u8) -> (CpuState, Result<u8, Fault>) {
        match self.pre_decrement(field, Size::Byte) {
            Ok(next) => match self.load_b(mask24(next)) {
                Ok(value) => (self.with_rn_l(field, next), Ok(value)),
                Err(fault) => (self, Err(fault)),
            },
            Err(fault) => (self, Err(fault)),
        }
    }

    /// The state after a store through `@-ERn`: the value lies at the
    /// decremented address and ERn holds that address. A fault leaves the
    /// state as it was.
    pub open spec fn store_dec_w(self, field: u8, value: u16) -> (CpuState, Result<(), Fault>) {
        match self.pre_decrement(field, Size::Word) {
            Ok(next) => match self.store_w(mask24(next), value) {
                (stored, Ok(_)) => (stored.with_rn_l(field, next), Ok(())),
                (_, Err(fault)) => (self, Err(fault)),
            },
            Err(fault) => (self, Err(fault)),
        }
    }

    /// The value read through `@-ERn` and the state with ERn decremented. A
    /// fault leaves the state as it was.
    pub open spec fn load_dec_w(self, field: u8) -> (CpuState, Result<u16, Fault>) {
        match self.pre_decrement(field, Size::Word) {
            Ok(next) => match self.load_w(mask24(next)) {
                Ok(value) => (self.with_rn_l(field, next), Ok(value)),
                Err(fault) => (self, Err(fault)),
            },
            Err(fault) => (self, Err(fault)),
        }
    }

    /// The state after a store through `@-ERn`: the value lies at the
    /// decremented address and ERn holds that address. A fault leaves the
    /// state as it was.
    pub open spec fn store_dec_l(self, field: u8, value: u32) -> (CpuState, Result<(), Fault>) {
        match self.pre_decrement(field, Size::Long) {
            Ok(next) => match self.store_l(mask24(next), value) {
                (stored, Ok(_)) => (stored.with_rn_l(field, next), Ok(())),
                (_, Err(fault)) => (self, Err(fault)),
            },
            Err(fault) => (self, Err(fault)),
        }
    }

    /// The value read through `@-ERn` and the state with ERn decremented. A
    /// fault leaves the state as it was.
    pub open spec fn load_dec_l(self, field: u8) -> (CpuState, Result<u32, Fault>) {
        match self.pre_decrement(field, Size::Long) {
            Ok(next) => match self.load_l(mask24(next)) {
                Ok(value) => (self.with_rn_l(field, next), Ok(value)),
                Err(fault) => (self, Err(fault)),
            },
            Err(fault) => (self, Err(fault)),
        }
    }
}

impl Cpu {
    /// What `@-ERn` leaves in ERn.
    pub fn get_pre_decrement(&self, register_field: u8, size: Size) -> (r: Result<u32, Fault>)
        ensures
            r == self@.pre_decrement(register_field, size),
    {
        let addr = self.read_rn_l(register_field)?;
        match addr.checked_sub(size.width()) {
            Some(next) => Ok(next),
            None => Err(Fault::ArithmeticOverflow),
        }
    }

    /// Decrements ERn by 1 and stores a byte where it then points.
    pub fn write_dec_ern_b(&mut self, register_field: u8, value: u8) -> (r: Result<(), Fault>)
        ensures
            (final(self)@, r) == old(self)@.store_dec_b(register_field, value),
    {
        let next = self.get_pre_decrement(register_field, Size::Byte)?;
        proof {
            lemma_mask24(next);
        }
        self.write_abs24_b(next & 0x00ff_ffff, value)?;
        self.write_rn_l(register_field, next)
    }

    /// Decrements ERn by 1 and reads the byte where it then points.
    pub fn read_dec_ern_b(&mut self, register_field: u8) -> (r: Result<u8, Fault>)
        ensures
            (final(self)@, r) == old(self)@.load_dec_b(register_field),
    {
        let next = self.get_pre_decrement(register_field, Size::Byte)?;
        proof {
            lemma_mask24(next);
        }
        let value = self.read_abs24_b(next & 0x00ff_ffff)?;
        self.write_rn_l(register_field, next)?;
        Ok(value)
    }

    /// Decrements ERn by 2 and stores a half-word where it then points.
    pub fn write_dec_ern_w(&mut self, register_field: u8, value: u16) -> (r: Result<(), Fault>)
        ensures
            (final(self)@, r) == old(self)@.store_dec_w(register_field, value),
    {
        let next = self.get_pre_decrement(register_field, Size::Word)?;
        proof {
            lemma_mask24(next);
        }
        self.write_abs24_w(next & 0x00ff_ffff, value)?;
        self.write_rn_l(register_field, next)
    }

    /// Decrements ERn by 2 and reads the half-word where it then points.
    pub fn read_dec_ern_w(&mut self, register_field: u8) -> (r: Result<u16, Fault>)
        ensures
            (final(self)@, r) == old(self)@.load_dec_w(register_field),
    {
        let next = self.get_pre_decrement(register_field, Size::Word)?;
        proof {
            lemma_mask24(next);
        }
        let value = self.read_abs24_w(next & 0x00ff_ffff)?;
        self.write_rn_l(register_field, next)?;
        Ok(value)
    }

    /// Decrements ERn by 4 and stores a word where it then points.
    pub fn write_dec_ern_l(&mut self, register_field: u8, value: u32) -> (r: Result<(), Fault>)
        ensures
            (final(self)@, r) == old(self)@.store_dec_l(register_field, value),
    {
        let next = self.get_pre_decrement(register_field, Size::Long)?;
        proof {
            lemma_mask24(next);
        }
        self.write_abs24_l(next & 0x00ff_ffff, value)?;
        self.write_rn_l(register_field, next)
    }

    /// Decrements ERn by 4 and reads the word where it then points.
    pub fn read_dec_ern_l(&mut self, register_field: u8) -> (r: Result<u32, Fault>)
        ensures
            (final(self)@, r) == old(self)@.load_dec_l(register_field),
    {
        let next = self.get_pre_decrement(register_field, Size::Long)?;
        proof {
            lemma_mask24(next);
        }
        let value = self.read_abs24_l(next & 0x00ff_ffff)?;
        self.write_rn_l(register_field, next)?;
        Ok(value)
    }
}

} // verus!
