use vstd::prelude::*;
use crate::bits::lemma_mask24;
use crate::cpu::Cpu;
use crate::error::Fault;
use crate::model::CpuState;

verus! {

/// The low 24 bits of a register's value: the address it points to.
pub open spec fn mask24(value: u32) -> u32 {
    (value % 0x100_0000) as u32
}

impl CpuState {
    /// The address that `@ERn` names.
    pub open spec fn ea_ern(self, field: u8) -> Result<u32, Fault> {
        match self.reg_l(field) {
            Ok(value) => Ok(mask24(value)),
            Err(fault) => Err(fault),
        }
    }
}

impl Cpu {
    /// The address that `@ERn` names.
    pub fn get_addr_ern(&self, register_field: u8) -> (r: Result<u32, Fault>)
        ensures
            r == self@.ea_ern(register_field),
    {
        let value = self.read_rn_l(register_field)?;
        proof {
            lemma_mask24(value);
        }
        Ok(value & 0x00ff_ffff)
    }

    /// Stores a byte at `@ERn`.
    pub fn write_ern_b(&mut self, register_field: u8, value: u8) -> (r: Result<(), Fault>)
        ensures
            (final(self)@, r) == old(self)@.store_b_at(old(self)@.ea_ern(register_field), value),
    {
        let addr = self.get_addr_ern(register_field)?;
        self.write_abs24_b(addr, value)
    }

    /// Reads the byte at `@ERn`.
    pub fn read_ern_b(&self, register_field: u8) -> (r: Result<u8, Fault>)
        ensures
            r == self@.load_b_at(self@.ea_ern(register_field)),
    {
        let addr = self.get_addr_ern(register_field)?;
        self.read_abs24_b(addr)
    }

    /// Stores a half-word at `@ERn`.
    pub fn write_ern_w(&mut self, register_field: u8, value: u16) -> (r: Result<(), Fault>)
        ensures
            (final(self)@, r) == old(self)@.store_w_at(old(self)@.ea_ern(register_field), value),
    {
        let addr = self.get_addr_ern(register_field)?;
        self.write_abs24_w(addr, value)
    }

    /// Reads the half-word at `@ERn`.
    pub fn read_ern_w(&self, register_field: u8) -> (r: Result<u16, Fault>)
        ensures
            r == self@.load_w_at(self@.ea_ern(register_field)),
    {
        let addr = self.get_addr_ern(register_field)?;
        self.read_abs24_w(addr)
    }

    /// Stores a word at `@ERn`.
    pub fn write_ern_l(&mut self, register_field: u8, value: u32) -> (r: Result<(), Fault>)
        ensures
            (final(self)@, r) == old(self)@.store_l_at(old(self)@.ea_ern(register_field), value),
    {
        let addr = self.get_addr_ern(register_field)?;
        self.write_abs24_l(addr, value)
    }

    /// Reads the word at `@ERn`.
    pub fn read_ern_l(&self, register_field: u8) -> (r: Result<u32, Fault>)
        ensures
            r == self@.load_l_at(self@.ea_ern(register_field)),
    {
        let addr = self.get_addr_ern(register_field)?;
        self.read_abs24_l(addr)
    }
}

} // verus!
