use vstd::prelude::*;
use crate::bits::{lemma_absolute, lemma_mask24};
use crate::cpu::addressing_mode::ern::mask24;
use crate::cpu::Cpu;
use crate::error::Fault;
use crate::model::CpuState;

verus! {

/// The address that an 8-bit absolute address stands for: in the last 256
/// bytes of the address space.
pub open spec fn abs8_addr(aa: u8) -> u32 {
    (0xff_ff00 + aa) as u32
}

/// The address that a 16-bit absolute address stands for: the address
/// sign-extended to 24 bits.
pub open spec fn abs16_addr(aa: u16) -> u32 {
    if aa >= 0x8000 {
        (0xff_0000 + aa) as u32
    } else {
        aa as u32
    }
}

impl CpuState {
    /// The address that `@@aa:8` names: the low 24 bits of the word at
    /// `@aa:8`.
    pub open spec fn ea_indirect(self, aa: u8) -> Result<u32, Fault> {
        match self.load_l(abs8_addr(aa)) {
            Ok(pointer) => Ok(mask24(pointer)),
            Err(fault) => Err(fault),
        }
    }

    /// The byte at an effective address, or the fault that the address
    /// ended in.
    pub open spec fn load_b_at(self, ea: Result<u32, Fault>) -> Result<u8, Fault> {
        match ea {
            Ok(addr) => self.load_b(addr),
            Err(fault) => Err(fault),
        }
    }

    /// The half-word at an effective address.
    pub open spec fn load_w_at(self, ea: Result<u32, Fault>) -> Result<u16, Fault> {
        match ea {
            Ok(addr) => self.load_w(addr),
            Err(fault) => Err(fault),
        }
    }

    /// The word at an effective address.
    pub open spec fn load_l_at(self, ea: Result<u32, Fault>) -> Result<u32, Fault> {
        match ea {
            Ok(addr) => self.load_l(addr),
            Err(fault) => Err(fault),
        }
    }

    /// The state after a byte was stored at an effective address.
    pub open spec fn store_b_at(self, ea: Result<u32, Fault>, value: u8) -> (
        CpuState,
        Result<(), Fault>,
    ) {
        match ea {
            Ok(addr) => self.store_b(addr, value),
            Err(fault) => (self, Err(fault)),
        }
    }

    /// The state after a half-word was stored at an effective address.
    pub open spec fn store_w_at(self, ea: Result<u32, Fault>, value: u16) -> (
        CpuState,
        Result<(), Fault>,
    ) {
        match ea {
            Ok(addr) => self.store_w(addr, value),
            Err(fault) => (self, Err(fault)),
        }
    }

    /// The state after a word was stored at an effective address.
    pub open spec fn store_l_at(self, ea: Result<u32, Fault>, value: u32) -> (
        CpuState,
        Result<(), Fault>,
    ) {
        match ea {
            Ok(addr) => self.store_l(addr, value),
            Err(fault) => (self, Err(fault)),
        }
    }
}

impl Cpu {
    /// The address that `@aa:8` names.
    pub fn get_addr_abs8(addr: u8) -> (r: u32)
        ensures
            r == abs8_addr(addr),
    {
        proof {
            lemma_absolute(addr, 0);
        }
        0xff_ff00 | (addr as u32)
    }

    /// The address that `@aa:16` names.
    pub fn get_addr_abs16(addr: u16) -> (r: u32)
        ensures
            r == abs16_addr(addr),
    {
        proof {
            lemma_absolute(0, addr);
        }
        if addr & 0x8000 == 0x0000 {
            addr as u32
        } else {
            0xff_0000 | (addr as u32)
        }
    }

    /// The address that `@@aa:8` names.
    pub fn get_addr_indirect(&self, addr: u8) -> (r: Result<u32, Fault>)
        ensures
            r == self@.ea_indirect(addr),
    {
        let pointer = self.read_abs8_l(addr)?;
        proof {
            lemma_mask24(pointer);
        }
        Ok(pointer & 0x00ff_ffff)
    }

    /// Stores a byte at `@aa:8`.
    pub fn write_abs8_b(&mut self, addr: u8, value: u8) -> (r: Result<(), Fault>)
        ensures
            (final(self)@, r) == old(self)@.store_b(abs8_addr(addr), value),
    {
        self.write_abs24_b(Cpu::get_addr_abs8(addr), value)
    }

    /// Reads the byte at `@aa:8`.
    pub fn read_abs8_b(&self, addr: u8) -> (r: Result<u8, Fault>)
        ensures
            r == self@.load_b(abs8_addr(addr)),
    {
        self.read_abs24_b(Cpu::get_addr_abs8(addr))
    }

    /// Stores a half-word at `@aa:8`.
    pub fn write_abs8_w(&mut self, addr: u8, value: u16) -> (r: Result<(), Fault>)
        ensures
            (final(self)@, r) == old(self)@.store_w(abs8_addr(addr), value),
    {
        self.write_abs24_w(Cpu::get_addr_abs8(addr), value)
    }

    /// Reads the half-word at `@aa:8`.
    pub fn read_abs8_w(&self, addr: u8) -> (r: Result<u16, Fault>)
        ensures
            r == self@.load_w(abs8_addr(addr)),
    {
        self.read_abs24_w(Cpu::get_addr_abs8(addr))
    }

    /// Stores a word at `@aa:8`.
    pub fn write_abs8_l(&mut self, addr: u8, value: u32) -> (r: Result<(), Fault>)
        ensures
            (final(self)@, r) == old(self)@.store_l(abs8_addr(addr), value),
    {
        self.write_abs24_l(Cpu::get_addr_abs8(addr), value)
    }

    /// Reads the word at `@aa:8`.
    pub fn read_abs8_l(&self, addr: u8) -> (r: Result<u32, Fault>)
        ensures
            r == self@.load_l(abs8_addr(addr)),
    {
        self.read_abs24_l(Cpu::get_addr_abs8(addr))
    }

    /// Stores a byte at `@aa:16`.
    pub fn write_abs16_b(&mut self, addr: u16, value: u8) -> (r: Result<(), Fault>)
        ensures
            (final(self)@, r) == old(self)@.store_b(abs16_addr(addr), value),
    {
        self.write_abs24_b(Cpu::get_addr_abs16(addr), value)
    }

    /// Reads the byte at `@aa:16`.
    pub fn read_abs16_b(&self, addr: u16) -> (r: Result<u8, Fault>)
        ensures
            r == self@.load_b(abs16_addr(addr)),
    {
        self.read_abs24_b(Cpu::get_addr_abs16(addr))
    }

    /// Stores a half-word at `@aa:16`.
    pub fn write_abs16_w(&mut self, addr: u16, value: u16) -> (r: Result<(), Fault>)
        ensures
            (final(self)@, r) == old(self)@.store_w(abs16_addr(addr), value),
    {
        self.write_abs24_w(Cpu::get_addr_abs16(addr), value)
    }

    /// Reads the half-word at `@aa:16`.
    pub fn read_abs16_w(&self, addr: u16) -> (r: Result<u16, Fault>)
        ensures
            r == self@.load_w(abs16_addr(addr)),
    {
        self.read_abs24_w(Cpu::get_addr_abs16(addr))
    }

    /// Stores a word at `@aa:16`.
    pub fn write_abs16_l(&mut self, addr: u16, value: u32) -> (r: Result<(), Fault>)
        ensures
            (final(self)@, r) == old(self)@.store_l(abs16_addr(addr), value),
    {
        self.write_abs24_l(Cpu::get_addr_abs16(addr), value)
    }

    /// Reads the word at `@aa:16`.
    pub fn read_abs16_l(&self, addr: u16) -> (r: Result<u32, Fault>)
        ensures
            r == self@.load_l(abs16_addr(addr)),
    {
        self.read_abs24_l(Cpu::get_addr_abs16(addr))
    }

    /// Stores a byte at `@aa:24`.
    pub fn write_abs24_b(&mut self, addr: u32, value: u8) -> (r: Result<(), Fault>)
        ensures
            (final(self)@, r) == old(self)@.store_b(addr, value),
    {
        self.bus.write_u8(addr, value)
    }

    /// Reads the byte at `@aa:24`.
    pub fn read_abs24_b(&self, addr: u32) -> (r: Result<u8, Fault>)
        ensures
            r == self@.load_b(addr),
    {
        self.bus.read_u8(addr)
    }

    /// Stores a half-word at `@aa:24`.
    pub fn write_abs24_w(&mut self, addr: u32, value: u16) -> (r: Result<(), Fault>)
        ensures
            (final(self)@, r) == old(self)@.store_w(addr, value),
    {
        self.bus.write_u16(addr, value)
    }

    /// Reads the half-word at `@aa:24`.
    pub fn read_abs24_w(&self, addr: u32) -> (r: Result<u16, Fault>)
        ensures
            r == self@.load_w(addr),
    {
        self.bus.read_u16(addr)
    }

    /// Stores a word at `@aa:24`.
    pub fn write_abs24_l(&mut self, addr: u32, value: u32) -> (r: Result<(), Fault>)
        ensures
            (final(self)@, r) == old(self)@.store_l(addr, value),
    {
        self.bus.write_u32(addr, value)
    }

    /// Reads the word at `@aa:24`.
    pub fn read_abs24_l(&self, addr: u32) -> (r: Result<u32, Fault>)
        ensures
            r == self@.load_l(addr),
    {
        self.bus.read_u32(addr)
    }
}

} // verus!
