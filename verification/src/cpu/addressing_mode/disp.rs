use vstd::prelude::*;
use crate::bits::lemma_mask24;
use crate::cpu::Cpu;
use crate::error::Fault;
use crate::model::CpuState;

verus! {

/// A 16-bit displacement as the signed number it stands for.
pub open spec fn sign_extend_16(disp: u16) -> int {
    if disp >= 0x8000 {
        disp - 0x1_0000
    } else {
        disp as int
    }
}

/// The low 24 bits of a displacement as the signed number they stand for.
pub open spec fn sign_extend_24(disp: u32) -> int {
    let low = (disp % 0x100_0000) as int;
    if low >= 0x80_0000 {
        low - 0x100_0000
    } else {
        low
    }
}

/// A base address moved by a signed offset and masked to 24 bits. There is
/// no such address where the sum, before masking, does not fit in 32 bits.
pub open spec fn displaced(addr: u32, offset: int) -> Result<u32, Fault> {
    let sum = addr + offset;
    if 0 <= sum <= u32::MAX {
        Ok((sum % 0x100_0000) as u32)
    } else {
        Err(Fault::ArithmeticOverflow)
    }
}

impl CpuState {
    /// The address that `@(d:16,ERn)` names.
    pub open spec fn ea_disp16(self, field: u8, disp: u16) -> Result<u32, Fault> {
        match self.reg_l(field) {
            Ok(addr) => displaced(addr, sign_extend_16(disp)),
            Err(fault) => Err(fault),
        }
    }

    /// The address that `@(d:24,ERn)` names.
    pub open spec fn ea_disp24(self, field: u8, disp: u32) -> Result<u32, Fault> {
        match self.reg_l(field) {
            Ok(addr) => displaced(addr, sign_extend_24(disp)),
            Err(fault) => Err(fault),
        }
    }
}

impl Cpu {
    /// `addr` moved by a signed 16-bit displacement.
    pub fn get_addr_disp16(addr: u32, disp: u16) -> (r: Result<u32, Fault>)
        ensures
            r == displaced(addr, sign_extend_16(disp)),
    {
        let sum = if disp < 0x8000 {
            addr.checked_add(disp as u32)
        } else {
            addr.checked_sub(0x1_0000 - (disp as u32))
        };
        match sum {
            Some(result) => {
                proof {
                    lemma_mask24(result);
                }
                Ok(result & 0x00ff_ffff)
            },
            None => Err(Fault::ArithmeticOverflow),
        }
    }

    /// `addr` moved by a signed 24-bit displacement; the top byte of `disp`
    /// does not count.
    pub fn get_addr_disp24(addr: u32, disp: u32) -> (r: Result<u32, Fault>)
        ensures
            r == displaced(addr, sign_extend_24(disp)),
    {
        proof {
            lemma_mask24(disp);
        }
        let low: u32 = disp & 0x00ff_ffff;
        let sum = if low < 0x80_0000 {
            addr.checked_add(low)
        } else {
            addr.checked_sub(0x100_0000 - low)
        };
        match sum {
            Some(result) => {
                proof {
                    lemma_mask24(result);
                }
                Ok(result & 0x00ff_ffff)
            },
            None => Err(Fault::ArithmeticOverflow),
        }
    }

    /// The address that `@(d:16,ERn)` names.
    pub fn get_addr_disp16_ern(&self, register_field: u8, disp: u16) -> (r: Result<u32, Fault>)
        ensures
            r == self@.ea_disp16(register_field, disp),
    {
        let addr = self.read_rn_l(register_field)?;
        Cpu::get_addr_disp16(addr, disp)
    }

    /// The address that `@(d:24,ERn)` names.
    pub fn get_addr_disp24_ern(&self, register_field: u8, disp: u32) -> (r: Result<u32, Fault>)
        ensures
            r == self@.ea_disp24(register_field, disp),
    {
        let addr = self.read_rn_l(register_field)?;
        Cpu::get_addr_disp24(addr, disp)
    }

    /// Stores a byte at `@(d:16,ERn)`.
    pub fn write_disp16_ern_b(&mut self, register_field: u8, disp: u16, value: u8) -> (r:
        Result<(), Fault>)
        ensures
            (final(self)@, r) == old(self)@.store_b_at(
                old(self)@.ea_disp16(register_field, disp),
                value,
            ),
    {
        let addr = self.get_addr_disp16_ern(register_field, disp)?;
        self.write_abs24_b(addr, value)
    }

    /// Reads the byte at `@(d:16,ERn)`.
    pub fn read_disp16_ern_b(&self, register_field: u8, disp: u16) -> (r: Result<u8, Fault>)
        ensures
            r == self@.load_b_at(self@.ea_disp16(register_field, disp)),
    {
        let addr = self.get_addr_disp16_ern(register_field, disp)?;
        self.read_abs24_b(addr)
    }

    /// Stores a half-word at `@(d:16,ERn)`.
    pub fn write_disp16_ern_w(&mut self, register_field: u8, disp: u16, value: u16) -> (r:
        Result<(), Fault>)
        ensures
            (final(self)@, r) == old(self)@.store_w_at(
                old(self)@.ea_disp16(register_field, disp),
                value,
            ),
    {
        let addr = self.get_addr_disp16_ern(register_field, disp)?;
        self.write_abs24_w(addr, value)
    }

    /// Reads the half-word at `@(d:16,ERn)`.
    pub fn read_disp16_ern_w(&self, register_field: u8, disp: u16) -> (r: Result<u16, Fault>)
        ensures
            r == self@.load_w_at(self@.ea_disp16(register_field, disp)),
    {
        let addr = self.get_addr_disp16_ern(register_field, disp)?;
        self.read_abs24_w(addr)
    }

    /// Stores a word at `@(d:16,ERn)`.
    pub fn write_disp16_ern_l(&mut self, register_field: u8, disp: u16, value: u32) -> (r:
        Result<(), Fault>)
        ensures
            (final(self)@, r) == old(self)@.store_l_at(
                old(self)@.ea_disp16(register_field, disp),
                value,
            ),
    {
        let addr = self.get_addr_disp16_ern(register_field, disp)?;
        self.write_abs24_l(addr, value)
    }

    /// Reads the word at `@(d:16,ERn)`.
    pub fn read_disp16_ern_l(&self, register_field: u8, disp: u16) -> (r: Result<u32, Fault>)
        ensures
            r == self@.load_l_at(self@.ea_disp16(register_field, disp)),
    {
        let addr = self.get_addr_disp16_ern(register_field, disp)?;
        self.read_abs24_l(addr)
    }

    /// Stores a byte at `@(d:24,ERn)`.
    pub fn write_disp24_ern_b(&mut self, register_field: u8, disp: u32, value: u8) -> (r:
        Result<(), Fault>)
        ensures
            (final(self)@, r) == old(self)@.store_b_at(
                old(self)@.ea_disp24(register_field, disp),
                value,
            ),
    {
        let addr = self.get_addr_disp24_ern(register_field, disp)?;
        self.write_abs24_b(addr, value)
    }

    /// Reads the byte at `@(d:24,ERn)`.
    pub fn read_disp24_ern_b(&self, register_field: u8, disp: u32) -> (r: Result<u8, Fault>)
        ensures
            r == self@.load_b_at(self@.ea_disp24(register_field, disp)),
    {
        let addr = self.get_addr_disp24_ern(register_field, disp)?;
        self.read_abs24_b(addr)
    }

    /// Stores a half-word at `@(d:24,ERn)`.
    pub fn write_disp24_ern_w(&mut self, register_field: u8, disp: u32, value: u16) -> (r:
        Result<(), Fault>)
        ensures
            (final(self)@, r) == old(self)@.store_w_at(
                old(self)@.ea_disp24(register_field, disp),
                value,
            ),
    {
        let addr = self.get_addr_disp24_ern(register_field, disp)?;
        self.write_abs24_w(addr, value)
    }

    /// Reads the half-word at `@(d:24,ERn)`.
    pub fn read_disp24_ern_w(&self, register_field: u8, disp: u32) -> (r: Result<u16, Fault>)
        ensures
            r == self@.load_w_at(self@.ea_disp24(register_field, disp)),
    {
        let addr = self.get_addr_disp24_ern(register_field, disp)?;
        self.read_abs24_w(addr)
    }

    /// Stores a word at `@(d:24,ERn)`.
    pub fn write_disp24_ern_l(&mut self, register_field: u8, disp: u32, value: u32) -> (r:
        Result<(), Fault>)
        ensures
            (final(self)@, r) == old(self)@.store_l_at(
                old(self)@.ea_disp24(register_field, disp),
                value,
            ),
    {
        let addr = self.get_addr_disp24_ern(register_field, disp)?;
        self.write_abs24_l(addr, value)
    }

    /// Reads the word at `@(d:24,ERn)`.
    pub fn read_disp24_ern_l(&self, register_field: u8, disp: u32) -> (r: Result<u32, Fault>)
        ensures
            r == self@.load_l_at(self@.ea_disp24(register_field, disp)),
    {
        let addr = self.get_addr_disp24_ern(register_field, disp)?;
        self.read_abs24_l(addr)
    }
}

} // verus!
