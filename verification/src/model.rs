//! The architectural state as the contracts see it, and the arithmetic of
//! registers and condition codes.

use vstd::prelude::*;
use crate::bus::{load_u16, load_u32, load_u8, store_u16, store_u32, store_u8};
use crate::bus::{MEMORY_END_ADDR, MEMORY_START_ADDR};
use crate::cpu::CCR;
use crate::error::Fault;

verus! {

/// Width of an operand.
#[derive(Clone, Copy, Debug, PartialEq, Eq, Structural)]
pub enum Size {
    Byte,
    Word,
    Long,
}

impl Size {
    /// Two to the number of bits of the operand.
    pub open spec fn modulus(self) -> int {
        match self {
            Size::Byte => 0x100,
            Size::Word => 0x1_0000,
            Size::Long => 0x1_0000_0000,
        }
    }

    /// Weight of the most significant bit.
    pub open spec fn half(self) -> int {
        match self {
            Size::Byte => 0x80,
            Size::Word => 0x8000,
            Size::Long => 0x8000_0000,
        }
    }

    /// Weight of the lowest bit of the top nibble: bit 4, 12 or 28. A carry
    /// into it, or a borrow from it, is the half-carry.
    pub open spec fn top_nibble(self) -> int {
        match self {
            Size::Byte => 0x10,
            Size::Word => 0x1000,
            Size::Long => 0x1000_0000,
        }
    }

    /// Number of bytes of the operand.
    pub open spec fn bytes(self) -> int {
        match self {
            Size::Byte => 1,
            Size::Word => 2,
            Size::Long => 4,
        }
    }

    /// Number of bytes of the operand.
    pub fn width(self) -> (n: u32)
        ensures
            n == self.bytes(),
    {
        match self {
            Size::Byte => 1,
            Size::Word => 2,
            Size::Long => 4,
        }
    }

    /// The value that the operand's bits spell in two's complement.
    pub open spec fn signed(self, value: int) -> int {
        if value >= self.half() {
            value - self.modulus()
        } else {
            value
        }
    }

    /// Whether `value` can be written in two's complement at this width.
    pub open spec fn fits_signed(self, value: int) -> bool {
        -self.half() <= value < self.half()
    }
}

/// The five condition codes that arithmetic decides.
pub struct Flags {
    pub h: bool,
    pub n: bool,
    pub z: bool,
    pub v: bool,
    pub c: bool,
}

/// Condition codes of `dest + src` at the given width. Opaque: a proof that
/// needs the formulas says `reveal(add_flags)`.
#[verifier::opaque]
pub open spec fn add_flags(size: Size, dest: int, src: int) -> Flags {
    let result = (dest + src) % size.modulus();
    Flags {
        h: dest % size.top_nibble() + src % size.top_nibble() >= size.top_nibble(),
        n: result >= size.half(),
        z: result == 0,
        v: !size.fits_signed(size.signed(dest) + size.signed(src)),
        c: dest + src >= size.modulus(),
    }
}

/// Condition codes of `dest - src` at the given width. Opaque: a proof that
/// needs the formulas says `reveal(sub_flags)`.
#[verifier::opaque]
pub open spec fn sub_flags(size: Size, dest: int, src: int) -> Flags {
    let result = (dest - src) % size.modulus();
    Flags {
        h: dest % size.top_nibble() < src % size.top_nibble(),
        n: result >= size.half(),
        z: result == 0,
        v: !size.fits_signed(size.signed(dest) - size.signed(src)),
        c: dest < src,
    }
}

/// Whether bit `n` of `value` is set.
pub open spec fn bit_of(value: u8, n: u8) -> bool {
    (value >> n) & 1 == 1
}

/// The condition-code byte with the bit at position `bit` set or cleared.
pub open spec fn ccr_with(ccr: u8, bit: u8, on: bool) -> u8 {
    if on {
        ccr | (1u8 << bit)
    } else {
        ccr & !(1u8 << bit)
    }
}

/// Nibble `position` of an opcode word, counted from 1 at the top to 4 at
/// the bottom.
pub open spec fn nibble(opcode: u16, position: u8) -> u8 {
    if position == 1 {
        (opcode / 0x1000) as u8
    } else if position == 2 {
        (opcode / 0x100 % 0x10) as u8
    } else if position == 3 {
        (opcode / 0x10 % 0x10) as u8
    } else {
        (opcode % 0x10) as u8
    }
}

/// The low three bits of a field: a bit number, or the number of an
/// extended register.
pub open spec fn low3(field: u8) -> u8 {
    field % 8
}

/// Upper byte of an opcode word.
pub open spec fn high_byte(opcode: u16) -> u8 {
    (opcode / 0x100) as u8
}

/// Lower byte of an opcode word.
pub open spec fn low_byte(opcode: u16) -> u8 {
    (opcode % 0x100) as u8
}

/// An extended register with its low half-word replaced.
pub open spec fn with_low_word(er: u32, value: u16) -> u32 {
    (er / 0x1_0000 * 0x1_0000 + value) as u32
}

/// An extended register with its high half-word replaced.
pub open spec fn with_high_word(er: u32, value: u16) -> u32 {
    (value * 0x1_0000 + er % 0x1_0000) as u32
}

/// An extended register with bits 0 to 7 replaced.
pub open spec fn with_low_byte(er: u32, value: u8) -> u32 {
    (er / 0x100 * 0x100 + value) as u32
}

/// An extended register with bits 8 to 15 replaced.
pub open spec fn with_high_byte(er: u32, value: u8) -> u32 {
    (er / 0x1_0000 * 0x1_0000 + value * 0x100 + er % 0x100) as u32
}

/// The architectural state: what an instruction reads and what it leaves.
pub struct CpuState {
    pub pc: u32,
    pub ccr: u8,
    /// ER0 to ER7.
    pub er: Seq<u32>,
    /// Every address that the bus answers at, with the byte held there.
    pub mem: Map<int, u8>,
    pub exit_addr: u32,
    /// Instruction words fetched since reset; the count goes around at 64
    /// bits.
    pub fetched: u64,
}

impl CpuState {
    /// There are eight extended registers.
    pub open spec fn wf(self) -> bool {
        self.er.len() == 8
    }

    /// ER`field`, for a field below 8.
    pub open spec fn rn_l(self, field: u8) -> u32 {
        self.er[field as int]
    }

    /// R`field` for a field below 8, E`field - 8` from there to 15.
    pub open spec fn rn_w(self, field: u8) -> u16 {
        if field < 8 {
            (self.er[field as int] % 0x1_0000) as u16
        } else {
            (self.er[field - 8] / 0x1_0000) as u16
        }
    }

    /// R`field`H for a field below 8, R`field - 8`L from there to 15.
    pub open spec fn rn_b(self, field: u8) -> u8 {
        if field < 8 {
            (self.er[field as int] / 0x100 % 0x100) as u8
        } else {
            (self.er[field - 8] % 0x100) as u8
        }
    }

    /// The state with ER`field` replaced.
    pub open spec fn with_rn_l(self, field: u8, value: u32) -> CpuState {
        CpuState { er: self.er.update(field as int, value), ..self }
    }

    /// The state with one half of an extended register replaced; the other
    /// half stays.
    pub open spec fn with_rn_w(self, field: u8, value: u16) -> CpuState {
        if field < 8 {
            CpuState {
                er: self.er.update(field as int, with_low_word(self.er[field as int], value)),
                ..self
            }
        } else {
            CpuState {
                er: self.er.update(field - 8, with_high_word(self.er[field - 8], value)),
                ..self
            }
        }
    }

    /// The state with one of the two low bytes of an extended register
    /// replaced; the other three bytes stay.
    pub open spec fn with_rn_b(self, field: u8, value: u8) -> CpuState {
        if field < 8 {
            CpuState {
                er: self.er.update(field as int, with_high_byte(self.er[field as int], value)),
                ..self
            }
        } else {
            CpuState {
                er: self.er.update(field - 8, with_low_byte(self.er[field - 8], value)),
                ..self
            }
        }
    }

    /// The long register that `field` names, if it names one.
    pub open spec fn reg_l(self, field: u8) -> Result<u32, Fault> {
        if field < 8 {
            Ok(self.rn_l(field))
        } else {
            Err(Fault::InvalidRegisterField { field })
        }
    }

    /// The word register that `field` names, if it names one.
    pub open spec fn reg_w(self, field: u8) -> Result<u16, Fault> {
        if field < 16 {
            Ok(self.rn_w(field))
        } else {
            Err(Fault::InvalidRegisterField { field })
        }
    }

    /// The byte register that `field` names, if it names one.
    pub open spec fn reg_b(self, field: u8) -> Result<u8, Fault> {
        if field < 16 {
            Ok(self.rn_b(field))
        } else {
            Err(Fault::InvalidRegisterField { field })
        }
    }

    /// The state after a long register was written, or the state as it was
    /// with the fault.
    pub open spec fn set_reg_l(self, field: u8, value: u32) -> (CpuState, Result<(), Fault>) {
        if field < 8 {
            (self.with_rn_l(field, value), Ok(()))
        } else {
            (self, Err(Fault::InvalidRegisterField { field }))
        }
    }

    /// The state after a word register was written, or the state as it was
    /// with the fault.
    pub open spec fn set_reg_w(self, field: u8, value: u16) -> (CpuState, Result<(), Fault>) {
        if field < 16 {
            (self.with_rn_w(field, value), Ok(()))
        } else {
            (self, Err(Fault::InvalidRegisterField { field }))
        }
    }

    /// The state after a byte register was written, or the state as it was
    /// with the fault.
    pub open spec fn set_reg_b(self, field: u8, value: u8) -> (CpuState, Result<(), Fault>) {
        if field < 16 {
            (self.with_rn_b(field, value), Ok(()))
        } else {
            (self, Err(Fault::InvalidRegisterField { field }))
        }
    }

    /// Whether a condition code is set.
    pub open spec fn flag(self, code: CCR) -> bool {
        bit_of(self.ccr, code.bit())
    }

    /// The state with one condition code set or cleared.
    pub open spec fn with_flag(self, code: CCR, on: bool) -> CpuState {
        CpuState { ccr: ccr_with(self.ccr, code.bit(), on), ..self }
    }

    /// H, N, Z, V and C as they stand in the condition-code register.
    pub open spec fn flags(self) -> Flags {
        Flags {
            h: self.flag(CCR::H),
            n: self.flag(CCR::N),
            z: self.flag(CCR::Z),
            v: self.flag(CCR::V),
            c: self.flag(CCR::C),
        }
    }

    /// The state with H, N, Z, V and C replaced.
    pub open spec fn with_flags(self, flags: Flags) -> CpuState {
        self.with_flag(CCR::H, flags.h).with_flag(CCR::N, flags.n).with_flag(
            CCR::Z,
            flags.z,
        ).with_flag(CCR::V, flags.v).with_flag(CCR::C, flags.c)
    }

    /// The state after a move of `value`: N and Z follow the value, V is
    /// cleared.
    pub open spec fn with_move_flags(self, size: Size, value: int) -> CpuState {
        self.with_flag(CCR::N, value >= size.half()).with_flag(CCR::Z, value == 0).with_flag(
            CCR::V,
            false,
        )
    }

    /// The state with the program counter replaced.
    pub open spec fn with_pc(self, pc: u32) -> CpuState {
        CpuState { pc, ..self }
    }

    /// The state with one more word counted as fetched.
    pub open spec fn counted(self) -> CpuState {
        CpuState {
            fetched: if self.fetched == u64::MAX {
                0
            } else {
                (self.fetched + 1) as u64
            },
            ..self
        }
    }

    /// The state with memory replaced.
    pub open spec fn with_mem(self, mem: Map<int, u8>) -> CpuState {
        CpuState { mem, ..self }
    }

    /// Address of the word that the next fetch reads: the program counter
    /// without its lowest bit.
    pub open spec fn fetch_addr(self) -> u32 {
        (self.pc - self.pc % 2) as u32
    }

    /// Whether the program counter points into program memory.
    pub open spec fn can_fetch(self) -> bool {
        MEMORY_START_ADDR <= self.fetch_addr() <= MEMORY_END_ADDR
    }

    /// The word at the program counter and the state with the counter moved
    /// past it and the word counted, or the state as it was with the fault.
    pub open spec fn fetch(self) -> (CpuState, Result<u16, Fault>) {
        if !self.can_fetch() {
            (self, Err(Fault::FetchOutOfRange))
        } else {
            match load_u16(self.mem, self.fetch_addr()) {
                Ok(word) => (self.with_pc((self.pc + 2) as u32).counted(), Ok(word)),
                Err(fault) => (self, Err(fault)),
            }
        }
    }

    /// The byte at `addr`.
    pub open spec fn load_b(self, addr: u32) -> Result<u8, Fault> {
        load_u8(self.mem, addr)
    }

    /// The half-word at `addr`.
    pub open spec fn load_w(self, addr: u32) -> Result<u16, Fault> {
        load_u16(self.mem, addr)
    }

    /// The word at `addr`.
    pub open spec fn load_l(self, addr: u32) -> Result<u32, Fault> {
        load_u32(self.mem, addr)
    }

    /// The state after a byte was stored, or the state as it was with the
    /// fault.
    pub open spec fn store_b(self, addr: u32, value: u8) -> (CpuState, Result<(), Fault>) {
        match store_u8(self.mem, addr, value) {
            Ok(mem) => (self.with_mem(mem), Ok(())),
            Err(fault) => (self, Err(fault)),
        }
    }

    /// The state after a half-word was stored, or the state as it was with
    /// the fault.
    pub open spec fn store_w(self, addr: u32, value: u16) -> (CpuState, Result<(), Fault>) {
        match store_u16(self.mem, addr, value) {
            Ok(mem) => (self.with_mem(mem), Ok(())),
            Err(fault) => (self, Err(fault)),
        }
    }

    /// The state after a word was stored, or the state as it was with the
    /// fault.
    pub open spec fn store_l(self, addr: u32, value: u32) -> (CpuState, Result<(), Fault>) {
        match store_u32(self.mem, addr, value) {
            Ok(mem) => (self.with_mem(mem), Ok(())),
            Err(fault) => (self, Err(fault)),
        }
    }
}

} // verus!
