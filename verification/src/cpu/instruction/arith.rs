use vstd::prelude::*;
use crate::cpu::{Cpu, CCR};
use crate::model::{add_flags, sub_flags, Flags, Size};
use crate::theorems::flags::lemma_flags_read_back;

verus! {

/// `dest + src` as it comes out at the given width.
pub open spec fn add_result(size: Size, dest: int, src: int) -> int {
    (dest + src) % size.modulus()
}

/// `dest - src` as it comes out at the given width.
pub open spec fn sub_result(size: Size, dest: int, src: int) -> int {
    (dest - src) % size.modulus()
}

/// Condition codes of a 16-bit subtraction.
pub open spec fn sub_w_flags(dest: u16, src: u16) -> Flags {
    sub_flags(Size::Word, dest as int, src as int)
}

/// Difference of a 16-bit subtraction.
pub open spec fn sub_w_result(dest: u16, src: u16) -> u16 {
    sub_result(Size::Word, dest as int, src as int) as u16
}

impl Size {
    /// Weight of the most significant bit.
    pub fn half_value(self) -> (m: u32)
        ensures
            m == self.half(),
    {
        match self {
            Size::Byte => 0x80,
            Size::Word => 0x8000,
            Size::Long => 0x8000_0000,
        }
    }

    /// Weight of the lowest bit of the top nibble.
    pub fn top_nibble_value(self) -> (m: u32)
        ensures
            m == self.top_nibble(),
    {
        match self {
            Size::Byte => 0x10,
            Size::Word => 0x1000,
            Size::Long => 0x1000_0000,
        }
    }

    /// The bits of `value` below the top nibble.
    pub fn below_top_nibble(self, value: u32) -> (low: u32)
        ensures
            low == (value as int) % self.top_nibble(),
    {
        match self {
            Size::Byte => value % 0x10,
            Size::Word => value % 0x1000,
            Size::Long => value % 0x1000_0000,
        }
    }

    /// `dest + src` as it comes out at this width: the sum, less two to the
    /// width where it does not fit.
    pub(crate) fn sum(self, dest: u32, src: u32) -> (result: u32)
        requires
            dest < self.modulus(),
            src < self.modulus(),
        ensures
            result == add_result(self, dest as int, src as int),
            result == if dest + src >= self.modulus() {
                dest + src - self.modulus()
            } else {
                dest + src
            },
    {
        let sum: u64 = dest as u64 + src as u64;
        match self {
            Size::Byte => (sum % 0x100) as u32,
            Size::Word => (sum % 0x1_0000) as u32,
            Size::Long => (sum % 0x1_0000_0000) as u32,
        }
    }

    /// `dest - src` as it comes out at this width: the difference, plus two
    /// to the width where it is negative.
    pub(crate) fn difference(self, dest: u32, src: u32) -> (result: u32)
        requires
            dest < self.modulus(),
            src < self.modulus(),
        ensures
            result == sub_result(self, dest as int, src as int),
            result == if dest < src {
                dest - src + self.modulus()
            } else {
                dest - src
            },
    {
        let raised: u64 = dest as u64 + 0x1_0000_0000 - src as u64;
        match self {
            Size::Byte => (raised % 0x100) as u32,
            Size::Word => (raised % 0x1_0000) as u32,
            Size::Long => (raised % 0x1_0000_0000) as u32,
        }
    }

    /// Whether `value`, which fits the width, has its top bit set.
    pub fn is_negative(self, value: u32) -> (negative: bool)
        ensures
            negative == (value >= self.half()),
    {
        value >= self.half_value()
    }

    /// Condition codes of `dest + src` at this width.
    pub(crate) fn codes_of_sum(self, dest: u32, src: u32) -> (flags: Flags)
        requires
            dest < self.modulus(),
            src < self.modulus(),
        ensures
            flags == add_flags(self, dest as int, src as int),
    {
        reveal(add_flags);
        let result = self.sum(dest, src);
        let nibble = self.top_nibble_value();
        let negative = self.is_negative(result);
        let carry = result < dest;
        Flags {
            h: self.below_top_nibble(dest) as u64 + self.below_top_nibble(src) as u64
                >= nibble as u64,
            n: negative,
            z: result == 0,
            v: self.is_negative(dest) == self.is_negative(src) && negative != self.is_negative(
                dest,
            ),
            c: carry,
        }
    }

    /// Condition codes of `dest - src` at this width.
    pub(crate) fn codes_of_difference(self, dest: u32, src: u32) -> (flags: Flags)
        requires
            dest < self.modulus(),
            src < self.modulus(),
        ensures
            flags == sub_flags(self, dest as int, src as int),
    {
        reveal(sub_flags);
        let result = self.difference(dest, src);
        let negative = self.is_negative(result);
        Flags {
            h: self.below_top_nibble(dest) < self.below_top_nibble(src),
            n: negative,
            z: result == 0,
            v: self.is_negative(dest) != self.is_negative(src) && negative != self.is_negative(
                dest,
            ),
            c: dest < src,
        }
    }
}

impl Cpu {
    /// Sets or clears one bit of the condition-code register.
    pub fn set_flag(&mut self, target: CCR, on: bool)
        ensures
            final(self)@ == old(self)@.with_flag(target, on),
    {
        if on {
            self.write_ccr(target, 1);
        } else {
            self.write_ccr(target, 0);
        }
    }

    /// Replaces H, N, Z, V and C.
    pub fn set_flags(&mut self, flags: Flags)
        ensures
            final(self)@ == old(self)@.with_flags(flags),
            final(self)@.flags() == flags,
    {
        proof {
            lemma_flags_read_back(self@, flags);
        }
        self.set_flag(CCR::H, flags.h);
        self.set_flag(CCR::N, flags.n);
        self.set_flag(CCR::Z, flags.z);
        self.set_flag(CCR::V, flags.v);
        self.set_flag(CCR::C, flags.c);
    }

    /// Adds two operands of the given width, sets H, N, Z, V and C from the
    /// sum, and returns it.
    pub(crate) fn add_proc(&mut self, size: Size, dest: u32, src: u32) -> (result: u32)
        requires
            dest < size.modulus(),
            src < size.modulus(),
        ensures
            final(self)@ == old(self)@.with_flags(add_flags(size, dest as int, src as int)),
            final(self)@.flags() == add_flags(size, dest as int, src as int),
            result == add_result(size, dest as int, src as int),
    {
        self.set_flags(size.codes_of_sum(dest, src));
        size.sum(dest, src)
    }

    /// Subtracts `src` from `dest` at the given width, sets H, N, Z, V and C
    /// from the difference, and returns it.
    pub(crate) fn sub_proc(&mut self, size: Size, dest: u32, src: u32) -> (result: u32)
        requires
            dest < size.modulus(),
            src < size.modulus(),
        ensures
            final(self)@ == old(self)@.with_flags(sub_flags(size, dest as int, src as int)),
            final(self)@.flags() == sub_flags(size, dest as int, src as int),
            result == sub_result(size, dest as int, src as int),
    {
        self.set_flags(size.codes_of_difference(dest, src));
        size.difference(dest, src)
    }

    /// Subtracts `src` from `dest`, sets H, N, Z, V and C from the
    /// difference, and returns it.
    pub fn sub_w_proc(&mut self, dest: u16, src: u16) -> (result: u16)
        ensures
            final(self)@ == old(self)@.with_flags(sub_w_flags(dest, src)),
            final(self)@.flags() == sub_w_flags(dest, src),
            result == sub_w_result(dest, src),
    {
        self.sub_proc(Size::Word, dest as u32, src as u32) as u16
    }
}

} // verus!
