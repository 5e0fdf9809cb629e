//! The bus: a 24-bit address space in which five regions answer, each a
//! run of plain bytes. Half-words and words lie big-endian.

use vstd::prelude::*;
use crate::bits::{lemma_join_u16, lemma_join_u32, lemma_split_u16, lemma_split_u32};
use crate::error::Fault;

verus! {

/// First byte of program memory; execution starts here.
pub const MEMORY_START_ADDR: u32 = 0x40_0000;

/// Last byte of program memory.
pub const MEMORY_END_ADDR: u32 = 0x5f_ffff;

/// First byte of the on-chip ROM.
pub const ROM_START_ADDR: u32 = 0x00_0000;

/// Last byte of the on-chip ROM.
pub const ROM_END_ADDR: u32 = 0x07_ffff;

/// First byte of the peripheral registers on the 16-bit bus.
pub const IO16_START_ADDR: u32 = 0xfe_e000;

/// Last byte of the peripheral registers on the 16-bit bus.
pub const IO16_END_ADDR: u32 = 0xfe_e0ff;

/// First byte of the on-chip RAM.
pub const RAM_START_ADDR: u32 = 0xff_bf20;

/// Last byte of the on-chip RAM.
pub const RAM_END_ADDR: u32 = 0xff_ff1f;

/// First byte of the peripheral registers on the 8-bit bus.
pub const IO8_START_ADDR: u32 = 0xff_ff20;

/// Last byte of the peripheral registers on the 8-bit bus.
pub const IO8_END_ADDR: u32 = 0xff_ffe9;

/// The kinds of region that the address space is made of. An access to
/// the peripheral registers on the 8-bit bus waits one state; no other
/// region makes an access wait.
#[derive(Clone, Copy, Debug, PartialEq, Eq, Structural)]
pub enum AddressClass {
    InternalRom,
    External,
    Peripheral16,
    InternalRam,
    Peripheral8,
}

/// The region that answers at `addr`, if any does.
pub open spec fn class_of(addr: int) -> Option<AddressClass> {
    if ROM_START_ADDR <= addr <= ROM_END_ADDR {
        Some(AddressClass::InternalRom)
    } else if MEMORY_START_ADDR <= addr <= MEMORY_END_ADDR {
        Some(AddressClass::External)
    } else if IO16_START_ADDR <= addr <= IO16_END_ADDR {
        Some(AddressClass::Peripheral16)
    } else if RAM_START_ADDR <= addr <= RAM_END_ADDR {
        Some(AddressClass::InternalRam)
    } else if IO8_START_ADDR <= addr <= IO8_END_ADDR {
        Some(AddressClass::Peripheral8)
    } else {
        None
    }
}

/// First address of a region.
pub open spec fn base_of(class: AddressClass) -> int {
    match class {
        AddressClass::InternalRom => ROM_START_ADDR as int,
        AddressClass::External => MEMORY_START_ADDR as int,
        AddressClass::Peripheral16 => IO16_START_ADDR as int,
        AddressClass::InternalRam => RAM_START_ADDR as int,
        AddressClass::Peripheral8 => IO8_START_ADDR as int,
    }
}

/// Number of bytes in a region.
pub open spec fn size_of(class: AddressClass) -> int {
    match class {
        AddressClass::InternalRom => ROM_END_ADDR - ROM_START_ADDR + 1,
        AddressClass::External => MEMORY_END_ADDR - MEMORY_START_ADDR + 1,
        AddressClass::Peripheral16 => IO16_END_ADDR - IO16_START_ADDR + 1,
        AddressClass::InternalRam => RAM_END_ADDR - RAM_START_ADDR + 1,
        AddressClass::Peripheral8 => IO8_END_ADDR - IO8_START_ADDR + 1,
    }
}

/// The region that answers at `addr`, if any does.
pub fn classify(addr: u32) -> (r: Option<AddressClass>)
    ensures
        r == class_of(addr as int),
{
    if addr <= ROM_END_ADDR {
        Some(AddressClass::InternalRom)
    } else if MEMORY_START_ADDR <= addr && addr <= MEMORY_END_ADDR {
        Some(AddressClass::External)
    } else if IO16_START_ADDR <= addr && addr <= IO16_END_ADDR {
        Some(AddressClass::Peripheral16)
    } else if RAM_START_ADDR <= addr && addr <= RAM_END_ADDR {
        Some(AddressClass::InternalRam)
    } else if IO8_START_ADDR <= addr && addr <= IO8_END_ADDR {
        Some(AddressClass::Peripheral8)
    } else {
        None
    }
}

/// Whether a region answers at `addr`.
pub open spec fn mapped(addr: int) -> bool {
    class_of(addr) is Some
}

/// Memory in which every byte that a region answers for is zero.
pub open spec fn blank_memory() -> Map<int, u8> {
    Map::new(|a: int| mapped(a), |a: int| 0u8)
}

/// Memory after the bytes of `image` were stored from `addr` upwards.
pub open spec fn store_image(mem: Map<int, u8>, addr: u32, image: Seq<u8>) -> Result<
    Map<int, u8>,
    Fault,
> {
    if forall|a: int| addr <= a < addr + image.len() ==> #[trigger] mem.dom().contains(a) {
        Ok(
            Map::new(
                |a: int| mem.dom().contains(a),
                |a: int|
                    if addr <= a < addr + image.len() {
                        image[a - addr]
                    } else {
                        mem[a]
                    },
            ),
        )
    } else {
        Err(Fault::BusAccessError { addr })
    }
}

/// The byte at `addr`, or the fault that an access there ends in.
pub open spec fn load_u8(mem: Map<int, u8>, addr: u32) -> Result<u8, Fault> {
    if mem.dom().contains(addr as int) {
        Ok(mem[addr as int])
    } else {
        Err(Fault::BusAccessError { addr })
    }
}

/// The big-endian half-word at `addr` and `addr + 1`.
pub open spec fn load_u16(mem: Map<int, u8>, addr: u32) -> Result<u16, Fault> {
    if mem.dom().contains(addr as int) && mem.dom().contains(addr + 1) {
        Ok((mem[addr as int] * 0x100 + mem[addr + 1]) as u16)
    } else {
        Err(Fault::BusAccessError { addr })
    }
}

/// The big-endian word at `addr` to `addr + 3`.
pub open spec fn load_u32(mem: Map<int, u8>, addr: u32) -> Result<u32, Fault> {
    if mem.dom().contains(addr as int) && mem.dom().contains(addr + 1) && mem.dom().contains(
        addr + 2,
    ) && mem.dom().contains(addr + 3) {
        Ok(
            (mem[addr as int] * 0x100_0000 + mem[addr + 1] * 0x1_0000 + mem[addr + 2] * 0x100
                + mem[addr + 3]) as u32,
        )
    } else {
        Err(Fault::BusAccessError { addr })
    }
}

/// Memory after a byte was stored at `addr`.
pub open spec fn store_u8(mem: Map<int, u8>, addr: u32, value: u8) -> Result<Map<int, u8>, Fault> {
    if mem.dom().contains(addr as int) {
        Ok(mem.insert(addr as int, value))
    } else {
        Err(Fault::BusAccessError { addr })
    }
}

/// Memory after a half-word was stored big-endian at `addr` and `addr + 1`.
pub open spec fn store_u16(mem: Map<int, u8>, addr: u32, value: u16) -> Result<
    Map<int, u8>,
    Fault,
> {
    if mem.dom().contains(addr as int) && mem.dom().contains(addr + 1) {
        Ok(mem.insert(addr as int, (value / 0x100) as u8).insert(addr + 1, (value % 0x100) as u8))
    } else {
        Err(Fault::BusAccessError { addr })
    }
}

/// Memory after a word was stored big-endian at `addr` to `addr + 3`.
pub open spec fn store_u32(mem: Map<int, u8>, addr: u32, value: u32) -> Result<
    Map<int, u8>,
    Fault,
> {
    if mem.dom().contains(addr as int) && mem.dom().contains(addr + 1) && mem.dom().contains(
        addr + 2,
    ) && mem.dom().contains(addr + 3) {
        Ok(
            mem.insert(addr as int, (value / 0x100_0000) as u8).insert(
                addr + 1,
                (value / 0x1_0000 % 0x100) as u8,
            ).insert(addr + 2, (value / 0x100 % 0x100) as u8).insert(
                addr + 3,
                (value % 0x100) as u8,
            ),
        )
    } else {
        Err(Fault::BusAccessError { addr })
    }
}

/// The memory that the processor sees: five regions of plain bytes, each
/// of which can be read and written, and nothing between them.
pub struct Bus {
    rom: Vec<u8>,
    external: Vec<u8>,
    io16: Vec<u8>,
    ram: Vec<u8>,
    io8: Vec<u8>,
}

impl Bus {
    #[verifier::type_invariant]
    spec fn inv(self) -> bool {
        &&& self.rom@.len() == size_of(AddressClass::InternalRom)
        &&& self.external@.len() == size_of(AddressClass::External)
        &&& self.io16@.len() == size_of(AddressClass::Peripheral16)
        &&& self.ram@.len() == size_of(AddressClass::InternalRam)
        &&& self.io8@.len() == size_of(AddressClass::Peripheral8)
    }

    spec fn cells(self, class: AddressClass) -> Seq<u8> {
        match class {
            AddressClass::InternalRom => self.rom@,
            AddressClass::External => self.external@,
            AddressClass::Peripheral16 => self.io16@,
            AddressClass::InternalRam => self.ram@,
            AddressClass::Peripheral8 => self.io8@,
        }
    }

    /// The byte that the bus holds at `addr`; zero where no region answers.
    pub closed spec fn byte_at(self, addr: int) -> u8 {
        match class_of(addr) {
            Some(class) => self.cells(class)[addr - base_of(class)],
            None => 0,
        }
    }

    /// The bus as a map from each address that a region answers at to the
    /// byte held there.
    pub open spec fn view(&self) -> Map<int, u8> {
        Map::new(|a: int| mapped(a), |a: int| self.byte_at(a))
    }

    /// A bus whose every byte is zero.
    pub fn new() -> (bus: Bus)
        ensures
            bus@ == blank_memory(),
    {
        let bus = Bus {
            rom: vec![0u8; 0x8_0000],
            external: vec![0u8; 0x20_0000],
            io16: vec![0u8; 0x100],
            ram: vec![0u8; 0x4000],
            io8: vec![0u8; 0xca],
        };
        assert(bus@ =~= blank_memory());
        bus
    }

    /// Reads the byte at `addr`.
    pub fn read_u8(&self, addr: u32) -> (r: Result<u8, Fault>)
        ensures
            r == load_u8(self@, addr),
    {
        proof {
            use_type_invariant(self);
        }
        match classify(addr) {
            Some(AddressClass::InternalRom) => Ok(self.rom[(addr - ROM_START_ADDR) as usize]),
            Some(AddressClass::External) => Ok(
                self.external[(addr - MEMORY_START_ADDR) as usize],
            ),
            Some(AddressClass::Peripheral16) => Ok(self.io16[(addr - IO16_START_ADDR) as usize]),
            Some(AddressClass::InternalRam) => Ok(self.ram[(addr - RAM_START_ADDR) as usize]),
            Some(AddressClass::Peripheral8) => Ok(self.io8[(addr - IO8_START_ADDR) as usize]),
            None => Err(Fault::BusAccessError { addr }),
        }
    }

    /// Stores a byte at `addr`.
    pub fn write_u8(&mut self, addr: u32, value: u8) -> (r: Result<(), Fault>)
        ensures
            match store_u8(old(self)@, addr, value) {
                Ok(mem) => r == Ok::<(), Fault>(()) && final(self)@ == mem,
                Err(fault) => r == Err::<(), Fault>(fault) && final(self)@ == old(self)@,
            },
    {
        proof {
            use_type_invariant(&*self);
        }
        match classify(addr) {
            Some(AddressClass::InternalRom) => {
                self.rom[(addr - ROM_START_ADDR) as usize] = value;
            },
            Some(AddressClass::External) => {
                self.external[(addr - MEMORY_START_ADDR) as usize] = value;
            },
            Some(AddressClass::Peripheral16) => {
                self.io16[(addr - IO16_START_ADDR) as usize] = value;
            },
            Some(AddressClass::InternalRam) => {
                self.ram[(addr - RAM_START_ADDR) as usize] = value;
            },
            Some(AddressClass::Peripheral8) => {
                self.io8[(addr - IO8_START_ADDR) as usize] = value;
            },
            None => {
                return Err(Fault::BusAccessError { addr });
            },
        }
        assert(self@ =~= old(self)@.insert(addr as int, value));
        Ok(())
    }

    /// Reads the big-endian half-word at `addr`.
    pub fn read_u16(&self, addr: u32) -> (r: Result<u16, Fault>)
        ensures
            r == load_u16(self@, addr),
    {
        if classify(addr).is_none() || classify(addr + 1).is_none() {
            return Err(Fault::BusAccessError { addr });
        }
        match (self.read_u8(addr), self.read_u8(addr + 1)) {
            (Ok(hi), Ok(lo)) => {
                proof {
                    lemma_join_u16(hi, lo);
                }
                Ok(((hi as u16) << 8) | (lo as u16))
            },
            _ => Err(Fault::BusAccessError { addr }),
        }
    }

    /// Reads the big-endian word at `addr`.
    pub fn read_u32(&self, addr: u32) -> (r: Result<u32, Fault>)
        ensures
            r == load_u32(self@, addr),
    {
        if classify(addr).is_none() || classify(addr + 1).is_none() || classify(addr + 2).is_none()
            || classify(addr + 3).is_none() {
            return Err(Fault::BusAccessError { addr });
        }
        match (self.read_u16(addr), self.read_u16(addr + 2)) {
            (Ok(hi), Ok(lo)) => {
                proof {
                    lemma_join_u32(hi, lo);
                }
                Ok(((hi as u32) << 16) | (lo as u32))
            },
            _ => Err(Fault::BusAccessError { addr }),
        }
    }

    /// Stores a half-word big-endian at `addr`; nothing is stored unless both
    /// bytes can be.
    pub fn write_u16(&mut self, addr: u32, value: u16) -> (r: Result<(), Fault>)
        ensures
            match store_u16(old(self)@, addr, value) {
                Ok(mem) => r == Ok::<(), Fault>(()) && final(self)@ == mem,
                Err(fault) => r == Err::<(), Fault>(fault) && final(self)@ == old(self)@,
            },
    {
        if classify(addr).is_none() || classify(addr + 1).is_none() {
            return Err(Fault::BusAccessError { addr });
        }
        proof {
            lemma_split_u16(value);
        }
        let hi: u8 = (value >> 8) as u8;
        let lo: u8 = (value & 0xff) as u8;
        let _ = self.write_u8(addr, hi);
        let _ = self.write_u8(addr + 1, lo);
        Ok(())
    }

    /// Stores a word big-endian at `addr`; nothing is stored unless all four
    /// bytes can be.
    pub fn write_u32(&mut self, addr: u32, value: u32) -> (r: Result<(), Fault>)
        ensures
            match store_u32(old(self)@, addr, value) {
                Ok(mem) => r == Ok::<(), Fault>(()) && final(self)@ == mem,
                Err(fault) => r == Err::<(), Fault>(fault) && final(self)@ == old(self)@,
            },
    {
        if classify(addr).is_none() || classify(addr + 1).is_none() || classify(addr + 2).is_none()
            || classify(addr + 3).is_none() {
            return Err(Fault::BusAccessError { addr });
        }
        proof {
            lemma_split_u32(value);
            lemma_split_u16((value >> 16) as u16);
            lemma_split_u16((value & 0xffff) as u16);
        }
        let hi: u16 = (value >> 16) as u16;
        let lo: u16 = (value & 0xffff) as u16;
        let _ = self.write_u16(addr, hi);
        let _ = self.write_u16(addr + 2, lo);
        Ok(())
    }

    /// Copies `image` into memory from `addr` upwards; nothing is stored
    /// unless every byte can be.
    pub fn load(&mut self, addr: u32, image: &[u8]) -> (r: Result<(), Fault>)
        ensures
            match store_image(old(self)@, addr, image@) {
                Ok(mem) => r == Ok::<(), Fault>(()) && final(self)@ == mem,
                Err(fault) => r == Err::<(), Fault>(fault) && final(self)@ == old(self)@,
            },
    {
        let n = image.len();
        let mut i: usize = 0;
        while i < n
            invariant
                0 <= i <= n,
                n == image@.len(),
                forall|a: int| addr <= a < addr + i ==> #[trigger] mapped(a),
            decreases n - i,
        {
            if i > 0xff_ffff || addr > 0xff_ffff - (i as u32) || classify(
                addr + (i as u32),
            ).is_none() {
                assert(!mapped(addr + i));
                assert(!old(self)@.dom().contains(addr + i));
                return Err(Fault::BusAccessError { addr });
            }
            i += 1;
        }
        let mut j: usize = 0;
        while j < n
            invariant
                0 <= j <= n,
                n == image@.len(),
                forall|a: int| addr <= a < addr + n ==> #[trigger] mapped(a),
                self@.dom() == old(self)@.dom(),
                forall|a: int| #[trigger]
                    mapped(a) ==> self@[a] == if addr <= a < addr + j {
                        image@[a - addr]
                    } else {
                        old(self)@[a]
                    },
            decreases n - j,
        {
            assert(mapped(addr + j));
            let _ = self.write_u8(addr + (j as u32), image[j]);
            j += 1;
        }
        assert(self@ =~= store_image(old(self)@, addr, image@)->Ok_0);
        Ok(())
    }
}

} // verus!
