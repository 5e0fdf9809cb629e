//! The processor: the registers, the condition codes, the program counter
//! and the fetch of instruction words.

use vstd::prelude::*;
use crate::bits::{
    lemma_bit_set_clear, lemma_clear_low_bit, lemma_low3, lemma_nibbles, lemma_split_u16,
};
use crate::bus::{blank_memory, Bus, MEMORY_END_ADDR, MEMORY_START_ADDR};
use crate::error::Fault;
use crate::model::{high_byte, low3, low_byte, nibble, CpuState};
use crate::theorems::flags::lemma_flag_after_with_flag;

pub mod addressing_mode;
pub mod exec;
pub mod instruction;

verus! {

/// The processor: its registers and the bus it owns.
pub struct Cpu {
    pub bus: Bus,
    pub pc: u32,
    pub ccr: u8,
    pub er: [u32; 8],
    /// Where the program ends: the run is over when the program counter
    /// gets here.
    pub exit_addr: u32,
    /// Instruction words fetched since reset; the count goes around at 64
    /// bits.
    pub fetched: u64,
}

/// The bits of the condition-code register, from bit 7 down to bit 0.
#[derive(Clone, Copy, Debug, PartialEq, Eq, Structural)]
pub enum CCR {
    I,
    U,
    H,
    U2,
    N,
    Z,
    V,
    C,
}

impl CCR {
    /// Position of the bit in the register.
    pub open spec fn bit(self) -> u8 {
        match self {
            CCR::I => 7,
            CCR::U => 6,
            CCR::H => 5,
            CCR::U2 => 4,
            CCR::N => 3,
            CCR::Z => 2,
            CCR::V => 1,
            CCR::C => 0,
        }
    }

    /// Position of the bit in the register.
    pub fn position(self) -> (b: u8)
        ensures
            b == self.bit(),
    {
        match self {
            CCR::I => 7,
            CCR::U => 6,
            CCR::H => 5,
            CCR::U2 => 4,
            CCR::N => 3,
            CCR::Z => 2,
            CCR::V => 1,
            CCR::C => 0,
        }
    }
}

impl Cpu {
    /// The architectural state that the processor is in.
    pub open spec fn view(&self) -> CpuState {
        CpuState {
            pc: self.pc,
            ccr: self.ccr,
            er: self.er@,
            mem: self.bus@,
            exit_addr: self.exit_addr,
            fetched: self.fetched,
        }
    }

    /// The state of a processor has eight registers.
    pub proof fn lemma_view_wf(&self)
        ensures
            self@.wf(),
    {
    }

    /// The state after reset: the program counter at the start of program
    /// memory, everything else zero.
    pub open spec fn reset_state() -> CpuState {
        CpuState {
            pc: MEMORY_START_ADDR,
            ccr: 0,
            er: Seq::new(8, |i: int| 0u32),
            mem: blank_memory(),
            exit_addr: 0,
            fetched: 0,
        }
    }

    /// A processor after reset, with a bus of its own.
    pub fn new() -> (cpu: Cpu)
        ensures
            cpu@ == Self::reset_state(),
    {
        let cpu = Cpu {
            bus: Bus::new(),
            pc: MEMORY_START_ADDR,
            ccr: 0,
            er: [0; 8],
            exit_addr: 0,
            fetched: 0,
        };
        assert(cpu.er@ =~= Seq::new(8, |i: int| 0u32));
        cpu
    }

    /// Reads the word at the program counter, moves the counter past it and
    /// counts the word.
    pub fn fetch(&mut self) -> (r: Result<u16, Fault>)
        ensures
            (final(self)@, r) == old(self)@.fetch(),
    {
        let addr: u32 = self.pc & !1u32;
        proof {
            lemma_clear_low_bit(self.pc);
        }
        if addr < MEMORY_START_ADDR || addr > MEMORY_END_ADDR {
            return Err(Fault::FetchOutOfRange);
        }
        let word = self.bus.read_u16(addr)?;
        self.pc = self.pc + 2;
        self.fetched = if self.fetched == u64::MAX {
            0
        } else {
            self.fetched + 1
        };
        Ok(word)
    }

    /// Sets one bit of the condition-code register to `val`, which is 0 or 1.
    pub fn write_ccr(&mut self, target: CCR, val: u8)
        requires
            val <= 1,
        ensures
            final(self)@ == old(self)@.with_flag(target, val == 1),
            final(self)@.flag(target) == (val == 1),
            forall|other: CCR|
                other != target ==> #[trigger] final(self)@.flag(other) == old(self)@.flag(other),
    {
        proof {
            let on = val == 1;
            let after = old(self)@.with_flag(target, on);
            assert forall|other: CCR| #[trigger]
                after.flag(other) == (if other == target {
                    on
                } else {
                    old(self)@.flag(other)
                }) by {
                lemma_flag_after_with_flag(old(self)@, target, on, other);
            }
        }
        let bit: u8 = target.position();
        if val == 0 {
            self.ccr = self.ccr & !(1u8 << bit);
        } else {
            self.ccr = self.ccr | (1u8 << bit);
        }
    }

    /// Reads one bit of the condition-code register: 0 or 1.
    pub fn read_ccr(&self, target: CCR) -> (val: u8)
        ensures
            val == if self@.flag(target) { 1u8 } else { 0u8 },
    {
        let bit: u8 = target.position();
        let val: u8 = (self.ccr >> bit) & 1;
        proof {
            lemma_bit_set_clear(self.ccr, bit, bit);
        }
        val
    }

    /// Nibble `position` of an opcode word, counted from 1 at the top to 4
    /// at the bottom.
    pub fn get_nibble_opcode(opcode: u16, position: u8) -> (r: Result<u8, Fault>)
        ensures
            r == if 1 <= position <= 4 {
                Ok::<u8, Fault>(nibble(opcode, position))
            } else {
                Err::<u8, Fault>(Fault::InvalidRegisterField { field: position })
            },
    {
        proof {
            lemma_nibbles(opcode);
        }
        match position {
            1 => Ok((opcode >> 12) as u8),
            2 => Ok(((opcode >> 8) & 0xf) as u8),
            3 => Ok(((opcode >> 4) & 0xf) as u8),
            4 => Ok((opcode & 0xf) as u8),
            _ => Err(Fault::InvalidRegisterField { field: position }),
        }
    }

    /// The low three bits of a field.
    pub fn field_low3(field: u8) -> (b: u8)
        ensures
            b == low3(field),
    {
        proof {
            lemma_low3(field);
        }
        field & 0x7
    }

    /// Upper byte of an opcode word.
    pub fn opcode_high(opcode: u16) -> (b: u8)
        ensures
            b == high_byte(opcode),
    {
        proof {
            lemma_split_u16(opcode);
        }
        (opcode >> 8) as u8
    }

    /// Lower byte of an opcode word.
    pub fn opcode_low(opcode: u16) -> (b: u8)
        ensures
            b == low_byte(opcode),
    {
        proof {
            lemma_split_u16(opcode);
        }
        (opcode & 0xff) as u8
    }
}

} // verus!
