//! What can stop an instruction.

use vstd::prelude::*;

verus! {

/// What stopped an instruction.
#[derive(Clone, Copy, Debug, PartialEq, Eq, Structural)]
pub enum Fault {
    /// The decoder has no handler for the opcode.
    UnimplementedOpcode,
    /// A register field names no register of the width that was asked for.
    InvalidRegisterField { field: u8 },
    /// An access touched an address that no region of the bus answers.
    /// `addr` is the first byte of the access.
    BusAccessError { addr: u32 },
    /// An effective address left the range of the host's 32-bit arithmetic
    /// before it could be masked to 24 bits.
    ArithmeticOverflow,
    /// The program counter points outside program memory.
    FetchOutOfRange,
}

/// A fault together with the instruction it happened in.
#[derive(Clone, Copy, Debug, PartialEq, Eq, Structural)]
pub struct CpuError {
    pub kind: Fault,
    /// Address of the instruction's first word.
    pub pc: u32,
    /// The instruction's first word; zero where that word itself could not
    /// be fetched.
    pub opcode: u16,
}

} // verus!
