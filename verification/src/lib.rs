//! An emulator core for the H8/300H: the register file, the bus, the
//! addressing modes and the instructions, each with a contract over one
//! model of the architectural state.
//!
//! [`cpu::Cpu`] is the processor. [`model::CpuState`] is the state that the
//! contracts speak of, and says what every instruction does to it.
//! [`theorems`] holds what is proved of that model.

pub mod bits;
pub mod bus;
pub mod cpu;
pub mod error;
pub mod model;
pub mod pacer;
pub mod run;
pub mod state;
pub mod theorems;
