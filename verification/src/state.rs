//! State counts: what the cycles of an instruction cost.

use vstd::prelude::*;
use crate::bus::{class_of, classify, AddressClass};
use crate::cpu::Cpu;

verus! {

/// The six kinds of cycle that an instruction is made of.
#[derive(Clone, Copy, Debug, PartialEq, Eq, Structural)]
pub enum StateType {
    /// Instruction fetch.
    I,
    /// Branch address read.
    J,
    /// Stack operation.
    K,
    /// Byte data access.
    L,
    /// Word data access.
    M,
    /// Internal operation.
    N,
}

/// States that one cycle of the given kind takes where nothing waits.
pub open spec fn state_cost(kind: StateType) -> int {
    match kind {
        StateType::N => 1,
        _ => 2,
    }
}

/// States that an access waits for in a region of the given class.
pub open spec fn wait_cost(class: Option<AddressClass>) -> int {
    match class {
        Some(AddressClass::Peripheral8) => 1,
        _ => 0,
    }
}

/// States of `count` cycles of one kind.
pub open spec fn states(kind: StateType, count: u8) -> usize {
    (count * state_cost(kind)) as usize
}

/// States of `count` cycles of one kind that go to `addr`: one more than
/// elsewhere where `addr` lies on the 8-bit peripheral bus.
pub open spec fn states_at(kind: StateType, count: u8, addr: u32) -> usize {
    (count * state_cost(kind) + wait_cost(class_of(addr as int))) as usize
}

impl Cpu {
    /// States of `state` cycles of one kind.
    pub fn calc_state(state_type: StateType, state: u8) -> (r: usize)
        ensures
            r == states(state_type, state),
    {
        match state_type {
            StateType::N => state as usize,
            _ => 2 * (state as usize),
        }
    }

    /// States of `state` cycles of one kind that go to `addr`.
    pub fn calc_state_with_addr(state_type: StateType, state: u8, addr: u32) -> (r: usize)
        ensures
            r == states_at(state_type, state, addr),
    {
        let wait: usize = match classify(addr) {
            Some(AddressClass::Peripheral8) => 1,
            _ => 0,
        };
        Cpu::calc_state(state_type, state) + wait
    }
}

} // verus!
