//! Running a program one window of states at a time.

use vstd::prelude::*;
use crate::bus::MEMORY_END_ADDR;
use crate::cpu::Cpu;
use crate::error::CpuError;
use crate::model::CpuState;
use crate::pacer::WINDOW_STATES;
use crate::theorems::execution::lemma_step_takes_states;

verus! {

/// Where the stack begins: fifteen bytes below the end of program memory.
pub const STACK_START_ADDR: u32 = MEMORY_END_ADDR - 0xf;

/// Whether the processor goes on or has reached the exit address.
#[derive(Clone, Copy, Debug, PartialEq, Eq, Structural)]
pub enum RunState {
    Running,
    Halted,
}

/// How a window of the run ended, and the states that it took.
#[derive(Clone, Copy, Debug, PartialEq, Eq, Structural)]
pub struct Progress {
    pub state: RunState,
    pub states: usize,
}

impl CpuState {
    /// The rest of a window in which `done` states have been taken:
    /// instructions one after the other until one leaves the program
    /// counter at the exit address, one fills the window, or one fails.
    pub open spec fn run_window(self, done: int) -> (CpuState, Result<Progress, CpuError>)
        decreases WINDOW_STATES - done,
    {
        match self.step() {
            (next, Ok(states)) => {
                let total = done + states;
                if next.halted() {
                    (next, Ok(Progress { state: RunState::Halted, states: total as usize }))
                } else if total >= WINDOW_STATES {
                    (next, Ok(Progress { state: RunState::Running, states: total as usize }))
                } else {
                    proof {
                        lemma_step_takes_states(self);
                    }
                    next.run_window(total)
                }
            },
            (failed, Err(error)) => (failed, Err(error)),
        }
    }
}

impl Cpu {
    /// Points ER7 to the start of the stack.
    pub fn reset_stack(&mut self)
        ensures
            final(self)@ == old(self)@.with_rn_l(7, STACK_START_ADDR),
    {
        self.er[7] = STACK_START_ADDR;
    }

    /// Runs instructions until one leaves the program counter at the exit
    /// address, the window is full, or one fails.
    pub fn run_window(&mut self) -> (r: Result<Progress, CpuError>)
        ensures
            (final(self)@, r) == old(self)@.run_window(0),
    {
        let mut done: usize = 0;
        loop
            invariant
                done < WINDOW_STATES,
                self@.run_window(done as int) == old(self)@.run_window(0),
            decreases WINDOW_STATES - done,
        {
            proof {
                lemma_step_takes_states(self@);
            }
            let states = self.step()?;
            done = done + states;
            if self.is_halted() {
                return Ok(Progress { state: RunState::Halted, states: done });
            }
            if done >= WINDOW_STATES {
                return Ok(Progress { state: RunState::Running, states: done });
            }
        }
    }
}

} // verus!
