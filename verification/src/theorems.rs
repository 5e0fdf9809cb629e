//! What is proved of the model: how the views of a register overlap, what
//! a store leaves in memory, which condition codes an instruction may
//! change, how far it moves the program counter and how long it takes.

pub mod execution;
pub mod flags;
pub mod memory;
pub mod registers;
