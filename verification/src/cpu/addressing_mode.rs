//! The addressing modes: where an operand lies, and the accesses of each
//! width there.

pub mod abs;
pub mod dec_ern;
pub mod disp;
pub mod ern;
pub mod inc_ern;
pub mod rn;
