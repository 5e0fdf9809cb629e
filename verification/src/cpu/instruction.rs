//! The instructions, one file for each.

pub mod add_b;
pub mod add_l;
pub mod add_w;
pub mod adds;
pub mod arith;
pub mod band;
pub mod bcc;
pub mod bclr;
pub mod bild;
pub mod bnot;
pub mod bsr;
pub mod bst;
pub mod cmp_l;
pub mod cmp_w;
pub mod jmp;
pub mod jsr;
pub mod mov_l;
pub mod mov_w;
pub mod shal;
pub mod shll;
pub mod sub_l;
