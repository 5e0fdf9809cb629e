use vstd::prelude::*;
use crate::bits::{lemma_merge_u32, lemma_views_u32};
use crate::cpu::Cpu;
use crate::error::Fault;
use crate::theorems::registers::{lemma_byte_write_keeps_rest, lemma_word_write_keeps_rest};

verus! {

impl Cpu {
    /// Reads a byte register: R0H to R7H for fields 0 to 7, R0L to R7L for
    /// fields 8 to 15.
    pub fn read_rn_b(&self, register_field: u8) -> (r: Result<u8, Fault>)
        ensures
            r == self@.reg_b(register_field),
    {
        if register_field < 8 {
            let er: u32 = self.er[register_field as usize];
            proof {
                lemma_views_u32(er);
            }
            Ok(((er >> 8) & 0xff) as u8)
        } else if register_field < 16 {
            let er: u32 = self.er[(register_field - 8) as usize];
            proof {
                lemma_views_u32(er);
            }
            Ok((er & 0xff) as u8)
        } else {
            Err(Fault::InvalidRegisterField { field: register_field })
        }
    }

    /// Writes a byte register; the other three bytes of the extended
    /// register stay.
    pub fn write_rn_b(&mut self, register_field: u8, value: u8) -> (r: Result<(), Fault>)
        ensures
            (final(self)@, r) == old(self)@.set_reg_b(register_field, value),
            r is Ok ==> final(self)@.rn_b(register_field) == value,
    {
        proof {
            if register_field < 16 {
                lemma_byte_write_keeps_rest(self@, register_field, value);
            }
        }
        if register_field < 8 {
            let er: u32 = self.er[register_field as usize];
            proof {
                lemma_merge_u32(er, 0, value);
            }
            self.er[register_field as usize] = (er & 0xffff_00ff) | ((value as u32) << 8);
            Ok(())
        } else if register_field < 16 {
            let er: u32 = self.er[(register_field - 8) as usize];
            proof {
                lemma_merge_u32(er, 0, value);
            }
            self.er[(register_field - 8) as usize] = (er & 0xffff_ff00) | (value as u32);
            Ok(())
        } else {
            Err(Fault::InvalidRegisterField { field: register_field })
        }
    }

    /// Reads a word register: R0 to R7 for fields 0 to 7, E0 to E7 for
    /// fields 8 to 15.
    pub fn read_rn_w(&self, register_field: u8) -> (r: Result<u16, Fault>)
        ensures
            r == self@.reg_w(register_field),
    {
        if register_field < 8 {
            let er: u32 = self.er[register_field as usize];
            proof {
                lemma_views_u32(er);
            }
            Ok((er & 0xffff) as u16)
        } else if register_field < 16 {
            let er: u32 = self.er[(register_field - 8) as usize];
            proof {
                lemma_views_u32(er);
            }
            Ok((er >> 16) as u16)
        } else {
            Err(Fault::InvalidRegisterField { field: register_field })
        }
    }

    /// Writes a word register; the other half of the extended register
    /// stays.
    pub fn write_rn_w(&mut self, register_field: u8, value: u16) -> (r: Result<(), Fault>)
        ensures
            (final(self)@, r) == old(self)@.set_reg_w(register_field, value),
            r is Ok ==> final(self)@.rn_w(register_field) == value,
    {
        proof {
            if register_field < 16 {
                lemma_word_write_keeps_rest(self@, register_field, value);
            }
        }
        if register_field < 8 {
            let er: u32 = self.er[register_field as usize];
            proof {
                lemma_merge_u32(er, value, 0);
            }
            self.er[register_field as usize] = (er & 0xffff_0000) | (value as u32);
            Ok(())
        } else if register_field < 16 {
            let er: u32 = self.er[(register_field - 8) as usize];
            proof {
                lemma_merge_u32(er, value, 0);
            }
            self.er[(register_field - 8) as usize] = (er & 0x0000_ffff) | ((value as u32) << 16);
            Ok(())
        } else {
            Err(Fault::InvalidRegisterField { field: register_field })
        }
    }

    /// Reads an extended register; a field with bit 3 set names none.
    pub fn read_rn_l(&self, register_field: u8) -> (r: Result<u32, Fault>)
        ensures
            r == self@.reg_l(register_field),
    {
        if register_field < 8 {
            Ok(self.er[register_field as usize])
        } else {
            Err(Fault::InvalidRegisterField { field: register_field })
        }
    }

    /// Writes an extended register; a field with bit 3 set names none.
    pub fn write_rn_l(&mut self, register_field: u8, value: u32) -> (r: Result<(), Fault>)
        ensures
            (final(self)@, r) == old(self)@.set_reg_l(register_field, value),
            r is Ok ==> final(self)@.rn_l(register_field) == value,
    {
        if register_field < 8 {
            self.er[register_field as usize] = value;
            Ok(())
        } else {
            Err(Fault::InvalidRegisterField { field: register_field })
        }
    }
}

} // verus!
