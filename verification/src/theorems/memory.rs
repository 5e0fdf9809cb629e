//! Memory: what a store leaves, and how the stepping addressing modes and
//! the stack undo each other.

use vstd::prelude::*;
use crate::bits::lemma_bytes_spell;
use crate::bus::{load_u16, load_u32, load_u8, store_u16, store_u32, store_u8};
use crate::cpu::addressing_mode::ern::mask24;
use crate::error::Fault;
use crate::model::{CpuState, Size};

verus! {

/// A byte stored through `@-ERn` comes back through `@ERn+`, and ERn is
/// then what it was before the store.
#[verifier::spinoff_prover]
pub proof fn lemma_dec_then_inc_b(s: CpuState, r: u8, value: u8)
    requires
        s.wf(),
        s.store_dec_b(r, value).1 is Ok,
    ensures
        s.store_dec_b(r, value).0.load_inc_b(r).1 == Ok::<u8, Fault>(value),
        s.store_dec_b(r, value).0.load_inc_b(r).0.er == s.er,
        s.store_dec_b(r, value).0.load_inc_b(r).0.mem == s.store_dec_b(r, value).0.mem,
{
    let next = s.pre_decrement(r, Size::Byte)->Ok_0;
    lemma_load_after_store_u8(s.mem, mask24(next), value);
    let stored = s.store_dec_b(r, value).0;
    assert(stored.rn_l(r) == next);
    assert(stored.load_inc_b(r).0.er =~= s.er);
}

/// A half-word stored through `@-ERn` comes back through `@ERn+`, and ERn
/// is then what it was before the store.
#[verifier::spinoff_prover]
pub proof fn lemma_dec_then_inc_w(s: CpuState, r: u8, value: u16)
    requires
        s.wf(),
        s.store_dec_w(r, value).1 is Ok,
    ensures
        s.store_dec_w(r, value).0.load_inc_w(r).1 == Ok::<u16, Fault>(value),
        s.store_dec_w(r, value).0.load_inc_w(r).0.er == s.er,
        s.store_dec_w(r, value).0.load_inc_w(r).0.mem == s.store_dec_w(r, value).0.mem,
{
    let next = s.pre_decrement(r, Size::Word)->Ok_0;
    lemma_load_after_store_u16(s.mem, mask24(next), value);
    let stored = s.store_dec_w(r, value).0;
    assert(stored.rn_l(r) == next);
    assert(stored.load_inc_w(r).0.er =~= s.er);
}

/// A word stored through `@-ERn` comes back through `@ERn+`, and ERn is
/// then what it was before the store.
#[verifier::spinoff_prover]
pub proof fn lemma_dec_then_inc_l(s: CpuState, r: u8, value: u32)
    requires
        s.wf(),
        s.store_dec_l(r, value).1 is Ok,
    ensures
        s.store_dec_l(r, value).0.load_inc_l(r).1 == Ok::<u32, Fault>(value),
        s.store_dec_l(r, value).0.load_inc_l(r).0.er == s.er,
        s.store_dec_l(r, value).0.load_inc_l(r).0.mem == s.store_dec_l(r, value).0.mem,
{
    let next = s.pre_decrement(r, Size::Long)->Ok_0;
    lemma_load_after_store_u32(s.mem, mask24(next), value);
    let stored = s.store_dec_l(r, value).0;
    assert(stored.rn_l(r) == next);
    assert(stored.load_inc_l(r).0.er =~= s.er);
}

/// A byte that was stored is the byte that a load finds; a store changes no
/// other byte, and not the addresses that the bus answers at.
pub proof fn lemma_load_after_store_u8(mem: Map<int, u8>, addr: u32, value: u8)
    requires
        store_u8(mem, addr, value) is Ok,
    ensures
        load_u8(store_u8(mem, addr, value)->Ok_0, addr) == Ok::<u8, Fault>(value),
        store_u8(mem, addr, value)->Ok_0.dom() == mem.dom(),
        forall|a: int| a != addr ==> store_u8(mem, addr, value)->Ok_0[a] == mem[a],
{
    assert(store_u8(mem, addr, value)->Ok_0.dom() =~= mem.dom());
}

/// A half-word that was stored is the half-word that a load finds; a store
/// changes no byte but its two, and not the addresses that the bus answers
/// at.
#[verifier::spinoff_prover]
pub proof fn lemma_load_after_store_u16(mem: Map<int, u8>, addr: u32, value: u16)
    requires
        store_u16(mem, addr, value) is Ok,
    ensures
        load_u16(store_u16(mem, addr, value)->Ok_0, addr) == Ok::<u16, Fault>(value),
        store_u16(mem, addr, value)->Ok_0.dom() == mem.dom(),
        forall|a: int|
            !(addr <= a < addr + 2) ==> store_u16(mem, addr, value)->Ok_0[a] == mem[a],
{
    lemma_bytes_spell(value, 0);
    assert(store_u16(mem, addr, value)->Ok_0.dom() =~= mem.dom());
}

/// A word that was stored is the word that a load finds; a store changes
/// no byte but its four, and not the addresses that the bus answers at.
#[verifier::spinoff_prover]
pub proof fn lemma_load_after_store_u32(mem: Map<int, u8>, addr: u32, value: u32)
    requires
        store_u32(mem, addr, value) is Ok,
    ensures
        load_u32(store_u32(mem, addr, value)->Ok_0, addr) == Ok::<u32, Fault>(value),
        store_u32(mem, addr, value)->Ok_0.dom() == mem.dom(),
        forall|a: int|
            !(addr <= a < addr + 4) ==> store_u32(mem, addr, value)->Ok_0[a] == mem[a],
{
    lemma_bytes_spell(0, value);
    assert(store_u32(mem, addr, value)->Ok_0.dom() =~= mem.dom());
}

/// A return takes back what a call did: after the program counter was
/// pushed and replaced, RTS leaves the program counter at the address that
/// was pushed and ER7 where it was before the call.
#[verifier::spinoff_prover]
pub proof fn lemma_return_after_call(s: CpuState, target: u32)
    requires
        s.wf(),
        s.push_pc().1 is Ok,
    ensures
        s.push_pc().0.with_pc(target).rts().1 is Ok,
        s.push_pc().0.with_pc(target).rts().0.pc == mask24(s.pc),
        s.push_pc().0.with_pc(target).rts().0.er == s.er,
        s.push_pc().0.with_pc(target).rts().0.mem == s.push_pc().0.mem,
{
    lemma_dec_then_inc_l(s, 7, mask24(s.pc));
    assert(s.push_pc().0.with_pc(target).rts().0.er =~= s.er);
}

} // verus!
