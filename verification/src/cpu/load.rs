//! Load helpers implementing the ARM7TDMI's misaligned-access behaviour,
//! shared by the ARM and THUMB executors.
//!
//! The core never faults on misalignment. Instead a misaligned word load
//! fetches the aligned word and rotates it so the addressed byte ends up in
//! the low bits; halfword loads behave analogously, and `LDRSH` from an odd
//! address degrades to a sign-extended byte load.

use vstd::prelude::*;

use crate::cpu::alu::{rotate_right, rotated_right};
use crate::memory::Memory;

verus! {

broadcast use crate::bits::group_mask_bounds;

/// The word that `LDR` yields: the aligned word, rotated so that the
/// addressed byte comes first.
pub open spec fn word_value<M: Memory>(s: M::State, address: u32) -> u32 {
    rotated_right(M::value32(s, address & !3u32), ((address & 3) * 8) as u32)
}

/// The value that `LDRH` yields.
pub open spec fn halfword_value<M: Memory>(s: M::State, address: u32) -> u32 {
    rotated_right(M::value16(s, address & !1u32) as u32, ((address & 1) * 8) as u32)
}

/// The value that `LDRSB` yields.
pub open spec fn signed_byte_value<M: Memory>(s: M::State, address: u32) -> u32 {
    (M::value8(s, address) as i8) as i32 as u32
}

/// The value that `LDRSH` yields.
pub open spec fn signed_halfword_value<M: Memory>(s: M::State, address: u32) -> u32 {
    if address & 1 == 0 {
        (M::value16(s, address) as i16) as i32 as u32
    } else {
        signed_byte_value::<M>(s, address)
    }
}

/// The state that `LDRSH` leaves.
pub open spec fn signed_halfword_loaded<M: Memory>(s: M::State, address: u32) -> M::State {
    if address & 1 == 0 {
        M::loaded16(s, address)
    } else {
        M::loaded8(s, address)
    }
}

/// `LDR`: word load with rotation for misaligned addresses.
#[inline]
pub fn word<M: Memory>(mem: &mut M, address: u32) -> (value: u32)
    requires
        old(mem).wf(),
    ensures
        final(mem).wf(),
        M::elapsed(final(mem).state()) >= M::elapsed(old(mem).state()),
        value == word_value::<M>(old(mem).state(), address),
        final(mem).state() == M::loaded32(old(mem).state(), address & !3u32),
{
    let aligned: u32 = mem.read32(address & !3u32);
    rotate_right(aligned, (address & 3) * 8)
}

/// `LDRH`: halfword load, zero-extended, rotated when misaligned.
#[inline]
pub fn halfword<M: Memory>(mem: &mut M, address: u32) -> (value: u32)
    requires
        old(mem).wf(),
    ensures
        final(mem).wf(),
        M::elapsed(final(mem).state()) >= M::elapsed(old(mem).state()),
        value == halfword_value::<M>(old(mem).state(), address),
        final(mem).state() == M::loaded16(old(mem).state(), address & !1u32),
{
    let aligned: u32 = mem.read16(address & !1u32) as u32;
    rotate_right(aligned, (address & 1) * 8)
}

/// `LDRSH`: sign-extended halfword; misaligned addresses load a signed byte.
#[inline]
pub fn signed_halfword<M: Memory>(mem: &mut M, address: u32) -> (value: u32)
    requires
        old(mem).wf(),
    ensures
        final(mem).wf(),
        M::elapsed(final(mem).state()) >= M::elapsed(old(mem).state()),
        value == signed_halfword_value::<M>(old(mem).state(), address),
        final(mem).state() == signed_halfword_loaded::<M>(old(mem).state(), address),
{
    if address & 1 == 0 {
        (mem.read16(address) as i16) as i32 as u32
    } else {
        signed_byte(mem, address)
    }
}

/// `LDRSB`: sign-extended byte.
#[inline]
pub fn signed_byte<M: Memory>(mem: &mut M, address: u32) -> (value: u32)
    requires
        old(mem).wf(),
    ensures
        final(mem).wf(),
        M::elapsed(final(mem).state()) >= M::elapsed(old(mem).state()),
        value == signed_byte_value::<M>(old(mem).state(), address),
        final(mem).state() == M::loaded8(old(mem).state(), address),
{
    (mem.read8(address) as i8) as i32 as u32
}

} // verus!
