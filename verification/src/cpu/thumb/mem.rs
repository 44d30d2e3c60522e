//! THUMB load/store: formats 6–11, 14 and 15.

use vstd::prelude::*;

use crate::cpu::arm::mem::{count_listed, list_size, listed, Block};
use crate::cpu::load;
use crate::cpu::registers::{LR, PC, SP};
use crate::cpu::thumb::{low_rd, low_register};
use crate::cpu::{Cpu, CpuView};
use crate::memory::Memory;

verus! {

broadcast use crate::bits::group_mask_bounds;

#[inline]
fn rd(op: u16) -> (index: usize)
    ensures
        index == low_rd(op),
        index < 8,
{
    (op & 0x7) as usize
}

#[inline]
fn rb(op: u16) -> (index: usize)
    ensures
        index == low_register(op, 3),
        index < 8,
{
    ((op >> 3) & 0x7) as usize
}

#[inline]
fn ro(op: u16) -> (index: usize)
    ensures
        index == low_register(op, 6),
        index < 8,
{
    ((op >> 6) & 0x7) as usize
}

/// The register list of formats 14 and 15.
pub open spec fn low_list(op: u16) -> u32 {
    (op & 0xFF) as u32
}

/// A multiple transfer of low registers from `start` up.
pub open spec fn low_block(op: u16, load: bool, rn: int, start: u32, last: u32) -> Block {
    Block {
        load,
        list: low_list(op),
        empty: false,
        rn,
        writeback: true,
        user: false,
        restore: false,
        start,
        last,
    }
}

/// Bytes that the listed registers occupy.
pub open spec fn low_span(op: u16) -> u32 {
    (4 * list_size(low_list(op), 8)) as u32
}

impl CpuView {
    /// The effect of format 6.
    pub open spec fn thumb_ldr_pc<M: Memory>(self, s: M::State, op: u16) -> (
        CpuView,
        M::State,
        u32,
    ) {
        let address = (self.regs.gpr[15] & !2u32).wrapping_add(((op & 0xFF) as u32) << 2);
        (self.set(low_register(op, 8), M::value32(s, address)), M::loaded32(s, address), 1)
    }

    /// A word store from `rd`.
    pub open spec fn thumb_str<M: Memory>(self, s: M::State, rd: int, address: u32) -> (
        CpuView,
        M::State,
        u32,
    ) {
        (self, M::stored32(s, address & !3u32, self.regs.gpr[rd]), 0)
    }

    /// A byte store from `rd`.
    pub open spec fn thumb_strb<M: Memory>(self, s: M::State, rd: int, address: u32) -> (
        CpuView,
        M::State,
        u32,
    ) {
        (self, M::stored8(s, address, self.regs.gpr[rd] as u8), 0)
    }

    /// A halfword store from `rd`.
    pub open spec fn thumb_strh<M: Memory>(self, s: M::State, rd: int, address: u32) -> (
        CpuView,
        M::State,
        u32,
    ) {
        (self, M::stored16(s, address & !1u32, self.regs.gpr[rd] as u16), 0)
    }

    /// A word load into `rd`.
    pub open spec fn thumb_ldr<M: Memory>(self, s: M::State, rd: int, address: u32) -> (
        CpuView,
        M::State,
        u32,
    ) {
        (self.set(rd, load::word_value::<M>(s, address)), M::loaded32(s, address & !3u32), 1)
    }

    /// A byte load into `rd`.
    pub open spec fn thumb_ldrb<M: Memory>(self, s: M::State, rd: int, address: u32) -> (
        CpuView,
        M::State,
        u32,
    ) {
        (self.set(rd, M::value8(s, address) as u32), M::loaded8(s, address), 1)
    }

    /// A halfword load into `rd`.
    pub open spec fn thumb_ldrh<M: Memory>(self, s: M::State, rd: int, address: u32) -> (
        CpuView,
        M::State,
        u32,
    ) {
        (self.set(rd, load::halfword_value::<M>(s, address)), M::loaded16(s, address & !1u32), 1)
    }

    /// The effect of format 7.
    pub open spec fn thumb_ldr_str_reg<M: Memory>(self, s: M::State, op: u16) -> (
        CpuView,
        M::State,
        u32,
    ) {
        let address = self.regs.gpr[low_register(op, 3)].wrapping_add(
            self.regs.gpr[low_register(op, 6)],
        );
        let rd = low_rd(op);
        let form = (op >> 10) & 0b11;
        if form == 0 {
            self.thumb_str::<M>(s, rd, address)
        } else if form == 1 {
            self.thumb_strb::<M>(s, rd, address)
        } else if form == 2 {
            self.thumb_ldr::<M>(s, rd, address)
        } else {
            self.thumb_ldrb::<M>(s, rd, address)
        }
    }

    /// The effect of format 8.
    pub open spec fn thumb_ldr_str_sign_ext<M: Memory>(self, s: M::State, op: u16) -> (
        CpuView,
        M::State,
        u32,
    ) {
        let address = self.regs.gpr[low_register(op, 3)].wrapping_add(
            self.regs.gpr[low_register(op, 6)],
        );
        let rd = low_rd(op);
        let form = (op >> 10) & 0b11;
        if form == 0 {
            self.thumb_strh::<M>(s, rd, address)
        } else if form == 1 {
            (self.set(rd, load::signed_byte_value::<M>(s, address)), M::loaded8(s, address), 1)
        } else if form == 2 {
            self.thumb_ldrh::<M>(s, rd, address)
        } else {
            (
                self.set(rd, load::signed_halfword_value::<M>(s, address)),
                load::signed_halfword_loaded::<M>(s, address),
                1,
            )
        }
    }

    /// The effect of format 9.
    pub open spec fn thumb_ldr_str_imm<M: Memory>(self, s: M::State, op: u16) -> (
        CpuView,
        M::State,
        u32,
    ) {
        let byte = op & (1u16 << 12) != 0;
        let load = op & (1u16 << 11) != 0;
        let units = ((op >> 6) & 0x1F) as u32;
        let offset = if byte {
            units
        } else {
            units << 2
        };
        let address = self.regs.gpr[low_register(op, 3)].wrapping_add(offset);
        let rd = low_rd(op);
        if load {
            if byte {
                self.thumb_ldrb::<M>(s, rd, address)
            } else {
                self.thumb_ldr::<M>(s, rd, address)
            }
        } else {
            if byte {
                self.thumb_strb::<M>(s, rd, address)
            } else {
                self.thumb_str::<M>(s, rd, address)
            }
        }
    }

    /// The effect of format 10.
    pub open spec fn thumb_ldr_str_half<M: Memory>(self, s: M::State, op: u16) -> (
        CpuView,
        M::State,
        u32,
    ) {
        let address = self.regs.gpr[low_register(op, 3)].wrapping_add(
            (((op >> 6) & 0x1F) as u32) << 1,
        );
        if op & (1u16 << 11) != 0 {
            self.thumb_ldrh::<M>(s, low_rd(op), address)
        } else {
            self.thumb_strh::<M>(s, low_rd(op), address)
        }
    }

    /// The effect of format 11.
    pub open spec fn thumb_ldr_str_sp<M: Memory>(self, s: M::State, op: u16) -> (
        CpuView,
        M::State,
        u32,
    ) {
        let address = self.regs.gpr[13].wrapping_add(((op & 0xFF) as u32) << 2);
        if op & (1u16 << 11) != 0 {
            self.thumb_ldr::<M>(s, low_register(op, 8), address)
        } else {
            self.thumb_str::<M>(s, low_register(op, 8), address)
        }
    }

    /// The effect of `POP`: the low registers, then r15, from the stack up.
    pub open spec fn thumb_pop<M: Memory>(self, s: M::State, op: u16) -> (CpuView, M::State, u32) {
        let sp = self.regs.gpr[13];
        let past = sp.wrapping_add(low_span(op));
        let (popped, mem) = self.block_loads::<M>(s, low_block(op, true, 13, sp, past), 8);
        if op & (1u16 << 8) != 0 {
            (
                popped.set_pc(M::value32(mem, past)).set(13, past.wrapping_add(4)),
                M::loaded32(mem, past),
                1,
            )
        } else {
            (popped.set(13, past), mem, 1)
        }
    }

    /// The effect of `PUSH`: the low registers, then r14, ending below the
    /// old stack pointer.
    pub open spec fn thumb_push<M: Memory>(self, s: M::State, op: u16) -> (CpuView, M::State, u32) {
        let extra = op & (1u16 << 8) != 0;
        let bytes = (low_span(op) + if extra {
            4int
        } else {
            0
        }) as u32;
        let bottom = self.regs.gpr[13].wrapping_sub(bytes);
        let pushed = self.set(13, bottom);
        let mem = pushed.block_stores::<M>(s, low_block(op, false, 13, bottom, bottom), false, 8);
        (
            pushed,
            if extra {
                M::stored32(mem, bottom.wrapping_add(low_span(op)), self.regs.gpr[14])
            } else {
                mem
            },
            0,
        )
    }

    /// The effect of format 14.
    pub open spec fn thumb_push_pop<M: Memory>(self, s: M::State, op: u16) -> (
        CpuView,
        M::State,
        u32,
    ) {
        if op & (1u16 << 11) != 0 {
            self.thumb_pop::<M>(s, op)
        } else {
            self.thumb_push::<M>(s, op)
        }
    }

    /// The effect of format 15.
    pub open spec fn thumb_ldm_stm<M: Memory>(self, s: M::State, op: u16) -> (
        CpuView,
        M::State,
        u32,
    ) {
        let load = op & (1u16 << 11) != 0;
        let rb = low_register(op, 8);
        let base = self.regs.gpr[rb];
        let last = base.wrapping_add(low_span(op));
        let b = low_block(op, load, rb, base, last);
        if low_list(op) == 0 {
            // Empty-list quirk, as in ARM: r15 is transferred, base += 0x40.
            if load {
                (
                    self.set_pc(M::value32(s, base)).set(rb, base.wrapping_add(0x40)),
                    M::loaded32(s, base),
                    1,
                )
            } else {
                (
                    self.set(rb, base.wrapping_add(0x40)),
                    M::stored32(s, base, self.regs.gpr[15].wrapping_add(2)),
                    0,
                )
            }
        } else if load {
            let (loaded, mem) = self.block_loads::<M>(s, b, 8);
            // With the base in the list, the loaded value wins.
            (
                if listed(low_list(op), rb) {
                    loaded
                } else {
                    loaded.set(rb, last)
                },
                mem,
                1,
            )
        } else {
            (self.set(rb, last), self.block_stores::<M>(s, b, true, 8), 0)
        }
    }
}

impl Cpu {
    /// Format 6: `LDR Rd, [PC, #imm8*4]`. The PC used is word-aligned.
    pub(crate) fn thumb_ldr_pc<M: Memory>(&mut self, mem: &mut M, op: u16) -> (cycles: u32)
        requires
            old(self).wf(),
            old(mem).wf(),
        ensures
            final(self).wf(),
            final(mem).wf(),
            M::elapsed(final(mem).state()) >= M::elapsed(old(mem).state()),
            (final(self)@, final(mem).state(), cycles) == old(self)@.thumb_ldr_pc::<M>(
                old(mem).state(),
                op,
            ),
    {
        let rd: usize = ((op >> 8) & 0x7) as usize;
        let address: u32 = (self.regs.get(PC) & !2u32).wrapping_add(((op & 0xFF) as u32) << 2);
        let value: u32 = mem.read32(address);
        self.regs.set(rd, value);
        1
    }

    fn thumb_str<M: Memory>(&mut self, mem: &mut M, rd: usize, address: u32) -> (cycles: u32)
        requires
            old(self).wf(),
            old(mem).wf(),
            rd < 16,
        ensures
            final(self).wf(),
            final(mem).wf(),
            M::elapsed(final(mem).state()) >= M::elapsed(old(mem).state()),
            (final(self)@, final(mem).state(), cycles) == old(self)@.thumb_str::<M>(
                old(mem).state(),
                rd as int,
                address,
            ),
    {
        mem.write32(address & !3u32, self.regs.get(rd));
        0
    }

    fn thumb_strb<M: Memory>(&mut self, mem: &mut M, rd: usize, address: u32) -> (cycles: u32)
        requires
            old(self).wf(),
            old(mem).wf(),
            rd < 16,
        ensures
            final(self).wf(),
            final(mem).wf(),
            M::elapsed(final(mem).state()) >= M::elapsed(old(mem).state()),
            (final(self)@, final(mem).state(), cycles) == old(self)@.thumb_strb::<M>(
                old(mem).state(),
                rd as int,
                address,
            ),
    {
        mem.write8(address, self.regs.get(rd) as u8);
        0
    }

    fn thumb_strh<M: Memory>(&mut self, mem: &mut M, rd: usize, address: u32) -> (cycles: u32)
        requires
            old(self).wf(),
            old(mem).wf(),
            rd < 16,
        ensures
            final(self).wf(),
            final(mem).wf(),
            M::elapsed(final(mem).state()) >= M::elapsed(old(mem).state()),
            (final(self)@, final(mem).state(), cycles) == old(self)@.thumb_strh::<M>(
                old(mem).state(),
                rd as int,
                address,
            ),
    {
        mem.write16(address & !1u32, self.regs.get(rd) as u16);
        0
    }

    fn thumb_ldr<M: Memory>(&mut self, mem: &mut M, rd: usize, address: u32) -> (cycles: u32)
        requires
            old(self).wf(),
            old(mem).wf(),
            rd < 16,
        ensures
            final(self).wf(),
            final(mem).wf(),
            M::elapsed(final(mem).state()) >= M::elapsed(old(mem).state()),
            (final(self)@, final(mem).state(), cycles) == old(self)@.thumb_ldr::<M>(
                old(mem).state(),
                rd as int,
                address,
            ),
    {
        let value: u32 = load::word(mem, address);
        self.regs.set(rd, value);
        1
    }

    fn thumb_ldrb<M: Memory>(&mut self, mem: &mut M, rd: usize, address: u32) -> (cycles: u32)
        requires
            old(self).wf(),
            old(mem).wf(),
            rd < 16,
        ensures
            final(self).wf(),
            final(mem).wf(),
            M::elapsed(final(mem).state()) >= M::elapsed(old(mem).state()),
            (final(self)@, final(mem).state(), cycles) == old(self)@.thumb_ldrb::<M>(
                old(mem).state(),
                rd as int,
                address,
            ),
    {
        let value: u32 = mem.read8(address) as u32;
        self.regs.set(rd, value);
        1
    }

    fn thumb_ldrh<M: Memory>(&mut self, mem: &mut M, rd: usize, address: u32) -> (cycles: u32)
        requires
            old(self).wf(),
            old(mem).wf(),
            rd < 16,
        ensures
            final(self).wf(),
            final(mem).wf(),
            M::elapsed(final(mem).state()) >= M::elapsed(old(mem).state()),
            (final(self)@, final(mem).state(), cycles) == old(self)@.thumb_ldrh::<M>(
                old(mem).state(),
                rd as int,
                address,
            ),
    {
        let value: u32 = load::halfword(mem, address);
        self.regs.set(rd, value);
        1
    }

    /// Format 7: `STR`/`STRB`/`LDR`/`LDRB Rd, [Rb, Ro]`.
    pub(crate) fn thumb_ldr_str_reg<M: Memory>(&mut self, mem: &mut M, op: u16) -> (cycles: u32)
        requires
            old(self).wf(),
            old(mem).wf(),
        ensures
            final(self).wf(),
            final(mem).wf(),
            M::elapsed(final(mem).state()) >= M::elapsed(old(mem).state()),
            (final(self)@, final(mem).state(), cycles) == old(self)@.thumb_ldr_str_reg::<M>(
                old(mem).state(),
                op,
            ),
    {
        let address: u32 = self.regs.get(rb(op)).wrapping_add(self.regs.get(ro(op)));
        let rd: usize = rd(op);
        let form: u16 = (op >> 10) & 0b11;
        match form {
            0b00 => self.thumb_str(mem, rd, address),
            0b01 => self.thumb_strb(mem, rd, address),
            0b10 => self.thumb_ldr(mem, rd, address),
            _ => self.thumb_ldrb(mem, rd, address),
        }
    }

    /// Format 8: `STRH`/`LDRSB`/`LDRH`/`LDRSH Rd, [Rb, Ro]`.
    pub(crate) fn thumb_ldr_str_sign_ext<M: Memory>(&mut self, mem: &mut M, op: u16) -> (cycles:
        u32)
        requires
            old(self).wf(),
            old(mem).wf(),
        ensures
            final(self).wf(),
            final(mem).wf(),
            M::elapsed(final(mem).state()) >= M::elapsed(old(mem).state()),
            (final(self)@, final(mem).state(), cycles) == old(self)@.thumb_ldr_str_sign_ext::<M>(
                old(mem).state(),
                op,
            ),
    {
        let address: u32 = self.regs.get(rb(op)).wrapping_add(self.regs.get(ro(op)));
        let rd: usize = rd(op);
        let form: u16 = (op >> 10) & 0b11;
        match form {
            0b00 => self.thumb_strh(mem, rd, address),
            0b01 => {
                let value: u32 = load::signed_byte(mem, address);
                self.regs.set(rd, value);
                1
            },
            0b10 => self.thumb_ldrh(mem, rd, address),
            _ => {
                let value: u32 = load::signed_halfword(mem, address);
                self.regs.set(rd, value);
                1
            },
        }
    }

    /// Format 9: `STR`/`LDR`/`STRB`/`LDRB Rd, [Rb, #offset5]`.
    pub(crate) fn thumb_ldr_str_imm<M: Memory>(&mut self, mem: &mut M, op: u16) -> (cycles: u32)
        requires
            old(self).wf(),
            old(mem).wf(),
        ensures
            final(self).wf(),
            final(mem).wf(),
            M::elapsed(final(mem).state()) >= M::elapsed(old(mem).state()),
            (final(self)@, final(mem).state(), cycles) == old(self)@.thumb_ldr_str_imm::<M>(
                old(mem).state(),
                op,
            ),
    {
        let byte = op & (1u16 << 12) != 0;
        let load = op & (1u16 << 11) != 0;
        let offset: u32 = ((op >> 6) & 0x1F) as u32;
        let offset: u32 = if byte {
            offset
        } else {
            offset << 2
        };
        let address: u32 = self.regs.get(rb(op)).wrapping_add(offset);
        let rd: usize = rd(op);
        match (load, byte) {
            (false, false) => self.thumb_str(mem, rd, address),
            (false, true) => self.thumb_strb(mem, rd, address),
            (true, false) => self.thumb_ldr(mem, rd, address),
            (true, true) => self.thumb_ldrb(mem, rd, address),
        }
    }

    /// Format 10: `STRH`/`LDRH Rd, [Rb, #offset5*2]`.
    pub(crate) fn thumb_ldr_str_half<M: Memory>(&mut self, mem: &mut M, op: u16) -> (cycles: u32)
        requires
            old(self).wf(),
            old(mem).wf(),
        ensures
            final(self).wf(),
            final(mem).wf(),
            M::elapsed(final(mem).state()) >= M::elapsed(old(mem).state()),
            (final(self)@, final(mem).state(), cycles) == old(self)@.thumb_ldr_str_half::<M>(
                old(mem).state(),
                op,
            ),
    {
        let address: u32 = self.regs.get(rb(op)).wrapping_add((((op >> 6) & 0x1F) as u32) << 1);
        let rd: usize = rd(op);
        if op & (1u16 << 11) != 0 {
            self.thumb_ldrh(mem, rd, address)
        } else {
            self.thumb_strh(mem, rd, address)
        }
    }

    /// Format 11: `STR`/`LDR Rd, [SP, #imm8*4]`.
    pub(crate) fn thumb_ldr_str_sp<M: Memory>(&mut self, mem: &mut M, op: u16) -> (cycles: u32)
        requires
            old(self).wf(),
            old(mem).wf(),
        ensures
            final(self).wf(),
            final(mem).wf(),
            M::elapsed(final(mem).state()) >= M::elapsed(old(mem).state()),
            (final(self)@, final(mem).state(), cycles) == old(self)@.thumb_ldr_str_sp::<M>(
                old(mem).state(),
                op,
            ),
    {
        let rd: usize = ((op >> 8) & 0x7) as usize;
        let address: u32 = self.regs.get(SP).wrapping_add(((op & 0xFF) as u32) << 2);
        if op & (1u16 << 11) != 0 {
            self.thumb_ldr(mem, rd, address)
        } else {
            self.thumb_str(mem, rd, address)
        }
    }

    /// Loads the listed low registers from `start` up.
    fn load_low<M: Memory>(&mut self, mem: &mut M, list: u32, start: u32, Ghost(b): Ghost<Block>)
        requires
            old(self).wf(),
            old(mem).wf(),
            b.list == list,
            b.start == start,
            !b.user,
        ensures
            final(self).wf(),
            final(mem).wf(),
            M::elapsed(final(mem).state()) >= M::elapsed(old(mem).state()),
            (final(self)@, final(mem).state()) == old(self)@.block_loads::<M>(
                old(mem).state(),
                b,
                8,
            ),
    {
        let ghost cpu0 = self@;
        let ghost mem0 = mem.state();
        let mut count: u32 = 0;
        for reg in 0..8usize
            invariant
                self.wf(),
                mem.wf(),
                M::elapsed(mem.state()) >= M::elapsed(mem0),
                b.list == list,
                b.start == start,
                !b.user,
                count <= reg,
                count == list_size(list, reg as int),
                (self@, mem.state()) == cpu0.block_loads::<M>(mem0, b, reg as int),
        {
            if (list >> (reg as u32)) & 1 != 0 {
                let value: u32 = mem.read32(start.wrapping_add(4 * count));
                self.regs.set(reg, value);
                count = count + 1;
            }
        }
    }

    /// Stores the listed low registers from `start` up. When `base` is a
    /// register, every occurrence of it but the first word stores `last`.
    fn store_low<M: Memory>(
        &self,
        mem: &mut M,
        list: u32,
        start: u32,
        base: usize,
        last: u32,
        writeback: bool,
        Ghost(b): Ghost<Block>,
    )
        requires
            old(mem).wf(),
            b.list == list,
            b.start == start,
            b.rn == base,
            b.last == last,
            !b.user,
        ensures
            final(mem).wf(),
            M::elapsed(final(mem).state()) >= M::elapsed(old(mem).state()),
            final(mem).state() == self@.block_stores::<M>(old(mem).state(), b, writeback, 8),
    {
        let ghost mem0 = mem.state();
        let mut count: u32 = 0;
        for reg in 0..8usize
            invariant
                mem.wf(),
                M::elapsed(mem.state()) >= M::elapsed(mem0),
                b.list == list,
                b.start == start,
                b.rn == base,
                b.last == last,
                !b.user,
                count <= reg,
                count == list_size(list, reg as int),
                mem.state() == self@.block_stores::<M>(mem0, b, writeback, reg as int),
        {
            if (list >> (reg as u32)) & 1 != 0 {
                let value: u32 = if reg == base && count > 0 && writeback {
                    last
                } else {
                    self.regs.get(reg)
                };
                mem.write32(start.wrapping_add(4 * count), value);
                count = count + 1;
            }
        }
    }

    /// Format 14: `PUSH {rlist, lr}` / `POP {rlist, pc}`.
    pub(crate) fn thumb_push_pop<M: Memory>(&mut self, mem: &mut M, op: u16) -> (cycles: u32)
        requires
            old(self).wf(),
            old(mem).wf(),
        ensures
            final(self).wf(),
            final(mem).wf(),
            M::elapsed(final(mem).state()) >= M::elapsed(old(mem).state()),
            (final(self)@, final(mem).state(), cycles) == old(self)@.thumb_push_pop::<M>(
                old(mem).state(),
                op,
            ),
    {
        let pop = op & (1u16 << 11) != 0;
        let extra = op & (1u16 << 8) != 0;
        let list: u32 = (op & 0xFF) as u32;
        let span: u32 = 4 * count_listed(list, 8);

        if pop {
            let start: u32 = self.regs.get(SP);
            let past: u32 = start.wrapping_add(span);
            self.load_low(mem, list, start, Ghost(low_block(op, true, 13, start, past)));
            if extra {
                // ARMv4T: POP pc stays in THUMB regardless of bit 0.
                let target: u32 = mem.read32(past);
                self.set_pc(target);
                self.regs.set(SP, past.wrapping_add(4));
            } else {
                self.regs.set(SP, past);
            }
            1
        } else {
            let bytes: u32 = if extra {
                span + 4
            } else {
                span
            };
            let bottom: u32 = self.regs.get(SP).wrapping_sub(bytes);
            self.regs.set(SP, bottom);
            self.store_low(
                mem,
                list,
                bottom,
                SP,
                bottom,
                false,
                Ghost(low_block(op, false, 13, bottom, bottom)),
            );
            if extra {
                mem.write32(bottom.wrapping_add(span), self.regs.get(LR));
            }
            0
        }
    }

    /// Format 15: `STMIA`/`LDMIA Rb!, {rlist}`.
    pub(crate) fn thumb_ldm_stm<M: Memory>(&mut self, mem: &mut M, op: u16) -> (cycles: u32)
        requires
            old(self).wf(),
            old(mem).wf(),
        ensures
            final(self).wf(),
            final(mem).wf(),
            M::elapsed(final(mem).state()) >= M::elapsed(old(mem).state()),
            (final(self)@, final(mem).state(), cycles) == old(self)@.thumb_ldm_stm::<M>(
                old(mem).state(),
                op,
            ),
    {
        let load = op & (1u16 << 11) != 0;
        let rb: usize = ((op >> 8) & 0x7) as usize;
        let list: u32 = (op & 0xFF) as u32;
        let base: u32 = self.regs.get(rb);

        if list == 0 {
            // Empty-list quirk, as in ARM: r15 is transferred, base += 0x40.
            let cycles: u32 = if load {
                let target: u32 = mem.read32(base);
                self.set_pc(target);
                1
            } else {
                mem.write32(base, self.regs.get(PC).wrapping_add(2));
                0
            };
            self.regs.set(rb, base.wrapping_add(0x40));
            return cycles;
        }
        let final_base: u32 = base.wrapping_add(4 * count_listed(list, 8));
        let ghost b = low_block(op, load, rb as int, base, final_base);
        if load {
            self.load_low(mem, list, base, Ghost(b));
            // LDMIA with the base in the list: the loaded value wins.
            if (list >> (rb as u32)) & 1 == 0 {
                self.regs.set(rb, final_base);
            }
            1
        } else {
            self.store_low(mem, list, base, rb, final_base, true, Ghost(b));
            self.regs.set(rb, final_base);
            0
        }
    }
}

} // verus!
