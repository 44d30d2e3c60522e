//! ARM load/store instructions: single, halfword/signed, block and swap.

use vstd::prelude::*;

use crate::cpu::alu::{shift_imm, shift_of, shifted_imm, ShiftType};
use crate::cpu::arm::{field, low_field};
use crate::cpu::load;
use crate::cpu::registers::PC;
use crate::cpu::{Cpu, CpuView, Exception};
use crate::memory::Memory;

verus! {

broadcast use crate::bits::group_mask_bounds;

/// Whether register `reg` is in a transfer list.
pub open spec fn listed(list: u32, reg: int) -> bool {
    (list >> (reg as u32)) & 1 != 0
}

/// The number of registers below `upto` in a transfer list.
pub open spec fn list_size(list: u32, upto: int) -> int
    decreases upto,
{
    if upto <= 0 {
        0
    } else {
        list_size(list, upto - 1) + if listed(list, upto - 1) {
            1int
        } else {
            0
        }
    }
}

/// Counts the registers below `upto` in a transfer list.
pub fn count_listed(list: u32, upto: u32) -> (count: u32)
    requires
        upto <= 32,
    ensures
        count == list_size(list, upto as int),
        count <= upto,
{
    let mut count: u32 = 0;
    for reg in 0..upto
        invariant
            upto <= 32,
            count == list_size(list, reg as int),
            count <= reg,
    {
        if (list >> reg) & 1 != 0 {
            count = count + 1;
        }
    }
    count
}

/// The operands of a block transfer, decoded.
pub struct Block {
    /// Load rather than store.
    pub load: bool,
    /// The registers to move; r15 alone when the encoded list is empty.
    pub list: u32,
    /// Whether the encoded list is empty.
    pub empty: bool,
    /// The base register.
    pub rn: int,
    /// Whether the base is written back.
    pub writeback: bool,
    /// Whether the User bank is transferred.
    pub user: bool,
    /// Whether r15 is loaded together with the saved status.
    pub restore: bool,
    /// The lowest address.
    pub start: u32,
    /// What the base becomes.
    pub last: u32,
}

/// Decodes a block transfer with `rn_value` in the base register.
pub open spec fn block_of(op: u32, rn_value: u32) -> Block {
    let load = op & (1u32 << 20) != 0;
    let writeback = op & (1u32 << 21) != 0;
    let s_bit = op & (1u32 << 22) != 0;
    let up = op & (1u32 << 23) != 0;
    let pre = op & (1u32 << 24) != 0;
    let empty = op & 0xFFFF == 0;
    let list = if empty {
        0x8000u32
    } else {
        op & 0xFFFF
    };
    let span = if empty {
        0x40u32
    } else {
        (4 * list_size(list, 16)) as u32
    };
    let base = rn_value & !3u32;
    let last = if up {
        base.wrapping_add(span)
    } else {
        base.wrapping_sub(span)
    };
    Block {
        load,
        list,
        empty,
        rn: field(op, 16),
        writeback: writeback || empty,
        user: s_bit && !(load && listed(list, 15)),
        restore: load && s_bit && listed(list, 15),
        start: if up {
            if pre {
                base.wrapping_add(4)
            } else {
                base
            }
        } else {
            if pre {
                last
            } else {
                last.wrapping_add(4)
            }
        },
        last,
    }
}

/// Where register `reg` of a block transfer lives: the registers occupy
/// ascending words from the lowest address.
pub open spec fn slot(b: Block, reg: int) -> u32 {
    b.start.wrapping_add((4 * list_size(b.list, reg)) as u32)
}

impl CpuView {
    /// Value of `Rd` for a store; r15 stores as PC+12.
    pub open spec fn store_value(self, rd: int) -> u32 {
        self.reg_plus4_if_pc(rd)
    }

    /// The address that a single transfer accesses, and the state after
    /// base writeback.
    pub open spec fn index(self, op: u32, rn: int, offset: u32) -> (CpuView, u32) {
        let base = self.regs.gpr[rn];
        let pre = op & (1u32 << 24) != 0;
        let moved = if op & (1u32 << 23) != 0 {
            base.wrapping_add(offset)
        } else {
            base.wrapping_sub(offset)
        };
        (
            if !pre || op & (1u32 << 21) != 0 {
                self.write_register(rn, moved)
            } else {
                self
            },
            if pre {
                moved
            } else {
                base
            },
        )
    }

    /// The offset of `LDR`/`STR`.
    pub open spec fn single_offset(self, op: u32) -> u32 {
        if op & (1u32 << 25) == 0 {
            op & 0xFFF
        } else {
            shifted_imm(
                shift_of(op >> 5),
                self.regs.gpr[low_field(op)],
                (op >> 7) & 0x1F,
                self.regs.cpsr.c(),
            ).0
        }
    }

    /// The effect of `LDR`/`STR`, and its internal cycles.
    pub open spec fn arm_single_transfer<M: Memory>(self, s: M::State, op: u32) -> (
        CpuView,
        M::State,
        u32,
    ) {
        let byte = op & (1u32 << 22) != 0;
        let rd = field(op, 12);
        let value = self.store_value(rd);
        let (indexed, address) = self.index(op, field(op, 16), self.single_offset(op));
        if op & (1u32 << 20) != 0 {
            if byte {
                (
                    indexed.write_register(rd, M::value8(s, address) as u32),
                    M::loaded8(s, address),
                    1,
                )
            } else {
                (
                    indexed.write_register(rd, load::word_value::<M>(s, address)),
                    M::loaded32(s, address & !3u32),
                    1,
                )
            }
        } else if byte {
            (indexed, M::stored8(s, address, value as u8), 0)
        } else {
            (indexed, M::stored32(s, address & !3u32, value), 0)
        }
    }

    /// The offset of a halfword transfer.
    pub open spec fn halfword_offset(self, op: u32) -> u32 {
        if op & (1u32 << 22) != 0 {
            ((op >> 4) & 0xF0) | (op & 0xF)
        } else {
            self.regs.gpr[low_field(op)]
        }
    }

    /// The effect of `LDRH`/`STRH`/`LDRSB`/`LDRSH`, and its internal cycles.
    pub open spec fn arm_halfword_transfer<M: Memory>(self, s: M::State, op: u32) -> (
        CpuView,
        M::State,
        u32,
    ) {
        let rd = field(op, 12);
        let value = self.store_value(rd);
        let (indexed, address) = self.index(op, field(op, 16), self.halfword_offset(op));
        let load = op & (1u32 << 20) != 0;
        let form = (op >> 5) & 0b11;
        if form == 1 && !load {
            (indexed, M::stored16(s, address & !1u32, value as u16), 0)
        } else if form == 1 {
            (
                indexed.write_register(rd, load::halfword_value::<M>(s, address)),
                M::loaded16(s, address & !1u32),
                1,
            )
        } else if form == 2 && load {
            (
                indexed.write_register(rd, load::signed_byte_value::<M>(s, address)),
                M::loaded8(s, address),
                1,
            )
        } else if form == 3 && load {
            (
                indexed.write_register(rd, load::signed_halfword_value::<M>(s, address)),
                load::signed_halfword_loaded::<M>(s, address),
                1,
            )
        } else {
            (indexed.enter_exception(Exception::Undefined), s, 0)
        }
    }

    /// The effect of `SWP`/`SWPB`.
    pub open spec fn arm_swap<M: Memory>(self, s: M::State, op: u32) -> (CpuView, M::State, u32) {
        let address = self.regs.gpr[field(op, 16)];
        let source = self.regs.gpr[low_field(op)];
        if op & (1u32 << 22) != 0 {
            (
                self.write_register(field(op, 12), M::value8(s, address) as u32),
                M::stored8(M::loaded8(s, address), address, source as u8),
                1,
            )
        } else {
            (
                self.write_register(field(op, 12), load::word_value::<M>(s, address)),
                M::stored32(M::loaded32(s, address & !3u32), address & !3u32, source),
                1,
            )
        }
    }

    /// The state after loading `value` into register `reg` of a block.
    pub open spec fn block_load_register(self, b: Block, reg: int, value: u32) -> CpuView {
        if reg == 15 {
            self.set_pc(value)
        } else if b.user {
            self.with_regs(self.regs.set_user(reg, value))
        } else {
            self.set(reg, value)
        }
    }

    /// The word that register `reg` of a block stores. Writeback lands
    /// after the first store, so a later occurrence of the base sees the
    /// updated value.
    pub open spec fn block_stored_word(self, b: Block, writeback: bool, reg: int) -> u32 {
        if b.user {
            self.regs.get_user(reg)
        } else if reg == 15 {
            self.store_value(15)
        } else if reg == b.rn && list_size(b.list, reg) > 0 && writeback {
            b.last
        } else {
            self.regs.gpr[reg]
        }
    }

    /// The state and memory after loading the registers below `upto`.
    pub open spec fn block_loads<M: Memory>(self, s: M::State, b: Block, upto: int) -> (
        CpuView,
        M::State,
    )
        decreases upto,
    {
        if upto <= 0 {
            (self, s)
        } else {
            let (cpu, mem) = self.block_loads::<M>(s, b, upto - 1);
            let reg = upto - 1;
            if listed(b.list, reg) {
                (
                    cpu.block_load_register(b, reg, M::value32(mem, slot(b, reg))),
                    M::loaded32(mem, slot(b, reg)),
                )
            } else {
                (cpu, mem)
            }
        }
    }

    /// The memory after storing the registers below `upto`.
    pub open spec fn block_stores<M: Memory>(
        self,
        s: M::State,
        b: Block,
        writeback: bool,
        upto: int,
    ) -> M::State
        decreases upto,
    {
        if upto <= 0 {
            s
        } else {
            let mem = self.block_stores::<M>(s, b, writeback, upto - 1);
            let reg = upto - 1;
            if listed(b.list, reg) {
                M::stored32(mem, slot(b, reg), self.block_stored_word(b, writeback, reg))
            } else {
                mem
            }
        }
    }

    /// The effect of `LDM`/`STM`, and its internal cycles.
    pub open spec fn arm_block_transfer<M: Memory>(self, s: M::State, op: u32) -> (
        CpuView,
        M::State,
        u32,
    ) {
        let b = block_of(op, self.regs.gpr[field(op, 16)]);
        let (moved, mem) = if b.load {
            self.block_loads::<M>(s, b, 16)
        } else {
            (self, self.block_stores::<M>(s, b, op & (1u32 << 21) != 0, 16))
        };
        let restored = if b.restore && moved.regs.spsr() is Some {
            moved.with_regs(moved.regs.set_cpsr(moved.regs.spsr()->0))
        } else {
            moved
        };
        // A loaded base wins over writeback; an empty list always writes back.
        let base_loaded = b.load && listed(b.list, b.rn) && !b.empty;
        (
            if b.writeback && !base_loaded {
                restored.write_register(b.rn, b.last)
            } else {
                restored
            },
            mem,
            if b.load {
                1
            } else {
                0
            },
        )
    }
}

impl Cpu {
    /// Value of `Rd` for a store; r15 stores as PC+12.
    #[inline]
    fn store_value(&self, rd: usize) -> (value: u32)
        requires
            rd < 16,
        ensures
            value == self@.store_value(rd as int),
    {
        let value: u32 = self.regs.get(rd);
        if rd == PC {
            value.wrapping_add(4)
        } else {
            value
        }
    }

    /// Applies pre/post indexing and writeback shared by the single and
    /// halfword transfers. Returns the effective address to access.
    ///
    /// Bit 24 is "pre", bit 23 "up", bit 21 "writeback".
    #[inline]
    fn index(&mut self, op: u32, rn: usize, offset: u32) -> (address: u32)
        requires
            old(self).wf(),
            rn < 16,
        ensures
            final(self).wf(),
            (final(self)@, address) == old(self)@.index(op, rn as int, offset),
    {
        let base: u32 = self.regs.get(rn);
        let up = op & (1u32 << 23) != 0;
        let pre = op & (1u32 << 24) != 0;
        let offset_base: u32 = if up {
            base.wrapping_add(offset)
        } else {
            base.wrapping_sub(offset)
        };
        let address: u32 = if pre {
            offset_base
        } else {
            base
        };
        if !pre || op & (1u32 << 21) != 0 {
            self.write_register(rn, offset_base);
        }
        address
    }

    /// `LDR`/`STR`, word or byte.
    pub(crate) fn arm_single_transfer<M: Memory>(&mut self, mem: &mut M, op: u32) -> (cycles: u32)
        requires
            old(self).wf(),
            old(mem).wf(),
        ensures
            final(self).wf(),
            final(mem).wf(),
            M::elapsed(final(mem).state()) >= M::elapsed(old(mem).state()),
            (final(self)@, final(mem).state(), cycles) == old(self)@.arm_single_transfer::<M>(
                old(mem).state(),
                op,
            ),
    {
        let load = op & (1u32 << 20) != 0;
        let byte = op & (1u32 << 22) != 0;
        let rn: usize = ((op >> 16) & 0xF) as usize;
        let rd: usize = ((op >> 12) & 0xF) as usize;

        let offset: u32 = if op & (1u32 << 25) == 0 {
            op & 0xFFF
        } else {
            let rm: u32 = self.regs.get((op & 0xF) as usize);
            let kind = ShiftType::from_bits(op >> 5);
            shift_imm(kind, rm, (op >> 7) & 0x1F, self.regs.cpsr.c()).0
        };

        // For stores the value must be read before any writeback to Rn.
        let value: u32 = self.store_value(rd);
        let address: u32 = self.index(op, rn, offset);

        if load {
            let value: u32 = if byte {
                mem.read8(address) as u32
            } else {
                load::word(mem, address)
            };
            self.finish_load(rd, value)
        } else {
            if byte {
                mem.write8(address, value as u8);
            } else {
                mem.write32(address & !3u32, value);
            }
            0
        }
    }

    /// `LDRH`/`STRH`/`LDRSB`/`LDRSH`.
    pub(crate) fn arm_halfword_transfer<M: Memory>(&mut self, mem: &mut M, op: u32) -> (cycles: u32)
        requires
            old(self).wf(),
            old(mem).wf(),
        ensures
            final(self).wf(),
            final(mem).wf(),
            M::elapsed(final(mem).state()) >= M::elapsed(old(mem).state()),
            (final(self)@, final(mem).state(), cycles) == old(self)@.arm_halfword_transfer::<M>(
                old(mem).state(),
                op,
            ),
    {
        let load = op & (1u32 << 20) != 0;
        let rn: usize = ((op >> 16) & 0xF) as usize;
        let rd: usize = ((op >> 12) & 0xF) as usize;
        let offset: u32 = if op & (1u32 << 22) != 0 {
            ((op >> 4) & 0xF0) | (op & 0xF)
        } else {
            self.regs.get((op & 0xF) as usize)
        };

        let value: u32 = self.store_value(rd);
        let address: u32 = self.index(op, rn, offset);

        let form: u32 = (op >> 5) & 0b11;
        match (form, load) {
            (0b01, false) => {
                mem.write16(address & !1u32, value as u16);
                0
            },
            (0b01, true) => {
                let value: u32 = load::halfword(mem, address);
                self.finish_load(rd, value)
            },
            (0b10, true) => {
                let value: u32 = load::signed_byte(mem, address);
                self.finish_load(rd, value)
            },
            (0b11, true) => {
                let value: u32 = load::signed_halfword(mem, address);
                self.finish_load(rd, value)
            },
            // LDRD/STRD slots: undefined on ARMv4T.
            _ => {
                self.enter_exception(Exception::Undefined);
                0
            },
        }
    }

    #[inline]
    fn finish_load(&mut self, rd: usize, value: u32) -> (cycles: u32)
        requires
            old(self).wf(),
            rd < 16,
        ensures
            final(self).wf(),
            final(self)@ == old(self)@.write_register(rd as int, value),
            cycles == 1,
    {
        self.write_register(rd, value);
        1
    }

    /// `LDM`/`STM` in all four addressing modes, with the S-bit user-bank
    /// and SPSR-restore forms.
    pub(crate) fn arm_block_transfer<M: Memory>(&mut self, mem: &mut M, op: u32) -> (cycles: u32)
        requires
            old(self).wf(),
            old(mem).wf(),
        ensures
            final(self).wf(),
            final(mem).wf(),
            M::elapsed(final(mem).state()) >= M::elapsed(old(mem).state()),
            (final(self)@, final(mem).state(), cycles) == old(self)@.arm_block_transfer::<M>(
                old(mem).state(),
                op,
            ),
    {
        let load = op & (1u32 << 20) != 0;
        let writeback = op & (1u32 << 21) != 0;
        let s_bit = op & (1u32 << 22) != 0;
        let up = op & (1u32 << 23) != 0;
        let pre = op & (1u32 << 24) != 0;
        let rn: usize = ((op >> 16) & 0xF) as usize;

        // Empty list quirk: r15 is transferred and the base moves by 0x40.
        let empty = op & 0xFFFF == 0;
        let list: u32 = if empty {
            0x8000
        } else {
            op & 0xFFFF
        };
        let span: u32 = if empty {
            0x40
        } else {
            4 * count_listed(list, 16)
        };

        let base: u32 = self.regs.get(rn) & !3u32;
        let final_base: u32 = if up {
            base.wrapping_add(span)
        } else {
            base.wrapping_sub(span)
        };
        // Registers always occupy ascending addresses from the lowest one.
        let start: u32 = match (up, pre) {
            (true, false) => base,
            (true, true) => base.wrapping_add(4),
            (false, false) => final_base.wrapping_add(4),
            (false, true) => final_base,
        };

        let pc_in_list = (list >> 15) & 1 != 0;
        // S without r15 (or any STM with S) transfers the User bank.
        let user_bank = s_bit && !(load && pc_in_list);

        let ghost b = block_of(op, self@.regs.gpr[field(op, 16)]);
        let ghost cpu0 = self@;
        let ghost mem0 = mem.state();
        let mut count: u32 = 0;
        for reg in 0..16usize
            invariant
                self.wf(),
                mem.wf(),
                M::elapsed(mem.state()) >= M::elapsed(mem0),
                rn < 16,
                count <= reg,
                count == list_size(list, reg as int),
                b.list == list,
                b.start == start,
                b.user == user_bank,
                b.rn == rn,
                b.last == final_base,
                load ==> (self@, mem.state()) == cpu0.block_loads::<M>(mem0, b, reg as int),
                !load ==> self@ == cpu0,
                !load ==> mem.state() == cpu0.block_stores::<M>(mem0, b, writeback, reg as int),
        {
            if (list >> (reg as u32)) & 1 != 0 {
                let address: u32 = start.wrapping_add(4 * count);
                if load {
                    let value: u32 = mem.read32(address);
                    if reg == PC {
                        self.set_pc(value);
                    } else if user_bank {
                        self.regs.set_user(reg, value);
                    } else {
                        self.regs.set(reg, value);
                    }
                } else {
                    let value: u32 = if user_bank {
                        self.regs.get_user(reg)
                    } else if reg == PC {
                        self.store_value(PC)
                    } else if reg == rn && count > 0 && writeback {
                        // Writeback lands after the first store, so a later
                        // occurrence of the base sees the updated value.
                        final_base
                    } else {
                        self.regs.get(reg)
                    };
                    mem.write32(address, value);
                }
                count = count + 1;
            }
        }
        if load && s_bit && pc_in_list {
            if let Some(spsr) = self.regs.spsr() {
                self.regs.set_cpsr(spsr);
            }
        }

        // A loaded base wins over writeback; an empty list always writes back.
        let base_loaded = load && (list >> (rn as u32)) & 1 != 0 && !empty;
        if (writeback || empty) && !base_loaded {
            self.write_register(rn, final_base);
        }
        if load {
            1
        } else {
            0
        }
    }

    /// `SWP`/`SWPB`: atomic exchange of `Rm` with memory at `[Rn]` into `Rd`.
    pub(crate) fn arm_swap<M: Memory>(&mut self, mem: &mut M, op: u32) -> (cycles: u32)
        requires
            old(self).wf(),
            old(mem).wf(),
        ensures
            final(self).wf(),
            final(mem).wf(),
            M::elapsed(final(mem).state()) >= M::elapsed(old(mem).state()),
            (final(self)@, final(mem).state(), cycles) == old(self)@.arm_swap::<M>(
                old(mem).state(),
                op,
            ),
    {
        let byte = op & (1u32 << 22) != 0;
        let rn: usize = ((op >> 16) & 0xF) as usize;
        let rd: usize = ((op >> 12) & 0xF) as usize;
        let rm: usize = (op & 0xF) as usize;
        let address: u32 = self.regs.get(rn);
        let source: u32 = self.regs.get(rm);
        let previous: u32 = if byte {
            let previous: u32 = mem.read8(address) as u32;
            mem.write8(address, source as u8);
            previous
        } else {
            let previous: u32 = load::word(mem, address);
            mem.write32(address & !3u32, source);
            previous
        };
        self.write_register(rd, previous);
        1
    }
}

} // verus!
