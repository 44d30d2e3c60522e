//! Memory-mapped I/O registers (`0x0400_0000..0x0400_0400`).
//!
//! Plain registers are backed by a raw byte array so that software can
//! store and read back values, with the semantics of read-only registers,
//! write-to-clear `IF` and live `KEYINPUT`. The timers, the DMA controller
//! and the sound unit own their registers.

use vstd::prelude::*;

pub use crate::memory::interrupt::Interrupt;
pub use crate::memory::reg;

use crate::apu::{merge_byte, merged_byte, owns, Apu, ApuView, REGISTER_FIRST, REGISTER_LAST};
use crate::bits::alignment_facts;
use crate::bytes::{get16, half_at, set16, with_half};
use crate::memory::dma::{Channel, Dma, DmaView};
use crate::memory::interrupt::interrupt_mask;
use crate::memory::timers::{control_written, initial_timers, reload_written, Timer, Timers};
use crate::memory::IO_SIZE;

verus! {

broadcast use crate::bits::group_mask_bounds;

/// First DMA register offset.
pub const DMA_FIRST: u32 = 0x0B0;
/// Last DMA register offset.
pub const DMA_LAST: u32 = 0x0DE;
/// First timer register offset.
pub const TIMER_FIRST: u32 = 0x100;
/// Last timer register offset.
pub const TIMER_LAST: u32 = 0x10E;

/// `KEYINPUT` value with every key released (bits are active-low).
pub const KEYINPUT_ALL_RELEASED: u16 = 0x03FF;

/// The I/O register block.
#[derive(Debug)]
pub struct IoRegisters {
    /// Plain registers, byte by byte.
    pub raw: Vec<u8>,
    /// Current `KEYINPUT` state, written by the frontend. `0` = pressed.
    pub keyinput: u16,
    /// Set by a write to `HALTCNT`; the emulator takes it and halts the CPU.
    pub halt_requested: bool,
    /// The four timers.
    pub timers: Timers,
    /// The DMA controller registers.
    pub dma: Dma,
    /// The sound unit.
    pub apu: Apu,
}

/// The mathematical register block.
pub struct IoView {
    /// Plain registers, byte by byte.
    pub raw: Seq<u8>,
    /// Current `KEYINPUT` state.
    pub keyinput: u16,
    /// Whether a halt was requested.
    pub halt_requested: bool,
    /// The four timers.
    pub timers: Seq<Timer>,
    /// The DMA controller.
    pub dma: DmaView,
    /// The sound unit.
    pub apu: ApuView,
}

impl View for IoRegisters {
    type V = IoView;

    open spec fn view(&self) -> IoView {
        IoView {
            raw: self.raw@,
            keyinput: self.keyinput,
            halt_requested: self.halt_requested,
            timers: self.timers@,
            dma: self.dma@,
            apu: self.apu@,
        }
    }
}

/// The DMA channel that the register at `off` belongs to.
pub open spec fn dma_channel_of(off: u32) -> int {
    (off - DMA_FIRST) / 12
}

/// The position of the register at `off` within its DMA channel.
pub open spec fn dma_field_of(off: u32) -> int {
    (off - DMA_FIRST) % 12
}

/// A word with its low halfword replaced.
pub open spec fn with_low(word: u32, half: u16) -> u32 {
    (word & 0xFFFF_0000) | (half as u32)
}

/// A word with its high halfword replaced.
pub open spec fn with_high(word: u32, half: u16) -> u32 {
    (word & 0xFFFF) | ((half as u32) << 16)
}

/// The controller after the halfword at field `field` of channel `n` is
/// written.
pub open spec fn dma_written(dma: DmaView, n: int, field: int, value: u16) -> DmaView {
    let ch = dma.channels[n];
    if field == 0 {
        dma.with_channel(n, Channel { source: with_low(ch.source, value), ..ch })
    } else if field == 2 {
        dma.with_channel(n, Channel { source: with_high(ch.source, value), ..ch })
    } else if field == 4 {
        dma.with_channel(n, Channel { dest: with_low(ch.dest, value), ..ch })
    } else if field == 6 {
        dma.with_channel(n, Channel { dest: with_high(ch.dest, value), ..ch })
    } else if field == 8 {
        dma.with_channel(n, Channel { count: value, ..ch })
    } else {
        dma.write_control(n, value)
    }
}

impl IoView {
    /// The power-on state.
    pub open spec fn initial() -> IoView {
        IoView {
            raw: Seq::new(IO_SIZE as nat, |i: int| 0u8),
            keyinput: KEYINPUT_ALL_RELEASED,
            halt_requested: false,
            timers: initial_timers(),
            dma: DmaView::initial(),
            apu: ApuView::initial(),
        }
    }

    /// The halfword register at even offset `off`.
    #[verifier::opaque]
    pub open spec fn register(self, off: u32) -> u16 {
        if off >= IO_SIZE {
            0
        } else if owns(off) {
            self.apu.read16(off)
        } else if DMA_FIRST <= off <= DMA_LAST {
            // Only the control halfword is readable.
            if dma_field_of(off) == 10 {
                self.dma.channels[dma_channel_of(off)].control
            } else {
                0
            }
        } else if TIMER_FIRST <= off <= TIMER_LAST {
            let timer = self.timers[(off - TIMER_FIRST) / 4];
            if (off - TIMER_FIRST) % 4 == 0 {
                timer.counter
            } else {
                timer.control
            }
        } else if off == reg::KEYINPUT {
            self.keyinput
        } else {
            half_at(self.raw, off as int)
        }
    }

    /// The halfword that a read at `offset` returns.
    pub open spec fn read16(self, offset: u32) -> u16 {
        self.register(offset & !1u32)
    }

    /// The byte that a read at `offset` returns.
    pub open spec fn read8(self, offset: u32) -> u8 {
        (self.read16(offset) >> (((offset & 1) * 8) as u16)) as u8
    }

    /// The word that a read at `offset` returns.
    pub open spec fn read32(self, offset: u32) -> u32 {
        let aligned = offset & !3u32;
        (self.read16(aligned) as u32) | ((self.read16((aligned + 2) as u32) as u32) << 16)
    }

    /// The block with the stored halfword at even offset `off` replaced.
    pub open spec fn with_stored(self, off: u32, value: u16) -> IoView {
        IoView { raw: with_half(self.raw, off as int, value), ..self }
    }

    /// The block after the register at even offset `off` is written.
    #[verifier::opaque]
    pub open spec fn register_written(self, off: u32, value: u16) -> IoView {
        if off >= IO_SIZE {
            self
        } else if owns(off) {
            IoView { apu: self.apu.write16(off, value), ..self }
        } else if DMA_FIRST <= off <= DMA_LAST {
            IoView {
                dma: dma_written(self.dma, dma_channel_of(off), dma_field_of(off), value),
                ..self
            }
        } else if TIMER_FIRST <= off <= TIMER_LAST {
            let n = (off - TIMER_FIRST) / 4;
            IoView {
                timers: if (off - TIMER_FIRST) % 4 == 0 {
                    reload_written(self.timers, n, value)
                } else {
                    control_written(self.timers, n, value)
                },
                ..self
            }
        } else if off == reg::VCOUNT || off == reg::KEYINPUT {
            // Read-only.
            self
        } else if off == reg::DISPSTAT {
            // Bits 2:0 are status flags owned by the PPU.
            self.with_stored(
                off,
                (value & !0x7u16) | (half_at(self.raw, reg::DISPSTAT as int) & 0x7),
            )
        } else if off == reg::IF {
            // Writing `1` acknowledges (clears) the corresponding bit.
            self.with_stored(off, half_at(self.raw, reg::IF as int) & !value)
        } else {
            self.with_stored(off, value)
        }
    }

    /// The block after a halfword is written at `offset`.
    pub open spec fn write16(self, offset: u32, value: u16) -> IoView {
        self.register_written(offset & !1u32, value)
    }

    /// The block after a byte is written at `offset`: it is merged into the
    /// containing halfword, except where that would lose or acknowledge
    /// other bits.
    pub open spec fn write8(self, offset: u32, value: u8) -> IoView {
        let aligned = offset & !1u32;
        let shift = ((offset & 1) * 8) as u16;
        if offset == reg::HALTCNT {
            IoView { halt_requested: true, ..self }
        } else if owns(offset) {
            IoView { apu: self.apu.write8(offset, value), ..self }
        } else if aligned == reg::IF {
            self.write16(aligned, (value as u16) << shift)
        } else {
            self.write16(aligned, merged_byte(self.read16(aligned), offset, value))
        }
    }

    /// The block after a word is written at `offset`.
    pub open spec fn write32(self, offset: u32, value: u32) -> IoView {
        let aligned = offset & !3u32;
        self.write16(aligned, value as u16).write16((aligned + 2) as u32, (value >> 16) as u16)
    }

    /// The block with a register's stored value replaced, bypassing write
    /// semantics.
    pub open spec fn set_raw16(self, offset: u32, value: u16) -> IoView {
        let off = offset & !1u32;
        if off < IO_SIZE {
            self.with_stored(off, value)
        } else {
            self
        }
    }

    /// The pending interrupts.
    pub open spec fn flags(self) -> u16 {
        self.read16(reg::IF)
    }

    /// The block after `source` is raised.
    #[verifier::opaque]
    pub open spec fn request_interrupt(self, source: Interrupt) -> IoView {
        self.set_raw16(reg::IF, self.flags() | interrupt_mask(source))
    }
}

/// The offsets of registers with a meaning of their own are even.
pub(crate) proof fn lemma_register_offsets()
    ensures
        0x004u32 & !1u32 == 0x004,
        0x006u32 & !1u32 == 0x006,
        0x130u32 & !1u32 == 0x130,
        0x202u32 & !1u32 == 0x202,
{
    crate::bits::constant_facts();
}

impl Clone for IoRegisters {
    fn clone(&self) -> (copy: Self)
        ensures
            copy@ == self@,
            self.wf() ==> copy.wf(),
    {
        let raw = self.raw.clone();
        assert(raw@ =~= self.raw@);
        Self {
            raw,
            keyinput: self.keyinput,
            halt_requested: self.halt_requested,
            timers: self.timers,
            dma: self.dma,
            apu: self.apu.clone(),
        }
    }
}

impl Default for IoRegisters {
    fn default() -> (io: Self)
        ensures
            io.wf(),
            io@ == IoView::initial(),
    {
        Self::new()
    }
}

impl IoRegisters {
    /// The block has its size and its units are well-formed.
    pub open spec fn wf(&self) -> bool {
        &&& self.raw@.len() == IO_SIZE
        &&& self.timers.wf()
        &&& self.apu.wf()
    }

    /// Creates a register block in its power-on state.
    #[must_use]
    pub fn new() -> (io: Self)
        ensures
            io.wf(),
            io@ == IoView::initial(),
    {
        let io = Self {
            raw: vec![0u8; IO_SIZE],
            keyinput: KEYINPUT_ALL_RELEASED,
            halt_requested: false,
            timers: Timers::new(),
            dma: Dma::new(),
            apu: Apu::new(),
        };
        assert(io@.raw =~= IoView::initial().raw);
        io
    }

    /// Reads a halfword register. `offset` is forced even; offsets beyond
    /// the block read as `0`.
    #[must_use]
    pub fn read16(&self, offset: u32) -> (value: u16)
        requires
            self.wf(),
        ensures
            value == self@.read16(offset),
    {
        proof {
            reveal(IoView::register);
            alignment_facts();
        }
        let off: u32 = offset & !1u32;
        if off >= IO_SIZE as u32 {
            return 0;
        }
        if off >= REGISTER_FIRST && off <= REGISTER_LAST {
            return self.apu.read16(off);
        }
        if off >= DMA_FIRST && off <= DMA_LAST {
            let n: usize = ((off - DMA_FIRST) / 12) as usize;
            let sub: u32 = (off - DMA_FIRST) % 12;
            // Only the control halfword is readable.
            return if sub == 10 {
                self.dma.channels[n].control
            } else {
                0
            };
        }
        if off >= TIMER_FIRST && off <= TIMER_LAST {
            let n: usize = ((off - TIMER_FIRST) / 4) as usize;
            let sub: u32 = (off - TIMER_FIRST) % 4;
            return if sub == 0 {
                self.timers.counter(n)
            } else {
                self.timers.control(n)
            };
        }
        match off {
            reg::KEYINPUT => self.keyinput,
            _ => get16(self.raw.as_slice(), off as usize),
        }
    }

    /// Reads a byte register.
    #[must_use]
    pub fn read8(&self, offset: u32) -> (value: u8)
        requires
            self.wf(),
        ensures
            value == self@.read8(offset),
    {
        (self.read16(offset) >> (((offset & 1) * 8) as u16)) as u8
    }

    /// Reads a word as two consecutive halfword registers.
    #[must_use]
    pub fn read32(&self, offset: u32) -> (value: u32)
        requires
            self.wf(),
        ensures
            value == self@.read32(offset),
    {
        proof {
            alignment_facts();
        }
        let aligned: u32 = offset & !3u32;
        (self.read16(aligned) as u32) | ((self.read16(aligned + 2) as u32) << 16)
    }

    /// Writes a DMA register.
    fn write_dma(&mut self, off: u32, value: u16)
        requires
            old(self).wf(),
            DMA_FIRST <= off <= DMA_LAST,
            off % 2 == 0,
        ensures
            final(self).wf(),
            final(self)@ == (IoView {
                dma: dma_written(
                    old(self)@.dma,
                    dma_channel_of(off),
                    dma_field_of(off),
                    value,
                ),
                ..old(self)@
            }),
    {
        let n: usize = ((off - DMA_FIRST) / 12) as usize;
        let sub: u32 = (off - DMA_FIRST) % 12;
        if sub >= 10 {
            self.dma.write_control(n, value);
            return;
        }
        let mut ch = self.dma.channels[n];
        match sub {
            0 => ch.source = (ch.source & 0xFFFF_0000) | (value as u32),
            2 => ch.source = (ch.source & 0xFFFF) | ((value as u32) << 16),
            4 => ch.dest = (ch.dest & 0xFFFF_0000) | (value as u32),
            6 => ch.dest = (ch.dest & 0xFFFF) | ((value as u32) << 16),
            _ => ch.count = value,
        }
        self.dma.channels[n] = ch;
    }

    /// Writes a halfword register, applying per-register semantics.
    pub fn write16(&mut self, offset: u32, value: u16)
        requires
            old(self).wf(),
        ensures
            final(self).wf(),
            final(self)@ == old(self)@.write16(offset, value),
    {
        proof {
            reveal(IoView::register);
            reveal(IoView::register_written);
            alignment_facts();
            lemma_register_offsets();
        }
        let off: u32 = offset & !1u32;
        if off >= IO_SIZE as u32 {
            return;
        }
        if off >= REGISTER_FIRST && off <= REGISTER_LAST {
            self.apu.write16(off, value);
            return;
        }
        if off >= DMA_FIRST && off <= DMA_LAST {
            self.write_dma(off, value);
            return;
        }
        if off >= TIMER_FIRST && off <= TIMER_LAST {
            let n: usize = ((off - TIMER_FIRST) / 4) as usize;
            let sub: u32 = (off - TIMER_FIRST) % 4;
            if sub == 0 {
                self.timers.set_reload(n, value);
            } else {
                self.timers.set_control(n, value);
            }
            return;
        }
        let stored: u16 = match off {
            // Read-only.
            reg::VCOUNT | reg::KEYINPUT => {
                return;
            },
            // Bits 2:0 are status flags owned by the PPU.
            reg::DISPSTAT => (value & !0x7u16) | (self.read16(reg::DISPSTAT) & 0x7),
            // Writing `1` acknowledges (clears) the corresponding bit.
            reg::IF => self.read16(reg::IF) & !value,
            _ => value,
        };
        set16(&mut self.raw, off as usize, stored);
    }

    /// Writes a byte register by merging it into the containing halfword.
    pub fn write8(&mut self, offset: u32, value: u8)
        requires
            old(self).wf(),
        ensures
            final(self).wf(),
            final(self)@ == old(self)@.write8(offset, value),
    {
        // HALTCNT: bit 7 clear = halt, set = stop (treated as halt).
        if offset == reg::HALTCNT {
            self.halt_requested = true;
            return;
        }
        if offset >= REGISTER_FIRST && offset <= REGISTER_LAST {
            // Sound registers have write-only fields that a read-merge
            // would lose, and FIFO bytes are pushed rather than stored.
            self.apu.write8(offset, value);
            return;
        }
        let aligned: u32 = offset & !1u32;
        let shift: u16 = ((offset & 1) * 8) as u16;
        let half: u16 = match aligned {
            // Merging would re-acknowledge bits in the other byte.
            reg::IF => (value as u16) << shift,
            _ => merge_byte(self.read16(aligned), offset, value),
        };
        self.write16(aligned, half);
    }

    /// Writes a word as two consecutive halfword registers.
    pub fn write32(&mut self, offset: u32, value: u32)
        requires
            old(self).wf(),
        ensures
            final(self).wf(),
            final(self)@ == old(self)@.write32(offset, value),
    {
        proof {
            alignment_facts();
        }
        let aligned: u32 = offset & !3u32;
        self.write16(aligned, value as u16);
        self.write16(aligned + 2, (value >> 16) as u16);
    }

    /// Raises `source` in `IF`. Whether it reaches the CPU depends on `IE`
    /// and `IME`, which the interrupt controller checks separately.
    pub fn request_interrupt(&mut self, source: Interrupt)
        requires
            old(self).wf(),
        ensures
            final(self).wf(),
            final(self)@ == old(self)@.request_interrupt(source),
    {
        proof {
            reveal(IoView::request_interrupt);
        }
        let current: u16 = self.read16(reg::IF);
        self.set_raw16(reg::IF, current | source.mask());
    }

    /// Whether an interrupt is pending and enabled: `IME`, `IE & IF`.
    #[must_use]
    pub fn irq_pending(&self) -> (pending: bool)
        requires
            self.wf(),
        ensures
            pending == (self@.read16(reg::IME) & 1 != 0 && self@.read16(reg::IE) & self@.read16(
                reg::IF,
            ) != 0),
    {
        self.read16(reg::IME) & 1 != 0 && self.read16(reg::IE) & self.read16(reg::IF) != 0
    }

    /// Sets a register's stored value directly, bypassing write semantics.
    ///
    /// Intended for hardware units updating their own read-only registers
    /// (e.g. the PPU advancing `VCOUNT`).
    pub fn set_raw16(&mut self, offset: u32, value: u16)
        requires
            old(self).wf(),
        ensures
            final(self).wf(),
            final(self)@ == old(self)@.set_raw16(offset, value),
    {
        proof {
            alignment_facts();
        }
        let off: u32 = offset & !1u32;
        if off < IO_SIZE as u32 {
            set16(&mut self.raw, off as usize, value);
        }
    }
}

} // verus!
