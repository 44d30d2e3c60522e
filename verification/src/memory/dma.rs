//! DMA controller registers and transfer engine.
//!
//! Register state (source, destination, count, control) lives here. The
//! transfer itself needs the whole bus, so it is a free function the
//! system calls when a channel is triggered.

use vstd::prelude::*;

use crate::apu::reg::{FIFO_A, FIFO_B};
use crate::memory::base;
use crate::memory::interrupt::Interrupt;
use crate::memory::timers::bit_if;
use crate::memory::Memory;

verus! {

broadcast use crate::bits::group_mask_bounds;

/// Words a sound FIFO refill moves, whatever the channel's count says.
pub const FIFO_TRANSFER_WORDS: u32 = 4;

/// When a channel starts its transfer (`DMAxCNT_H` bits 13:12).
#[derive(Debug, Clone, Copy, PartialEq, Eq, Structural)]
pub enum Timing {
    /// As soon as it is enabled.
    Immediate,
    /// At the start of each VBlank.
    VBlank,
    /// At the start of each visible line's HBlank.
    HBlank,
    /// Sound FIFO refill (channels 1–2) or video capture (channel 3; not
    /// emulated).
    Special,
}

/// One DMA channel.
#[derive(Debug, Clone, Copy, PartialEq, Eq, Structural)]
pub struct Channel {
    /// `DMAxSAD` as written.
    pub source: u32,
    /// `DMAxDAD` as written.
    pub dest: u32,
    /// `DMAxCNT_L` as written.
    pub count: u16,
    /// `DMAxCNT_H`.
    pub control: u16,
    /// Internal source address, latched on enable.
    pub latched_source: u32,
    /// Internal destination address, latched on enable / reload.
    pub latched_dest: u32,
}

/// Control bit: the channel is armed.
pub const DMA_ENABLE: u16 = 1 << 15;
/// Control bit: completion raises an interrupt.
pub const DMA_IRQ: u16 = 1 << 14;
/// Control bit: keep running on later triggers.
pub const DMA_REPEAT: u16 = 1 << 9;
/// Control bit: move words rather than halfwords.
pub const DMA_WORD: u16 = 1 << 10;

impl Default for Channel {
    fn default() -> (channel: Self)
        ensures
            channel == Self::idle(),
    {
        Channel { source: 0, dest: 0, count: 0, control: 0, latched_source: 0, latched_dest: 0 }
    }
}

/// The trigger condition that a control register selects.
pub open spec fn timing_of(control: u16) -> Timing {
    let field = (control >> 12) & 0b11;
    if field == 0 {
        Timing::Immediate
    } else if field == 1 {
        Timing::VBlank
    } else if field == 2 {
        Timing::HBlank
    } else {
        Timing::Special
    }
}

impl Channel {
    /// The power-on channel.
    pub open spec fn idle() -> Channel {
        Channel { source: 0, dest: 0, count: 0, control: 0, latched_source: 0, latched_dest: 0 }
    }

    /// Whether the channel is armed.
    pub open spec fn is_enabled(self) -> bool {
        self.control & DMA_ENABLE != 0
    }

    /// Units that a transfer of this channel, number `channel`, moves.
    pub open spec fn units(self, channel: int) -> u32 {
        if self.count != 0 {
            self.count as u32
        } else if channel == 3 {
            0x1_0000
        } else {
            0x4000
        }
    }

    /// The channel after its control register is written. A rising enable
    /// bit latches the addresses.
    pub open spec fn control_written(self, n: int, value: u16) -> Channel {
        let set = Channel {
            control: value & if n == 0 {
                0xF7E0u16
            } else {
                0xFFE0
            },
            ..self
        };
        if !self.is_enabled() && set.is_enabled() {
            Channel {
                latched_source: self.source & if n == 0 {
                    0x07FF_FFFFu32
                } else {
                    0x0FFF_FFFF
                },
                latched_dest: self.dest & if n == 3 {
                    0x0FFF_FFFFu32
                } else {
                    0x07FF_FFFF
                },
                ..set
            }
        } else {
            set
        }
    }

    /// The `(source, destination)` the next transfer will start from.
    #[must_use]
    pub fn latched_addresses(&self) -> (addresses: (u32, u32))
        ensures
            addresses == (self.latched_source, self.latched_dest),
    {
        (self.latched_source, self.latched_dest)
    }

    /// Whether the channel is armed.
    #[must_use]
    pub fn enabled(&self) -> (enabled: bool)
        ensures
            enabled == self.is_enabled(),
    {
        self.control & DMA_ENABLE != 0
    }

    /// The trigger condition.
    #[must_use]
    pub fn timing(&self) -> (timing: Timing)
        ensures
            timing == timing_of(self.control),
    {
        let field: u16 = (self.control >> 12) & 0b11;
        match field {
            0 => Timing::Immediate,
            1 => Timing::VBlank,
            2 => Timing::HBlank,
            _ => Timing::Special,
        }
    }

    /// Number of units to transfer; `0` means the maximum.
    #[must_use]
    pub fn unit_count(&self, channel: usize) -> (units: u32)
        ensures
            units == self.units(channel as int),
            units <= 0x1_0000,
    {
        let max: u32 = if channel == 3 {
            0x1_0000
        } else {
            0x4000
        };
        if self.count == 0 {
            max
        } else {
            self.count as u32
        }
    }
}

/// The four channels plus the "ready to run" bookkeeping.
#[derive(Debug, Clone, Copy)]
pub struct Dma {
    /// Channels 0–3.
    pub channels: [Channel; 4],
    /// Bit mask of channels that must run before the CPU continues.
    pub pending: u8,
}

/// The mathematical DMA controller.
#[verifier::ext_equal]
pub struct DmaView {
    /// Channels 0–3.
    pub channels: Seq<Channel>,
    /// Channels that must run.
    pub pending: u8,
}

impl View for Dma {
    type V = DmaView;

    open spec fn view(&self) -> DmaView {
        DmaView { channels: self.channels@, pending: self.pending }
    }
}

impl DmaView {
    /// All channels idle.
    pub open spec fn initial() -> DmaView {
        DmaView { channels: Seq::new(4, |n: int| Channel::idle()), pending: 0 }
    }

    /// The controller with channel `n` replaced.
    pub open spec fn with_channel(self, n: int, channel: Channel) -> DmaView {
        DmaView { channels: self.channels.update(n, channel), ..self }
    }

    /// The controller after `DMAxCNT_H` of channel `n` is written: a rising
    /// enable bit with immediate timing schedules the transfer.
    pub open spec fn write_control(self, n: int, value: u16) -> DmaView {
        let channel = self.channels[n].control_written(n, value);
        let starts = !self.channels[n].is_enabled() && channel.is_enabled() && timing_of(
            channel.control,
        ) is Immediate;
        DmaView {
            channels: self.channels.update(n, channel),
            pending: if starts {
                self.pending | (1u8 << (n as u8))
            } else {
                self.pending
            },
        }
    }

    /// Whether channel `n` is armed with `timing`.
    pub open spec fn waits_for(self, n: int, timing: Timing) -> bool {
        self.channels[n].is_enabled() && timing_of(self.channels[n].control) == timing
    }

    /// The controller after every channel armed with `timing` is scheduled.
    pub open spec fn trigger(self, timing: Timing) -> DmaView {
        DmaView {
            pending: self.pending | bit_if(self.waits_for(0, timing), 0) | bit_if(
                self.waits_for(1, timing),
                1,
            ) | bit_if(self.waits_for(2, timing), 2) | bit_if(self.waits_for(3, timing), 3),
            ..self
        }
    }

    /// Whether channel `n` refills the FIFO at `target`.
    pub open spec fn feeds(self, n: int, target: u32) -> bool {
        self.waits_for(n, Timing::Special) && self.channels[n].latched_dest == target
    }

    /// The controller after the refill of FIFO `fifo` is scheduled.
    pub open spec fn trigger_fifo(self, fifo: usize) -> DmaView {
        let target = fifo_address(fifo);
        DmaView {
            pending: self.pending | bit_if(self.feeds(1, target), 1) | bit_if(
                self.feeds(2, target),
                2,
            ),
            ..self
        }
    }
}

/// The address of FIFO `fifo` (0 = A, otherwise B).
pub open spec fn fifo_address(fifo: usize) -> u32 {
    if fifo == 0 {
        0x0400_00A0
    } else {
        0x0400_00A4
    }
}

impl Default for Dma {
    fn default() -> (dma: Self)
        ensures
            dma@ == DmaView::initial(),
    {
        Self::new()
    }
}

proof fn lemma_or_zero(x: u8)
    ensures
        x | 0 == x,
{
    crate::bits::small_facts(x, 0, 0, 0);
}

impl Dma {
    /// All channels idle.
    #[must_use]
    pub fn new() -> (dma: Self)
        ensures
            dma@ == DmaView::initial(),
    {
        let idle = Channel::default();
        let dma = Self { channels: [idle, idle, idle, idle], pending: 0 };
        assert(dma@.channels =~= DmaView::initial().channels);
        dma
    }

    /// Writes `DMAxCNT_H`. A rising enable bit latches the addresses and,
    /// for immediate timing, schedules the transfer.
    pub fn write_control(&mut self, n: usize, value: u16)
        requires
            n < 4,
        ensures
            final(self)@ == old(self)@.write_control(n as int, value),
    {
        let mut ch = self.channels[n];
        let was_enabled = ch.enabled();
        let writable: u16 = if n == 0 {
            0xF7E0
        } else {
            0xFFE0
        };
        ch.control = value & writable;
        if !was_enabled && ch.enabled() {
            let source_mask: u32 = if n == 0 {
                0x07FF_FFFF
            } else {
                0x0FFF_FFFF
            };
            let dest_mask: u32 = if n == 3 {
                0x0FFF_FFFF
            } else {
                0x07FF_FFFF
            };
            ch.latched_source = ch.source & source_mask;
            ch.latched_dest = ch.dest & dest_mask;
            if ch.timing() == Timing::Immediate {
                self.pending = self.pending | (1u8 << (n as u8));
            }
        }
        self.channels[n] = ch;
    }

    /// Schedules channel `n` if it is armed with `timing`.
    fn schedule(&mut self, n: u8, timing: Timing)
        requires
            n < 4,
        ensures
            final(self)@ == (DmaView {
                pending: old(self)@.pending | bit_if(old(self)@.waits_for(n as int, timing), n),
                ..old(self)@
            }),
    {
        proof {
            lemma_or_zero(self.pending);
        }
        let ch = self.channels[n as usize];
        if ch.enabled() && ch.timing() == timing {
            self.pending = self.pending | (1u8 << n);
        }
    }

    /// Schedules every enabled channel with the given timing.
    pub fn trigger(&mut self, timing: Timing)
        ensures
            final(self)@ == old(self)@.trigger(timing),
    {
        self.schedule(0, timing);
        self.schedule(1, timing);
        self.schedule(2, timing);
        self.schedule(3, timing);
    }

    /// Schedules the refill of sound FIFO `fifo` (0 = A, 1 = B): channels
    /// 1 and 2 in special timing whose destination is that FIFO.
    pub fn trigger_fifo(&mut self, fifo: usize)
        ensures
            final(self)@ == old(self)@.trigger_fifo(fifo),
    {
        let target: u32 = base::IO + if fifo == 0 {
            FIFO_A
        } else {
            FIFO_B
        };
        proof {
            lemma_or_zero(self.pending);
            lemma_or_zero(self.pending | (1u8 << 1u8));
        }
        if self.channels[1].latched_dest == target {
            self.schedule(1, Timing::Special);
        }
        proof {
            lemma_or_zero(self.pending);
        }
        if self.channels[2].latched_dest == target {
            self.schedule(2, Timing::Special);
        }
    }

    /// Takes the bit mask of channels waiting to run (bit `n` = channel `n`).
    pub fn take_pending(&mut self) -> (pending: u8)
        ensures
            pending == old(self)@.pending,
            final(self)@ == (DmaView { pending: 0, ..old(self)@ }),
    {
        let pending: u8 = self.pending;
        self.pending = 0;
        pending
    }
}

/// An address after one unit, under address-control mode `control`:
/// 0 = increment, 1 = decrement, 2 = fixed, 3 = increment (destination
/// reload is handled by the caller).
pub open spec fn stepped(address: u32, control: u16, unit: u32) -> u32 {
    if control == 1 {
        address.wrapping_sub(unit)
    } else if control == 2 {
        address
    } else {
        address.wrapping_add(unit)
    }
}

/// Applies an address-control mode.
#[inline]
fn step(address: u32, control: u16, unit: u32) -> (next: u32)
    ensures
        next == stepped(address, control, unit),
{
    match control {
        1 => address.wrapping_sub(unit),
        2 => address,
        _ => address.wrapping_add(unit),
    }
}

/// What a transfer moves and how.
pub struct Transfer {
    /// Words rather than halfwords.
    pub word: bool,
    /// First source address.
    pub source: u32,
    /// First destination address.
    pub dest: u32,
    /// Source address control.
    pub source_control: u16,
    /// Destination address control.
    pub dest_control: u16,
}

impl Transfer {
    /// Bytes per unit.
    pub open spec fn unit(self) -> u32 {
        if self.word {
            4
        } else {
            2
        }
    }

    /// The source address of unit `i`.
    pub open spec fn source_at(self, i: int) -> u32
        decreases i,
    {
        if i <= 0 {
            self.source
        } else {
            stepped(self.source_at(i - 1), self.source_control, self.unit())
        }
    }

    /// The destination address of unit `i`.
    pub open spec fn dest_at(self, i: int) -> u32
        decreases i,
    {
        if i <= 0 {
            self.dest
        } else {
            stepped(self.dest_at(i - 1), self.dest_control, self.unit())
        }
    }

    /// Memory after one unit is moved from `source` to `dest`.
    pub open spec fn moved<M: Memory>(self, s: M::State, source: u32, dest: u32) -> M::State {
        if self.word {
            M::stored32(M::loaded32(s, source), dest, M::value32(s, source))
        } else {
            M::stored16(M::loaded16(s, source), dest, M::value16(s, source))
        }
    }

    /// Memory after `count` units are moved.
    pub open spec fn run<M: Memory>(self, s: M::State, count: int) -> M::State
        decreases count,
    {
        if count <= 0 {
            s
        } else {
            self.moved::<M>(
                self.run::<M>(s, count - 1),
                self.source_at(count - 1),
                self.dest_at(count - 1),
            )
        }
    }
}

impl Channel {
    /// Whether the channel refills a sound FIFO: always four words to a
    /// fixed destination.
    pub open spec fn is_fifo(self) -> bool {
        timing_of(self.control) is Special
    }

    /// Whether running channel `n` moves anything: it is armed and is not
    /// the video capture of channel 3, which is not emulated.
    pub open spec fn runs(self, n: int) -> bool {
        self.is_enabled() && !(self.is_fifo() && n == 3)
    }

    /// The transfer that the channel performs.
    pub open spec fn transfer(self) -> Transfer {
        let word = self.is_fifo() || self.control & DMA_WORD != 0;
        let low: u32 = if word {
            3
        } else {
            1
        };
        Transfer {
            word,
            source: self.latched_source & !low,
            dest: self.latched_dest & !low,
            source_control: (self.control >> 7) & 0b11,
            dest_control: if self.is_fifo() {
                2
            } else {
                (self.control >> 5) & 0b11
            },
        }
    }

    /// The units that channel `n` moves.
    pub open spec fn transfer_units(self, n: int) -> u32 {
        if self.is_fifo() {
            FIFO_TRANSFER_WORDS
        } else {
            self.units(n)
        }
    }

    /// Whether the channel stays armed after a transfer.
    pub open spec fn repeats(self) -> bool {
        self.is_fifo() || (self.control & DMA_REPEAT != 0 && !(timing_of(
            self.control,
        ) is Immediate))
    }

    /// The channel after its transfer, as number `n`. A repeating channel
    /// stays armed and, in mode 3, reloads its destination.
    pub open spec fn transferred(self, n: int) -> Channel {
        let t = self.transfer();
        let units = self.transfer_units(n) as int;
        if self.repeats() {
            Channel {
                latched_source: t.source_at(units),
                latched_dest: if t.dest_control == 3 {
                    self.dest
                } else {
                    t.dest_at(units)
                },
                ..self
            }
        } else {
            Channel {
                latched_source: t.source_at(units),
                latched_dest: t.dest_at(units),
                control: self.control & !DMA_ENABLE,
                ..self
            }
        }
    }
}

/// The interrupt source of channel `n`.
pub open spec fn dma_interrupt(n: int) -> Interrupt {
    if n == 0 {
        Interrupt::Dma0
    } else if n == 1 {
        Interrupt::Dma1
    } else if n == 2 {
        Interrupt::Dma2
    } else {
        Interrupt::Dma3
    }
}

impl DmaView {
    /// The controller after channel `n` runs.
    pub open spec fn ran(self, n: int) -> DmaView {
        if self.channels[n].runs(n) {
            self.with_channel(n, self.channels[n].transferred(n))
        } else {
            self
        }
    }

    /// Memory after channel `n` runs.
    pub open spec fn ran_memory<M: Memory>(self, n: int, s: M::State) -> M::State {
        let ch = self.channels[n];
        if ch.runs(n) {
            ch.transfer().run::<M>(s, ch.transfer_units(n) as int)
        } else {
            s
        }
    }

    /// The interrupt that channel `n` raises on completion.
    pub open spec fn completion(self, n: int) -> Option<Interrupt> {
        if self.channels[n].runs(n) && self.channels[n].transferred(n).control & DMA_IRQ != 0 {
            Some(dma_interrupt(n))
        } else {
            None
        }
    }
}

/// Performs channel `n`'s transfer on `mem`. Returns the interrupt to raise
/// on completion, if the channel asks for one.
pub fn run<M: Memory>(dma: &mut Dma, n: usize, mem: &mut M) -> (irq: Option<Interrupt>)
    requires
        n < 4,
        old(mem).wf(),
    ensures
        final(mem).wf(),
        final(dma)@ == old(dma)@.ran(n as int),
        final(mem).state() == old(dma)@.ran_memory::<M>(n as int, old(mem).state()),
        irq == old(dma)@.completion(n as int),
{
    let mut ch = dma.channels[n];
    if !ch.enabled() {
        return None;
    }
    let fifo = ch.timing() == Timing::Special;
    if fifo && n == 3 {
        // Video capture: not emulated. Leave the channel armed so software
        // sees it as running, but move nothing.
        return None;
    }
    let ghost t = ch.transfer();
    let ghost s0 = mem.state();

    // A FIFO refill is always four words to a fixed destination.
    let word = fifo || ch.control & DMA_WORD != 0;
    let unit: u32 = if word {
        4
    } else {
        2
    };
    let count: u32 = if fifo {
        FIFO_TRANSFER_WORDS
    } else {
        ch.unit_count(n)
    };
    let src_ctrl: u16 = (ch.control >> 7) & 0b11;
    let dst_ctrl: u16 = if fifo {
        2
    } else {
        (ch.control >> 5) & 0b11
    };

    let mut src: u32 = ch.latched_source & !(unit - 1);
    let mut dst: u32 = ch.latched_dest & !(unit - 1);
    for i in 0..count
        invariant
            mem.wf(),
            t.word == word,
            t.unit() == unit,
            t.source_control == src_ctrl,
            t.dest_control == dst_ctrl,
            src == t.source_at(i as int),
            dst == t.dest_at(i as int),
            mem.state() == t.run::<M>(s0, i as int),
    {
        if word {
            let value: u32 = mem.read32(src);
            mem.write32(dst, value);
        } else {
            let value: u16 = mem.read16(src);
            mem.write16(dst, value);
        }
        src = step(src, src_ctrl, unit);
        dst = step(dst, dst_ctrl, unit);
    }
    ch.latched_source = src;

    if fifo || (ch.control & DMA_REPEAT != 0 && ch.timing() != Timing::Immediate) {
        // Repeat: keep running on later triggers; dest reloads with mode 3.
        ch.latched_dest = if dst_ctrl == 3 {
            ch.dest
        } else {
            dst
        };
    } else {
        ch.latched_dest = dst;
        ch.control = ch.control & !DMA_ENABLE;
    }
    dma.channels[n] = ch;
    if ch.control & DMA_IRQ != 0 {
        Some(
            match n {
                0 => Interrupt::Dma0,
                1 => Interrupt::Dma1,
                2 => Interrupt::Dma2,
                _ => Interrupt::Dma3,
            },
        )
    } else {
        None
    }
}

} // verus!
