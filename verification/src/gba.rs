//! The whole system: CPU, bus and PPU wired together.

use vstd::prelude::*;

use crate::apu::ApuView;
use crate::bios::{self, serviced, Outcome};
use crate::cpu::{after_fetch, Cpu, CpuView, Mode};
use crate::error::Result;
use crate::memory::bus::BusView;
use crate::memory::cartridge::CartridgeView;
use crate::memory::dma::{self, Channel, Dma, DmaView, Timing};
use crate::memory::gpio::{DateTime, GpioView};
use crate::memory::io::{reg, IoRegisters, IoView};
use crate::memory::timers::{
    overflows_of, timer_interrupt, timer_irq, timers_stepped, Timer, Timers, TIMER_IRQ,
};
use crate::memory::laws::law_access_takes_time;
use crate::memory::{Bus, Cartridge, Memory};
use crate::ppu::laws::{cycles_to_vblank, law_vblank_comes_in_time};
use crate::ppu::{Framebuffer, Ppu, PpuView};

verus! {

/// Cycles the system skips at a time while the CPU is halted. Small
/// enough that HBlank/VBlank events are not noticeably delayed.
pub const HALT_STEP: u32 = 32;

/// State of a pending `IntrWait`/`VBlankIntrWait` call.
#[derive(Debug, Clone, Copy, PartialEq, Eq, Structural)]
pub struct IntrWait {
    /// The interrupts it waits for.
    pub mask: u16,
    /// The address the call returns to.
    pub resume_pc: u32,
}

/// A Game Boy Advance.
#[derive(Debug)]
pub struct Gba {
    /// The ARM7TDMI.
    pub cpu: Cpu,
    /// Memory and memory-mapped devices.
    pub bus: Bus,
    /// The LCD controller.
    pub ppu: Ppu,
    /// An in-progress `IntrWait` BIOS call: the interrupt mask it waits for
    /// and the address the call returns to.
    ///
    /// The real BIOS loops "halt; run the game's IRQ handler; check the
    /// flag word" until a matching flag appears. We mirror that: whenever
    /// the CPU is about to execute the return address outside IRQ mode, the
    /// flag word is checked and the CPU is either released or halted again.
    pub intr_wait: Option<IntrWait>,
    /// Number of the last BIOS call that could not be serviced, for the
    /// frontend to report.
    pub last_unsupported_swi: Option<u8>,
}

/// The mathematical machine.
pub struct GbaView {
    /// The processor.
    pub cpu: CpuView,
    /// Memory and devices.
    pub bus: BusView,
    /// The LCD controller.
    pub ppu: PpuView,
    /// An in-progress wait call.
    pub intr_wait: Option<IntrWait>,
    /// The last BIOS call that could not be serviced.
    pub last_unsupported_swi: Option<u8>,
}

impl View for Gba {
    type V = GbaView;

    open spec fn view(&self) -> GbaView {
        GbaView {
            cpu: self.cpu@,
            bus: self.bus@,
            ppu: self.ppu@,
            intr_wait: self.intr_wait,
            last_unsupported_swi: self.last_unsupported_swi,
        }
    }
}

/// The I/O block with its DMA controller replaced.
pub open spec fn with_dma(io: IoView, dma: DmaView) -> IoView {
    IoView { dma, ..io }
}

/// The bus after the EEPROM has seen the length of the DMA that `channel`,
/// number `n`, is about to run.
pub open spec fn transfer_hinted(bus: BusView, channel: Channel, n: int) -> BusView {
    if channel.is_enabled() {
        bus.eeprom_hinted(channel.latched_source, channel.units(n)).eeprom_hinted(
            channel.latched_dest,
            channel.units(n),
        )
    } else {
        bus
    }
}

/// The bus after DMA channel `n` runs. The transfer needs the whole bus, so
/// the controller is moved out for its duration: what the transfer itself
/// writes to DMA registers is lost.
#[verifier::opaque]
pub open spec fn channel_ran(bus: BusView, n: int) -> BusView {
    let controller = bus.io.dma;
    let detached = bus.with_io(with_dma(bus.io, DmaView::initial()));
    let hinted = transfer_hinted(detached, controller.channels[n], n);
    let moved = controller.ran_memory::<Bus>(n, hinted);
    let attached = with_dma(moved.io, controller.ran(n));
    moved.with_io(
        match controller.completion(n) {
            Some(irq) => attached.request_interrupt(irq),
            None => attached,
        },
    )
}

/// The bus after the channels below `upto` that are in `pending` have run.
pub open spec fn channels_ran(bus: BusView, pending: u8, upto: int) -> BusView
    decreases upto,
{
    if upto <= 0 {
        bus
    } else {
        let before = channels_ran(bus, pending, upto - 1);
        if pending & (1u8 << ((upto - 1) as u8)) != 0 {
            channel_ran(before, upto - 1)
        } else {
            before
        }
    }
}

/// The bus after every triggered DMA channel has run.
#[verifier::opaque]
pub open spec fn dma_ran(bus: BusView) -> BusView {
    let taken = bus.with_io(with_dma(bus.io, DmaView { pending: 0, ..bus.io.dma }));
    channels_ran(taken, bus.io.dma.pending, 4)
}

/// The I/O block after the timers below `upto` raise the interrupts that
/// `cycles` on `before` call for.
pub open spec fn timer_irqs_raised(
    io: IoView,
    before: Seq<Timer>,
    cycles: u32,
    upto: int,
) -> IoView
    decreases upto,
{
    if upto <= 0 {
        io
    } else {
        let raised = timer_irqs_raised(io, before, cycles, upto - 1);
        if timer_irq(before, cycles, upto - 1) {
            raised.request_interrupt(timer_interrupt(upto - 1))
        } else {
            raised
        }
    }
}

/// `n` limited to 32 bits.
pub open spec fn limited_count(n: int) -> u32 {
    if n > u32::MAX {
        u32::MAX
    } else {
        n as u32
    }
}

/// The I/O block after timer `timer` overflowed `count` times: the FIFOs
/// that it clocks advance, and those that run low ask for a refill.
#[verifier::opaque]
pub open spec fn fifos_clocked(io: IoView, timer: usize, count: u32) -> IoView {
    let refills = io.apu.refills(timer, count);
    let dma_a = if refills == 1 || refills == 3 {
        io.dma.trigger_fifo(0)
    } else {
        io.dma
    };
    let dma_b = if refills == 2 || refills == 3 {
        dma_a.trigger_fifo(1)
    } else {
        dma_a
    };
    IoView { apu: io.apu.timer_overflowed(timer, count), dma: dma_b, ..io }
}

/// The I/O block after the timers and the sound unit advance by `cycles`.
#[verifier::opaque]
pub open spec fn units_stepped(io: IoView, cycles: u32) -> IoView {
    let before = io.timers;
    let counted = IoView { timers: timers_stepped(before, cycles), ..io };
    let raised = timer_irqs_raised(counted, before, cycles, 4);
    let clocked0 = fifos_clocked(raised, 0, limited_count(overflows_of(before, cycles, 0)));
    let clocked1 = fifos_clocked(clocked0, 1, limited_count(overflows_of(before, cycles, 1)));
    IoView { apu: clocked1.apu.step(cycles), ..clocked1 }
}

impl GbaView {
    /// The machine with its bus replaced.
    pub open spec fn with_bus(self, bus: BusView) -> GbaView {
        GbaView { bus, ..self }
    }

    /// The machine with its processor replaced.
    pub open spec fn with_cpu(self, cpu: CpuView) -> GbaView {
        GbaView { cpu, ..self }
    }

    /// The machine after BIOS call `number` is serviced.
    #[verifier::opaque]
    pub open spec fn swi_serviced(self, number: u8) -> GbaView {
        let (cpu, bus, outcome) = serviced::<Bus>(number, self.cpu, self.bus);
        let done = GbaView { cpu, bus, ..self };
        match outcome {
            Outcome::Done => done,
            Outcome::WaitForInterrupt { mask } => GbaView {
                intr_wait: Some(IntrWait { mask, resume_pc: cpu.next_pc() }),
                ..done
            },
            Outcome::Unsupported => GbaView { last_unsupported_swi: Some(number), ..done },
        }
    }

    /// Whether a wait call is to be looked at again: the CPU runs, outside
    /// IRQ mode, and is back at the call site.
    pub open spec fn wait_due(self) -> bool {
        self.intr_wait matches Some(wait) && !self.cpu.halted && !(self.cpu.regs.mode() is Irq)
            && self.cpu.next_pc() == wait.resume_pc
    }

    /// The machine after a pending wait call is looked at again: released if
    /// the game's handler flagged one of the awaited interrupts, halted
    /// again otherwise.
    #[verifier::opaque]
    pub open spec fn wait_checked(self) -> GbaView {
        if !self.wait_due() {
            self
        } else {
            let mask = (self.intr_wait->0).mask;
            let flags = Bus::value16(self.bus, bios::INTR_CHECK_FLAGS);
            let read = Bus::loaded16(self.bus, bios::INTR_CHECK_FLAGS);
            if flags & mask != 0 {
                GbaView {
                    bus: Bus::stored16(read, bios::INTR_CHECK_FLAGS, flags & !mask),
                    intr_wait: None,
                    ..self
                }
            } else {
                GbaView { bus: read, cpu: CpuView { halted: true, ..self.cpu }, ..self }
            }
        }
    }

    /// The machine after a requested halt is taken.
    pub open spec fn halt_taken(self) -> GbaView {
        if self.bus.io.halt_requested {
            GbaView {
                cpu: CpuView { halted: true, ..self.cpu },
                bus: self.bus.with_io(IoView { halt_requested: false, ..self.bus.io }),
                ..self
            }
        } else {
            self
        }
    }

    /// The machine after one instruction and the BIOS call it may have made,
    /// and the cycles it took.
    #[verifier::opaque]
    pub open spec fn instruction_run(self) -> (GbaView, u32) {
        let (cpu, bus, cycles) = self.cpu.step::<Bus>(self.bus);
        let stepped = GbaView { cpu: CpuView { pending_swi: None, ..cpu }, bus, ..self };
        let called = match cpu.pending_swi {
            Some(number) => stepped.swi_serviced(number),
            None => stepped,
        };
        (called.halt_taken(), cycles)
    }

    /// The machine after the PPU advances by `cycles` and triggers the DMA
    /// channels that wait for it, and whether a frame was completed.
    #[verifier::opaque]
    pub open spec fn ppu_run(self, cycles: u32) -> (GbaView, bool) {
        let (ppu, io, events) = self.ppu.step(cycles, self.bus.io, self.bus.video);
        let hblank = if events.hblank {
            io.dma.trigger(Timing::HBlank)
        } else {
            io.dma
        };
        let vblank = if events.vblank {
            hblank.trigger(Timing::VBlank)
        } else {
            hblank
        };
        (
            GbaView { ppu, bus: self.bus.with_io(with_dma(io, vblank)), ..self },
            events.vblank,
        )
    }

    /// The machine after interrupts are serviced: any enabled one wakes a
    /// halted CPU, even with `IME` off, and the handler is entered if the
    /// CPU accepts interrupts.
    #[verifier::opaque]
    pub open spec fn interrupts_serviced(self) -> GbaView {
        let io = self.bus.io;
        if io.read16(reg::IE) & io.read16(reg::IF) == 0 {
            self
        } else {
            let awake = CpuView { halted: false, ..self.cpu };
            if io.read16(reg::IME) & 1 != 0 && !awake.regs.cpsr.irq_disabled() {
                let (cpu, bus) = awake.raise_irq::<Bus>(self.bus);
                GbaView { cpu, bus, ..self }
            } else {
                self.with_cpu(awake)
            }
        }
    }

    /// The machine after its CPU has run one instruction, or has slept for
    /// a while, and the cycles that took.
    #[verifier::opaque]
    pub open spec fn cpu_run(self) -> (GbaView, u32) {
        let checked = self.wait_checked();
        if checked.cpu.halted {
            (checked, HALT_STEP)
        } else {
            checked.instruction_run()
        }
    }

    /// The machine after one step, and whether a frame was completed.
    #[verifier::opaque]
    pub open spec fn step(self) -> (GbaView, bool) {
        let (run, cycles) = self.cpu_run();
        let moved = run.with_bus(dma_ran(run.bus));
        let timed = moved.with_bus(moved.bus.with_io(units_stepped(moved.bus.io, cycles)));
        let (drawn, frame) = timed.ppu_run(cycles);
        let settled = drawn.with_bus(dma_ran(drawn.bus));
        (settled.interrupts_serviced(), frame)
    }

    /// The machine after `n` steps.
    pub open spec fn steps(self, n: nat) -> GbaView
        decreases n,
    {
        if n == 0 {
            self
        } else {
            self.steps((n - 1) as nat).step().0
        }
    }

    /// Whether step `n` completes a frame.
    pub open spec fn completes_frame(self, n: nat) -> bool {
        self.steps(n).step().1
    }

    /// The words of the exception stub put into the BIOS, up to `upto`.
    pub open spec fn stub_installed(bus: BusView, upto: int) -> BusView
        decreases upto,
    {
        if upto <= 0 {
            bus
        } else {
            let (address, word) = bios::IRQ_STUB@[upto - 1];
            Self::stub_installed(bus, upto - 1).bios_poked(address, word)
        }
    }

    /// A machine that has booted `cartridge` without a BIOS image.
    pub open spec fn booted(cartridge: CartridgeView) -> GbaView {
        let stubbed = Self::stub_installed(BusView::initial(cartridge), 7);
        let (cpu, bus) = CpuView { hle_swi: true, ..CpuView::initial() }.skip_bios::<Bus>(stubbed);
        GbaView {
            cpu,
            bus: bus.with_io(bus.io.write16(reg::POSTFLG, 1)),
            ppu: PpuView::initial(),
            intr_wait: None,
            last_unsupported_swi: None,
        }
    }

    /// The machine after BIOS image `image` is installed.
    pub open spec fn bios_loaded(self, image: Seq<u8>) -> GbaView {
        let (cpu, bus) = CpuView { hle_swi: false, ..self.cpu }.reset::<Bus>(
            BusView { bios: image, ..self.bus },
        );
        GbaView { cpu, bus, intr_wait: None, ..self }
    }
}

/// An instruction fetch takes at least one cycle.
proof fn lemma_fetch_takes_time(bus: Bus, thumb: bool, pc: u32)
    requires
        bus.wf(),
    ensures
        after_fetch::<Bus>(thumb, bus@, pc).access_cycles >= 1,
{
    law_access_takes_time(bus@, pc & !1u32, 2);
    law_access_takes_time(bus@, pc & !3u32, 4);
}

/// Raising an interrupt leaves the timers alone.
proof fn lemma_raising_keeps_timers(io: IoView, before: Seq<Timer>, cycles: u32, upto: int)
    ensures
        timer_irqs_raised(io, before, cycles, upto).timers == io.timers,
    decreases upto,
{
    reveal(IoView::request_interrupt);
    if upto > 0 {
        lemma_raising_keeps_timers(io, before, cycles, upto - 1);
    }
}

/// Advances the timers and the sound unit.
fn step_units(io: &mut IoRegisters, cycles: u32)
    requires
        old(io).wf(),
    ensures
        final(io).wf(),
        final(io)@ == units_stepped(old(io)@, cycles),
{
    proof {
        reveal(units_stepped);
    }
    let ghost before = io@.timers;
    let overflows: [u64; 4] = io.timers.advance(cycles);
    let ghost counted = io@;
    for n in 0..4usize
        invariant
            io.wf(),
            before.len() == 4,
            counted.timers == timers_stepped(before, cycles),
            forall|k: int|
                0 <= k < 4 ==> #[trigger] overflows@[k] == overflows_of(before, cycles, k),
            io@ == timer_irqs_raised(counted, before, cycles, n as int),
    {
        proof {
            assert(overflows@[n as int] == overflows_of(before, cycles, n as int));
            assert(counted.timers[n as int].control == before[n as int].control);
            lemma_raising_keeps_timers(counted, before, cycles, n as int);
        }
        if overflows[n] > 0 && io.timers.control(n) & TIMER_IRQ != 0 {
            io.request_interrupt(Timers::interrupt(n));
        }
    }
    assert(overflows@[0] == overflows_of(before, cycles, 0));
    assert(overflows@[1] == overflows_of(before, cycles, 1));
    clock_fifos(io, 0, overflows[0]);
    clock_fifos(io, 1, overflows[1]);
    io.apu.step(cycles);
}

/// Advances the sound FIFOs that timer `timer` clocks, and schedules the
/// refill of those that run low.
fn clock_fifos(io: &mut IoRegisters, timer: usize, overflows: u64)
    requires
        old(io).wf(),
    ensures
        final(io).wf(),
        final(io)@ == fifos_clocked(old(io)@, timer, limited_count(overflows as int)),
{
    proof {
        reveal(fifos_clocked);
    }
    let count: u32 = if overflows > u32::MAX as u64 {
        u32::MAX
    } else {
        overflows as u32
    };
    let refill: u8 = io.apu.timer_overflow(timer, count);
    if refill == 1 || refill == 3 {
        io.dma.trigger_fifo(0);
    }
    if refill == 2 || refill == 3 {
        io.dma.trigger_fifo(1);
    }
}

/// Runs every DMA channel that has been triggered. Transfers are
/// instantaneous; the CPU is simply not stepped in the meantime.
fn run_dma(bus: &mut Bus)
    requires
        old(bus).wf(),
    ensures
        final(bus).wf(),
        final(bus)@ == dma_ran(old(bus)@),
{
    proof {
        reveal(dma_ran);
    }
    let pending: u8 = bus.io.dma.take_pending();
    let ghost taken = bus@;
    for n in 0..4usize
        invariant
            bus.wf(),
            bus@ == channels_ran(taken, pending, n as int),
    {
        if pending & (1u8 << (n as u8)) != 0 {
            run_channel(bus, n);
        }
    }
}

/// Runs one DMA channel.
fn run_channel(bus: &mut Bus, n: usize)
    requires
        old(bus).wf(),
        n < 4,
    ensures
        final(bus).wf(),
        final(bus)@ == channel_ran(old(bus)@, n as int),
{
    proof {
        reveal(channel_ran);
    }
    // The transfer needs the whole bus, so the controller state is
    // moved out for its duration.
    let mut controller = bus.io.dma;
    bus.io.dma = Dma::new();
    let channel = controller.channels[n];
    hint_eeprom(bus, &channel, n);
    let irq = dma::run(&mut controller, n, bus);
    bus.io.dma = controller;
    if let Some(irq) = irq {
        bus.io.request_interrupt(irq);
    }
}

/// EEPROM chips cannot tell their own size; the length of the DMA that
/// carries a request can (see [`crate::memory::eeprom`]).
fn hint_eeprom(bus: &mut Bus, channel: &Channel, n: usize)
    requires
        old(bus).wf(),
    ensures
        final(bus).wf(),
        final(bus)@ == transfer_hinted(old(bus)@, *channel, n as int),
{
    if !channel.enabled() {
        return;
    }
    let (src, dst) = channel.latched_addresses();
    let units: u32 = channel.unit_count(n);
    bus.hint_eeprom_transfer(src, units);
    bus.hint_eeprom_transfer(dst, units);
}

impl Clone for Gba {
    fn clone(&self) -> (copy: Self)
        ensures
            copy@ == self@,
            self.wf() ==> copy.wf(),
    {
        proof {
            reveal(Gba::wf);
        }
        Self {
            cpu: self.cpu.clone(),
            bus: self.bus.clone(),
            ppu: self.ppu.clone(),
            intr_wait: self.intr_wait,
            last_unsupported_swi: self.last_unsupported_swi,
        }
    }
}

impl Gba {
    /// The parts are well-formed.
    #[verifier::opaque]
    pub open spec fn wf(&self) -> bool {
        self.cpu.wf() && self.bus.wf() && self.ppu.wf()
    }

    /// Boots a cartridge without a BIOS image: the CPU starts at the
    /// cartridge entry point and BIOS calls are emulated in software.
    #[must_use]
    pub fn new(cartridge: Cartridge) -> (gba: Self)
        requires
            cartridge.wf(),
        ensures
            gba.wf(),
            gba@ == GbaView::booted(cartridge@),
    {
        proof {
            reveal(Gba::wf);
        }
        let mut bus = Bus::new(cartridge);
        let ghost initial = bus@;
        for i in 0..7usize
            invariant
                bus.wf(),
                bus@ == GbaView::stub_installed(initial, i as int),
        {
            let (address, word) = bios::IRQ_STUB[i];
            bus.poke_bios(address, word);
        }
        let mut cpu = Cpu::new();
        cpu.hle_swi = true;
        cpu.skip_bios(&mut bus);
        // The BIOS leaves this flag set after the boot sequence.
        bus.io.write16(reg::POSTFLG, 1);
        Self {
            cpu,
            bus,
            ppu: Ppu::new(),
            intr_wait: None,
            last_unsupported_swi: None,
        }
    }

    /// Installs a real BIOS image and restarts from the reset vector.
    ///
    /// # Errors
    ///
    /// Returns [`crate::GbaError::BiosSize`] if the image is not 16 KiB.
    pub fn load_bios(&mut self, bios: &[u8]) -> (loaded: Result<()>)
        requires
            old(self).wf(),
        ensures
            final(self).wf(),
            match loaded {
                Ok(()) => bios@.len() == 0x4000 && final(self)@ == old(self)@.bios_loaded(bios@),
                Err(err) => bios@.len() != 0x4000 && final(self)@ == old(self)@ && err == (
                crate::GbaError::BiosSize { size: bios.len(), expected: 0x4000 }),
            },
    {
        proof {
            reveal(Gba::wf);
        }
        match self.bus.load_bios(bios) {
            Err(err) => {
                return Err(err);
            },
            Ok(()) => {},
        }
        self.cpu.hle_swi = false;
        self.cpu.reset(&mut self.bus);
        self.intr_wait = None;
        Ok(())
    }

    /// The backup memory contents, for writing a save file.
    #[must_use]
    pub fn save_data(&self) -> (contents: &[u8])
        requires
            self.wf(),
        ensures
            contents@ == self@.bus.backup.contents(),
    {
        proof {
            reveal(Gba::wf);
        }
        self.bus.backup.data()
    }

    /// Restores backup memory from a save file's contents.
    pub fn load_save_data(&mut self, data: &[u8])
        requires
            old(self).wf(),
        ensures
            final(self).wf(),
            final(self)@ == old(self)@.with_bus(
                BusView { backup: old(self)@.bus.backup.load(data@), ..old(self)@.bus },
            ),
    {
        proof {
            reveal(Gba::wf);
        }
        self.bus.backup.load(data);
    }

    /// Sets the keypad state (`KEYINPUT` layout, active-low).
    pub fn set_keyinput(&mut self, keyinput: u16)
        requires
            old(self).wf(),
        ensures
            final(self).wf(),
            final(self)@ == old(self)@.with_bus(
                old(self)@.bus.with_io(IoView { keyinput, ..old(self)@.bus.io }),
            ),
    {
        proof {
            reveal(Gba::wf);
        }
        self.bus.io.keyinput = keyinput;
    }

    /// Sets what the cartridge's real-time clock reports.
    pub fn set_clock(&mut self, now: DateTime)
        requires
            old(self).wf(),
        ensures
            final(self).wf(),
            final(self)@ == old(self)@.with_bus(
                BusView {
                    gpio: GpioView { clock: now, ..old(self)@.bus.gpio },
                    ..old(self)@.bus
                },
            ),
    {
        proof {
            reveal(Gba::wf);
        }
        self.bus.gpio.set_clock(now);
    }

    /// The most recently rendered frame.
    #[must_use]
    pub fn framebuffer(&self) -> (frame: &Framebuffer)
        ensures
            frame@ == self@.ppu.framebuffer,
            self.wf() ==> frame.wf(),
    {
        proof {
            reveal(Gba::wf);
        }
        &self.ppu.framebuffer
    }

    /// The sound samples produced since they were last cleared (interleaved
    /// stereo, left first).
    #[must_use]
    pub fn audio(&self) -> (samples: &[i16])
        ensures
            samples@ == self@.bus.io.apu.samples,
    {
        self.bus.io.apu.samples()
    }

    /// Discards the buffered sound samples, typically after playing them.
    pub fn clear_audio(&mut self)
        requires
            old(self).wf(),
        ensures
            final(self).wf(),
            final(self)@ == old(self)@.audio_cleared(),
    {
        proof {
            reveal(Gba::wf);
        }
        self.bus.io.apu.clear_samples();
    }

    /// Runs the system until the PPU finishes a frame (enters VBlank).
    pub fn run_frame(&mut self)
        requires
            old(self).wf(),
        ensures
            final(self).wf(),
            exists|n: nat|
                #![trigger old(self)@.completes_frame(n)]
                old(self)@.completes_frame(n) && (forall|k: nat|
                    k < n ==> !old(self)@.completes_frame(k)) && final(self)@ == old(
                    self,
                )@.steps(n + 1),
    {
        let ghost start = self@;
        let ghost mut n: nat = 0;
        loop
            invariant
                self.wf(),
                start == old(self)@,
                self@ == start.steps(n),
                forall|k: nat| k < n ==> !start.completes_frame(k),
            decreases cycles_to_vblank(self@.ppu.vcount, self@.ppu.line_cycle as int),
        {
            if self.step() {
                proof {
                    assert(start.completes_frame(n));
                    assert(self@ == start.steps(n + 1));
                }
                return;
            }
            proof {
                assert(!start.completes_frame(n));
                n = n + 1;
            }
        }
    }

    /// Executes one instruction (or skips ahead while halted), advances the
    /// PPU, and services BIOS calls and interrupts. Returns `true` when a
    /// frame was completed.
    pub fn step(&mut self) -> (frame: bool)
        requires
            old(self).wf(),
        ensures
            final(self).wf(),
            (final(self)@, frame) == old(self)@.step(),
            !frame ==> cycles_to_vblank(
                final(self)@.ppu.vcount,
                final(self)@.ppu.line_cycle as int,
            ) < cycles_to_vblank(old(self)@.ppu.vcount, old(self)@.ppu.line_cycle as int),
            cycles_to_vblank(final(self)@.ppu.vcount, final(self)@.ppu.line_cycle as int) >= 0,
    {
        proof {
            reveal(GbaView::step);
        }
        let cycles: u32 = self.run_cpu();
        self.run_dma();
        self.step_units(cycles);
        let frame = self.step_ppu(cycles);
        self.run_dma();
        self.service_interrupts();
        proof {
            self.lemma_vblank_ahead();
        }
        frame
    }

    /// VBlank never lies behind.
    proof fn lemma_vblank_ahead(&self)
        requires
            self.wf(),
        ensures
            cycles_to_vblank(self@.ppu.vcount, self@.ppu.line_cycle as int) >= 0,
    {
        reveal(Gba::wf);
    }

    /// Executes one instruction, or skips ahead while halted.
    fn run_cpu(&mut self) -> (cycles: u32)
        requires
            old(self).wf(),
        ensures
            final(self).wf(),
            (final(self)@, cycles) == old(self)@.cpu_run(),
            final(self)@.ppu == old(self)@.ppu,
            cycles >= 1,
    {
        proof {
            reveal(GbaView::cpu_run);
        }
        self.check_intr_wait();
        if self.cpu.halted {
            HALT_STEP
        } else {
            self.run_instruction()
        }
    }

    /// Executes one instruction and services the BIOS call it may have made.
    fn run_instruction(&mut self) -> (cycles: u32)
        requires
            old(self).wf(),
        ensures
            final(self).wf(),
            (final(self)@, cycles) == old(self)@.instruction_run(),
            final(self)@.ppu == old(self)@.ppu,
            cycles >= 1,
    {
        proof {
            reveal(GbaView::instruction_run);
        }
        let (cycles, call): (u32, Option<u8>) = self.step_cpu();
        if let Some(number) = call {
            self.service_swi(number);
        }
        self.take_halt();
        cycles
    }

    /// Executes one instruction; also returns the BIOS call it made.
    fn step_cpu(&mut self) -> (outcome: (u32, Option<u8>))
        requires
            old(self).wf(),
        ensures
            final(self).wf(),
            ({
                let (cpu, bus, cycles) = old(self)@.cpu.step::<Bus>(old(self)@.bus);
                &&& outcome == (cycles, cpu.pending_swi)
                &&& final(self)@ == (GbaView {
                    cpu: CpuView { pending_swi: None, ..cpu },
                    bus,
                    ..old(self)@
                })
            }),
            outcome.0 >= 1,
    {
        proof {
            reveal(Gba::wf);
            lemma_fetch_takes_time(self.bus, self@.cpu.thumb(), self@.cpu.regs.gpr[15]);
        }
        let cycles: u32 = self.cpu.step(&mut self.bus);
        let call = self.cpu.take_swi();
        (cycles, call)
    }

    /// Halts the CPU if a write to `HALTCNT` asked for it.
    fn take_halt(&mut self)
        requires
            old(self).wf(),
        ensures
            final(self).wf(),
            final(self)@ == old(self)@.halt_taken(),
    {
        proof {
            reveal(Gba::wf);
        }
        if self.bus.io.halt_requested {
            self.bus.io.halt_requested = false;
            self.cpu.halted = true;
        }
    }

    /// Advances the PPU and triggers the DMA channels that wait for it.
    fn step_ppu(&mut self, cycles: u32) -> (frame: bool)
        requires
            old(self).wf(),
        ensures
            final(self).wf(),
            (final(self)@, frame) == old(self)@.ppu_run(cycles),
            !frame ==> cycles_to_vblank(
                final(self)@.ppu.vcount,
                final(self)@.ppu.line_cycle as int,
            ) == cycles_to_vblank(old(self)@.ppu.vcount, old(self)@.ppu.line_cycle as int)
                - cycles,
    {
        proof {
            reveal(Gba::wf);
            reveal(GbaView::ppu_run);
            law_vblank_comes_in_time(self@.ppu, self@.bus.io, self@.bus.video, cycles);
        }
        let events = self.ppu.step(cycles, &mut self.bus.io, &self.bus.video);
        if events.hblank {
            self.bus.io.dma.trigger(Timing::HBlank);
        }
        if events.vblank {
            self.bus.io.dma.trigger(Timing::VBlank);
        }
        events.vblank
    }

    /// Runs every DMA channel that has been triggered.
    fn run_dma(&mut self)
        requires
            old(self).wf(),
        ensures
            final(self).wf(),
            final(self)@ == old(self)@.with_bus(dma_ran(old(self)@.bus)),
    {
        proof {
            reveal(Gba::wf);
        }
        run_dma(&mut self.bus);
    }

    /// Advances the timers and the sound unit.
    fn step_units(&mut self, cycles: u32)
        requires
            old(self).wf(),
        ensures
            final(self).wf(),
            final(self)@ == old(self)@.with_bus(
                old(self)@.bus.with_io(units_stepped(old(self)@.bus.io, cycles)),
            ),
    {
        proof {
            reveal(Gba::wf);
        }
        step_units(&mut self.bus.io, cycles);
    }

    fn service_swi(&mut self, number: u8)
        requires
            old(self).wf(),
        ensures
            final(self).wf(),
            final(self)@ == old(self)@.swi_serviced(number),
            final(self)@.ppu == old(self)@.ppu,
    {
        proof {
            reveal(Gba::wf);
            reveal(GbaView::swi_serviced);
        }
        match bios::service(number, &mut self.cpu, &mut self.bus) {
            Outcome::Done => {},
            Outcome::WaitForInterrupt { mask } => {
                let resume_pc: u32 = self.cpu.next_pc();
                self.intr_wait = Some(IntrWait { mask, resume_pc });
            },
            Outcome::Unsupported => {
                self.last_unsupported_swi = Some(number);
            },
        }
    }

    /// Re-evaluates a pending `IntrWait` once the IRQ handler has returned
    /// to the call site: release the CPU if the game's handler flagged one
    /// of the awaited interrupts, otherwise halt again.
    fn check_intr_wait(&mut self)
        requires
            old(self).wf(),
        ensures
            final(self).wf(),
            final(self)@ == old(self)@.wait_checked(),
            final(self)@.ppu == old(self)@.ppu,
    {
        proof {
            reveal(Gba::wf);
            reveal(GbaView::wait_checked);
        }
        let wait = match self.intr_wait {
            Some(wait) => wait,
            None => {
                return;
            },
        };
        if self.cpu.halted || self.cpu.regs.mode() == Mode::Irq || self.cpu.next_pc()
            != wait.resume_pc {
            return;
        }
        let flags: u16 = self.bus.read16(bios::INTR_CHECK_FLAGS);
        if flags & wait.mask != 0 {
            self.bus.write16(bios::INTR_CHECK_FLAGS, flags & !wait.mask);
            self.intr_wait = None;
        } else {
            self.cpu.halted = true;
        }
    }

    /// Wakes a halted CPU when an enabled interrupt is pending and enters
    /// the IRQ handler if the CPU accepts interrupts.
    fn service_interrupts(&mut self)
        requires
            old(self).wf(),
        ensures
            final(self).wf(),
            final(self)@ == old(self)@.interrupts_serviced(),
            final(self)@.ppu == old(self)@.ppu,
    {
        proof {
            reveal(Gba::wf);
            reveal(GbaView::interrupts_serviced);
        }
        let enabled_pending: u16 = self.bus.io.read16(reg::IE) & self.bus.io.read16(reg::IF);
        if enabled_pending == 0 {
            return;
        }
        // Any enabled interrupt wakes a halted CPU, even with IME off.
        self.cpu.halted = false;
        if self.bus.io.read16(reg::IME) & 1 != 0 && self.cpu.irq_enabled() {
            self.cpu.raise_irq(&mut self.bus);
        }
    }
}

impl GbaView {
    /// The machine without buffered sound samples.
    pub open spec fn audio_cleared(self) -> GbaView {
        self.with_bus(
            self.bus.with_io(
                IoView {
                    apu: ApuView { samples: Seq::empty(), ..self.bus.io.apu },
                    ..self.bus.io
                },
            ),
        )
    }
}

} // verus!
