//! ARM7TDMI CPU core.
//!
//! # Pipeline model
//!
//! The ARM7TDMI has a three-stage fetch/decode/execute pipeline, and
//! software can observe it: reading r15 yields the address of the
//! instruction being executed **plus 8** (ARM) or **plus 4** (THUMB). We
//! reproduce that with a two-entry prefetch queue. At any time:
//!
//! - `pipeline[0]` holds the instruction about to execute,
//! - `pipeline[1]` holds the one after it,
//! - r15 is the address the *next* fetch will come from, which is exactly
//!   the value software expects to see.
//!
//! Any write to r15 flushes the queue and refills it from the new address.

use vstd::prelude::*;

pub mod alu;
pub mod arm;
pub mod hidden;
pub mod kept;
pub mod laws;
pub mod load;
pub mod mode_laws;
pub mod pipeline;
pub mod registers;
pub mod stack;
pub mod thumb;

pub use registers::{Cpsr, Mode, Registers};

use crate::memory::Memory;
use registers::{RegistersView, FLAG_F, FLAG_I, FLAG_T, LR, PC, SP};

verus! {

/// Exception vectors and the mode each one enters.
#[derive(Debug, Clone, Copy, PartialEq, Eq, Structural)]
pub enum Exception {
    /// Power-on / reset.
    Reset,
    /// Undefined instruction.
    Undefined,
    /// `SWI` instruction.
    SoftwareInterrupt,
    /// Instruction fetch abort (never raised on GBA).
    PrefetchAbort,
    /// Data access abort (never raised on GBA).
    DataAbort,
    /// Normal interrupt request.
    Irq,
    /// Fast interrupt request (not wired up on GBA).
    Fiq,
}

/// Address of the handler of `exception`.
pub open spec fn vector_of(exception: Exception) -> u32 {
    match exception {
        Exception::Reset => 0x00,
        Exception::Undefined => 0x04,
        Exception::SoftwareInterrupt => 0x08,
        Exception::PrefetchAbort => 0x0C,
        Exception::DataAbort => 0x10,
        Exception::Irq => 0x18,
        Exception::Fiq => 0x1C,
    }
}

/// Mode that `exception` is handled in.
pub open spec fn mode_entered(exception: Exception) -> Mode {
    match exception {
        Exception::Reset | Exception::SoftwareInterrupt => Mode::Supervisor,
        Exception::Undefined => Mode::Undefined,
        Exception::PrefetchAbort | Exception::DataAbort => Mode::Abort,
        Exception::Irq => Mode::Irq,
        Exception::Fiq => Mode::Fiq,
    }
}

impl Exception {
    /// Address of the exception handler.
    #[must_use]
    pub fn vector(self) -> (address: u32)
        ensures
            address == vector_of(self),
    {
        match self {
            Self::Reset => 0x00,
            Self::Undefined => 0x04,
            Self::SoftwareInterrupt => 0x08,
            Self::PrefetchAbort => 0x0C,
            Self::DataAbort => 0x10,
            Self::Irq => 0x18,
            Self::Fiq => 0x1C,
        }
    }

    /// Mode the processor switches to.
    #[must_use]
    pub fn mode(self) -> (mode: Mode)
        ensures
            mode == mode_entered(self),
    {
        match self {
            Self::Reset | Self::SoftwareInterrupt => Mode::Supervisor,
            Self::Undefined => Mode::Undefined,
            Self::PrefetchAbort | Self::DataAbort => Mode::Abort,
            Self::Irq => Mode::Irq,
            Self::Fiq => Mode::Fiq,
        }
    }
}

/// The processor state.
#[derive(Debug)]
pub struct Cpu {
    /// Register file.
    pub regs: Registers,
    /// Prefetch queue; see the module docs.
    pub pipeline: [u32; 2],
    /// Set when r15 was written this step, so the pipeline must be refilled
    /// instead of advanced.
    pub flushed: bool,
    /// Total cycles executed. Purely informational.
    pub cycles: u64,
    /// When set, `SWI` does not enter the exception vector but records the
    /// call number for the emulator to service in software (HLE BIOS).
    pub hle_swi: bool,
    /// Pending HLE `SWI` call number, taken by [`Cpu::take_swi`].
    pub pending_swi: Option<u8>,
    /// Halted by `HALTCNT` or a BIOS wait call; woken by an interrupt.
    pub halted: bool,
}

/// The mathematical processor state.
pub struct CpuView {
    /// Register file.
    pub regs: RegistersView,
    /// The two prefetched instructions.
    pub pipeline: Seq<u32>,
    /// Whether r15 was written during the current step.
    pub flushed: bool,
    /// Total cycles executed.
    pub cycles: u64,
    /// Whether `SWI` is serviced in software.
    pub hle_swi: bool,
    /// The recorded software call.
    pub pending_swi: Option<u8>,
    /// Whether the CPU is halted.
    pub halted: bool,
}

impl View for Cpu {
    type V = CpuView;

    open spec fn view(&self) -> CpuView {
        CpuView {
            regs: self.regs@,
            pipeline: self.pipeline@,
            flushed: self.flushed,
            cycles: self.cycles,
            hle_swi: self.hle_swi,
            pending_swi: self.pending_swi,
            halted: self.halted,
        }
    }
}

/// The word or halfword that an instruction fetch returns.
pub open spec fn fetched<M: Memory>(thumb: bool, s: M::State, address: u32) -> u32 {
    if thumb {
        M::value16(s, address) as u32
    } else {
        M::value32(s, address)
    }
}

/// The memory after an instruction fetch.
pub open spec fn after_fetch<M: Memory>(thumb: bool, s: M::State, address: u32) -> M::State {
    if thumb {
        M::loaded16(s, address)
    } else {
        M::loaded32(s, address)
    }
}

impl CpuView {
    /// The state of a CPU that has never run.
    pub open spec fn initial() -> CpuView {
        CpuView {
            regs: RegistersView::reset(),
            pipeline: Seq::new(2, |i: int| 0u32),
            flushed: false,
            cycles: 0,
            hle_swi: false,
            pending_swi: None,
            halted: false,
        }
    }

    /// Whether the CPU executes THUMB instructions.
    pub open spec fn thumb(self) -> bool {
        self.regs.cpsr.thumb()
    }

    /// Instruction size in bytes.
    pub open spec fn instruction_size(self) -> u32 {
        if self.thumb() {
            2
        } else {
            4
        }
    }

    /// Address of the instruction that executes next.
    pub open spec fn next_pc(self) -> u32 {
        self.regs.gpr[15].wrapping_sub((2 * self.instruction_size()) as u32)
    }

    /// The state with register `i` replaced.
    pub open spec fn set(self, i: int, value: u32) -> CpuView {
        CpuView { regs: self.regs.set(i, value), ..self }
    }

    /// The state with the register file replaced.
    pub open spec fn with_regs(self, regs: RegistersView) -> CpuView {
        CpuView { regs, ..self }
    }

    /// The state with the status register replaced.
    pub open spec fn with_cpsr(self, cpsr: Cpsr) -> CpuView {
        CpuView { regs: self.regs.put_cpsr(cpsr), ..self }
    }

    /// `address` aligned for the current instruction size.
    pub open spec fn aligned(self, address: u32) -> u32 {
        address & !((self.instruction_size() - 1) as u32)
    }

    /// The state and memory after refilling the pipeline from `address`.
    pub open spec fn flush_pipeline<M: Memory>(self, s: M::State, address: u32) -> (
        CpuView,
        M::State,
    ) {
        let t = self.thumb();
        let first = self.aligned(address);
        let second = first.wrapping_add(self.instruction_size());
        let s1 = after_fetch::<M>(t, s, first);
        let s2 = after_fetch::<M>(t, s1, second);
        (
            CpuView {
                regs: self.regs.set(
                    15,
                    first.wrapping_add((2 * self.instruction_size()) as u32),
                ),
                pipeline: seq![fetched::<M>(t, s, first), fetched::<M>(t, s1, second)],
                flushed: false,
                ..self
            },
            s2,
        )
    }

    /// The state after writing r15.
    pub open spec fn set_pc(self, address: u32) -> CpuView {
        CpuView { regs: self.regs.set(15, self.aligned(address)), flushed: true, ..self }
    }

    /// The state after an instruction writes register `rd`: a write to r15
    /// is a jump.
    pub open spec fn write_register(self, rd: int, value: u32) -> CpuView {
        if rd == 15 {
            self.set_pc(value)
        } else {
            self.set(rd, value)
        }
    }

    /// The address that `exception` returns to.
    pub open spec fn return_address(self, exception: Exception) -> u32 {
        let pc = self.regs.gpr[15];
        if exception is Irq || exception is Fiq {
            if self.thumb() {
                pc
            } else {
                pc.wrapping_sub(4)
            }
        } else {
            pc.wrapping_sub(self.instruction_size())
        }
    }

    /// The status register that a handler starts with.
    pub open spec fn handler_cpsr(cpsr: Cpsr, exception: Exception) -> Cpsr {
        let masked = cpsr.with(FLAG_T, false).with(FLAG_I, true);
        if exception is Reset || exception is Fiq {
            masked.with(FLAG_F, true)
        } else {
            masked
        }
    }

    /// The state after taking `exception`.
    pub open spec fn enter_exception(self, exception: Exception) -> CpuView {
        let banked = self.regs.switch_mode(mode_entered(exception)).set_spsr(self.regs.cpsr).set(
            14,
            self.return_address(exception),
        );
        let handler = CpuView {
            regs: banked.put_cpsr(Self::handler_cpsr(banked.cpsr, exception)),
            ..self
        };
        handler.set_pc(vector_of(exception))
    }

    /// The state after an `SWI` instruction with `comment`.
    pub open spec fn software_interrupt(self, comment: u8) -> CpuView {
        if self.hle_swi {
            CpuView { pending_swi: Some(comment), ..self }
        } else {
            self.enter_exception(Exception::SoftwareInterrupt)
        }
    }

    /// The state and memory after an interrupt is taken between steps.
    #[verifier::opaque]
    pub open spec fn raise_irq<M: Memory>(self, s: M::State) -> (CpuView, M::State) {
        let entered = CpuView { halted: false, ..self }.enter_exception(Exception::Irq);
        entered.flush_pipeline::<M>(s, entered.regs.gpr[15])
    }

    /// The state and memory after a reset.
    #[verifier::opaque]
    pub open spec fn reset<M: Memory>(self, s: M::State) -> (CpuView, M::State) {
        CpuView { regs: RegistersView::reset(), cycles: 0, ..self }.flush_pipeline::<M>(s, 0)
    }

    /// The registers that the BIOS hands to the cartridge: a stack for each
    /// of the modes that need one, System mode, interrupts enabled.
    pub open spec fn booted_registers() -> RegistersView {
        let irq = RegistersView::reset().switch_mode(Mode::Irq).set(13, 0x0300_7FA0);
        let supervisor = irq.switch_mode(Mode::Supervisor).set(13, 0x0300_7FE0);
        let system = supervisor.switch_mode(Mode::System).set(13, 0x0300_7F00);
        system.put_cpsr(system.cpsr.with(FLAG_I, false).with(FLAG_F, false))
    }

    /// The state and memory after one instruction, and the cycles it took:
    /// its internal cycles plus the bus time of its fetch, its data accesses
    /// and any pipeline refill.
    #[verifier::opaque]
    pub open spec fn step<M: Memory>(self, s: M::State) -> (CpuView, M::State, u32) {
        let t = self.thumb();
        let pc = self.regs.gpr[15];
        let op = self.pipeline[0];
        let advanced = CpuView {
            pipeline: seq![self.pipeline[1], fetched::<M>(t, s, pc)],
            ..self
        };
        let s1 = after_fetch::<M>(t, s, pc);
        let (executed, s2, internal) = if t {
            advanced.execute_thumb::<M>(s1, op as u16)
        } else {
            advanced.execute_arm::<M>(s1, op)
        };
        let (settled, s3) = if executed.flushed {
            executed.flush_pipeline::<M>(s2, executed.regs.gpr[15])
        } else {
            (executed.set(15, pc.wrapping_add(self.instruction_size())), s2)
        };
        let s4 = M::idled(s3, internal);
        let cycles = internal.saturating_add(M::elapsed(s4));
        (
            CpuView { cycles: settled.cycles.wrapping_add(cycles as u64), ..settled },
            M::settled(s4),
            cycles,
        )
    }

    /// The state and memory after entering the cartridge directly.
    #[verifier::opaque]
    pub open spec fn skip_bios<M: Memory>(self, s: M::State) -> (CpuView, M::State) {
        CpuView { regs: Self::booted_registers(), cycles: 0, ..self }.flush_pipeline::<M>(
            s,
            0x0800_0000,
        )
    }
}

impl Clone for Cpu {
    fn clone(&self) -> (copy: Self)
        ensures
            copy@ == self@,
            self.wf() ==> copy.wf(),
    {
        Self {
            regs: self.regs.clone(),
            pipeline: self.pipeline,
            flushed: self.flushed,
            cycles: self.cycles,
            hle_swi: self.hle_swi,
            pending_swi: self.pending_swi,
            halted: self.halted,
        }
    }
}

impl Default for Cpu {
    fn default() -> (cpu: Self)
        ensures
            cpu@ == CpuView::initial(),
            cpu.wf(),
    {
        Self::new()
    }
}

impl Cpu {
    /// The status register holds a mode.
    pub open spec fn wf(&self) -> bool {
        self.regs.wf()
    }

    /// Creates a CPU in the reset state with an empty pipeline.
    ///
    /// Call [`Cpu::reset`] or [`Cpu::skip_bios`] before stepping.
    #[must_use]
    pub fn new() -> (cpu: Self)
        ensures
            cpu@ == CpuView::initial(),
            cpu.wf(),
    {
        let cpu = Self {
            regs: Registers::new(),
            pipeline: [0; 2],
            flushed: false,
            cycles: 0,
            hle_swi: false,
            pending_swi: None,
            halted: false,
        };
        assert(cpu.pipeline@ =~= CpuView::initial().pipeline);
        cpu
    }

    /// Resets the CPU and starts executing the BIOS at `0x0000_0000`.
    pub fn reset<M: Memory>(&mut self, mem: &mut M)
        requires
            old(mem).wf(),
        ensures
            final(self).wf(),
            final(mem).wf(),
            M::elapsed(final(mem).state()) >= M::elapsed(old(mem).state()),
            (final(self)@, final(mem).state()) == old(self)@.reset::<M>(old(mem).state()),
    {
        proof {
            reveal(CpuView::reset);
        }
        self.regs = Registers::new();
        self.cycles = 0;
        self.flush_pipeline(mem, 0);
    }

    /// Puts the CPU in the state the BIOS leaves it in and jumps to the
    /// cartridge entry point, for running without a BIOS image.
    pub fn skip_bios<M: Memory>(&mut self, mem: &mut M)
        requires
            old(mem).wf(),
        ensures
            final(self).wf(),
            final(mem).wf(),
            M::elapsed(final(mem).state()) >= M::elapsed(old(mem).state()),
            (final(self)@, final(mem).state()) == old(self)@.skip_bios::<M>(old(mem).state()),
    {
        proof {
            reveal(CpuView::skip_bios);
        }
        self.regs = Registers::new();
        self.cycles = 0;
        // Stacks the BIOS sets up for each mode.
        self.regs.switch_mode(Mode::Irq);
        self.regs.set(SP, 0x0300_7FA0);
        self.regs.switch_mode(Mode::Supervisor);
        self.regs.set(SP, 0x0300_7FE0);
        self.regs.switch_mode(Mode::System);
        self.regs.set(SP, 0x0300_7F00);
        self.regs.cpsr.set_irq_disabled(false);
        self.regs.cpsr.set_fiq_disabled(false);
        self.flush_pipeline(mem, 0x0800_0000);
    }

    /// Whether the CPU is in THUMB state.
    #[must_use]
    pub fn thumb(&self) -> (thumb: bool)
        ensures
            thumb == self@.thumb(),
    {
        self.regs.cpsr.thumb()
    }

    /// Instruction size in bytes for the current state.
    #[inline]
    fn instruction_size(&self) -> (size: u32)
        ensures
            size == self@.instruction_size(),
    {
        if self.thumb() {
            2
        } else {
            4
        }
    }

    /// Address of the instruction that would execute on the next step.
    #[must_use]
    pub fn next_pc(&self) -> (address: u32)
        ensures
            address == self@.next_pc(),
    {
        self.regs.get(PC).wrapping_sub(2 * self.instruction_size())
    }

    #[inline]
    fn fetch<M: Memory>(&self, mem: &mut M, address: u32) -> (instruction: u32)
        requires
            old(mem).wf(),
        ensures
            final(mem).wf(),
            M::elapsed(final(mem).state()) >= M::elapsed(old(mem).state()),
            instruction == fetched::<M>(self@.thumb(), old(mem).state(), address),
            final(mem).state() == after_fetch::<M>(self@.thumb(), old(mem).state(), address),
    {
        if self.thumb() {
            mem.read16(address) as u32
        } else {
            mem.read32(address)
        }
    }

    /// Refills the prefetch queue from `address` (aligned for the current
    /// state) and points r15 past it.
    pub fn flush_pipeline<M: Memory>(&mut self, mem: &mut M, address: u32)
        requires
            old(mem).wf(),
        ensures
            old(self).wf() ==> final(self).wf(),
            final(mem).wf(),
            M::elapsed(final(mem).state()) >= M::elapsed(old(mem).state()),
            (final(self)@, final(mem).state()) == old(self)@.flush_pipeline::<M>(
                old(mem).state(),
                address,
            ),
    {
        let size: u32 = self.instruction_size();
        let first: u32 = address & !(size - 1);
        self.pipeline[0] = self.fetch(mem, first);
        self.pipeline[1] = self.fetch(mem, first.wrapping_add(size));
        self.regs.set(PC, first.wrapping_add(2 * size));
        self.flushed = false;
        proof {
            let target = old(self)@.flush_pipeline::<M>(old(mem).state(), address);
            assert(self.pipeline@ =~= target.0.pipeline);
        }
    }

    /// Writes r15 and marks the pipeline for refill at the end of the step.
    ///
    /// The value is aligned to the instruction size of the *current* state,
    /// so callers switching state (`BX`) must update the T bit first.
    pub(crate) fn set_pc(&mut self, address: u32)
        ensures
            old(self).wf() ==> final(self).wf(),
            final(self)@ == old(self)@.set_pc(address),
    {
        let size: u32 = self.instruction_size();
        self.regs.set(PC, address & !(size - 1));
        self.flushed = true;
    }

    /// Writes register `rd`; r15 marks the pipeline for refill.
    #[inline]
    pub(crate) fn write_register(&mut self, rd: usize, value: u32)
        requires
            rd < 16,
        ensures
            old(self).wf() ==> final(self).wf(),
            final(self)@ == old(self)@.write_register(rd as int, value),
    {
        if rd == PC {
            self.set_pc(value);
        } else {
            self.regs.set(rd, value);
        }
    }

    /// Takes `exception`: saves CPSR to the new mode's SPSR, banks
    /// registers, sets LR to the return address and jumps to the vector.
    ///
    /// Like any other write to r15 this only *schedules* the pipeline
    /// refill; it happens at the end of the current step.
    pub(crate) fn enter_exception(&mut self, exception: Exception)
        requires
            old(self).wf(),
        ensures
            final(self).wf(),
            final(self)@ == old(self)@.enter_exception(exception),
    {
        // SWI/UND run mid-step: LR = the next instruction, i.e. r15 minus
        // one instruction (return with `MOVS pc, lr`).
        // IRQ/FIQ are taken between steps: LR = next instruction + 4
        // (return with `SUBS pc, lr, #4`). With r15 = next + 2*size that is
        // r15 - 4 in ARM and exactly r15 in THUMB.
        let pc: u32 = self.regs.get(PC);
        let return_address: u32 = match exception {
            Exception::Irq | Exception::Fiq => {
                if self.thumb() {
                    pc
                } else {
                    pc.wrapping_sub(4)
                }
            },
            _ => pc.wrapping_sub(self.instruction_size()),
        };
        let old_cpsr = self.regs.cpsr;

        self.regs.switch_mode(exception.mode());
        self.regs.set_spsr(old_cpsr);
        self.regs.set(LR, return_address);
        self.regs.cpsr.set_thumb(false);
        self.regs.cpsr.set_irq_disabled(true);
        if matches!(exception, Exception::Reset | Exception::Fiq) {
            self.regs.cpsr.set_fiq_disabled(true);
        }
        self.set_pc(exception.vector());
    }

    /// Handles an `SWI` instruction: either records it for HLE servicing
    /// or enters the Supervisor exception vector.
    pub(crate) fn software_interrupt(&mut self, comment: u8)
        requires
            old(self).wf(),
        ensures
            final(self).wf(),
            final(self)@ == old(self)@.software_interrupt(comment),
    {
        if self.hle_swi {
            self.pending_swi = Some(comment);
        } else {
            self.enter_exception(Exception::SoftwareInterrupt);
        }
    }

    /// Takes the HLE `SWI` call recorded by the last step, if any.
    pub fn take_swi(&mut self) -> (call: Option<u8>)
        ensures
            call == old(self)@.pending_swi,
            final(self)@ == (CpuView { pending_swi: None, ..old(self)@ }),
            old(self).wf() ==> final(self).wf(),
    {
        self.pending_swi.take()
    }

    /// Whether an IRQ would be accepted right now (CPSR I bit clear).
    #[must_use]
    pub fn irq_enabled(&self) -> (enabled: bool)
        ensures
            enabled == !self@.regs.cpsr.irq_disabled(),
    {
        !self.regs.cpsr.irq_disabled()
    }

    /// Takes the IRQ exception immediately, refilling the pipeline from
    /// the vector. Call between steps, only when [`Cpu::irq_enabled`].
    pub fn raise_irq<M: Memory>(&mut self, mem: &mut M)
        requires
            old(self).wf(),
            old(mem).wf(),
        ensures
            final(self).wf(),
            final(mem).wf(),
            M::elapsed(final(mem).state()) >= M::elapsed(old(mem).state()),
            (final(self)@, final(mem).state()) == old(self)@.raise_irq::<M>(old(mem).state()),
    {
        proof {
            reveal(CpuView::raise_irq);
        }
        self.halted = false;
        self.enter_exception(Exception::Irq);
        let address: u32 = self.regs.get(PC);
        self.flush_pipeline(mem, address);
    }

    /// Executes a single instruction and returns the cycles it took:
    /// the bus cycles of its fetch and data accesses (including any
    /// pipeline refill) plus the instruction's internal cycles.
    pub fn step<M: Memory>(&mut self, mem: &mut M) -> (cycles: u32)
        requires
            old(self).wf(),
            old(mem).wf(),
        ensures
            final(self).wf(),
            final(mem).wf(),
            (final(self)@, final(mem).state(), cycles) == old(self)@.step::<M>(old(mem).state()),
            cycles >= M::elapsed(
                after_fetch::<M>(old(self)@.thumb(), old(mem).state(), old(self)@.regs.gpr[15]),
            ),
    {
        proof {
            reveal(CpuView::step);
        }
        let size: u32 = self.instruction_size();
        let pc: u32 = self.regs.get(PC);

        let op: u32 = self.pipeline[0];
        self.pipeline[0] = self.pipeline[1];
        self.pipeline[1] = self.fetch(mem, pc);
        proof {
            assert(self.pipeline@ =~= seq![
                old(self)@.pipeline[1],
                fetched::<M>(old(self)@.thumb(), old(mem).state(), pc),
            ]);
        }

        let internal: u32 = if self.thumb() {
            self.execute_thumb(mem, op as u16)
        } else {
            self.execute_arm(mem, op)
        };

        if self.flushed {
            let target: u32 = self.regs.get(PC);
            self.flush_pipeline(mem, target);
        } else {
            self.regs.set(PC, pc.wrapping_add(size));
        }
        mem.idle(internal);
        let cycles: u32 = internal.saturating_add(mem.take_access_cycles());
        self.cycles = self.cycles.wrapping_add(cycles as u64);
        cycles
    }
}

} // verus!
