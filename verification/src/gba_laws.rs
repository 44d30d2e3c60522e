//! What holds of the machine as a whole.

use vstd::prelude::*;

use crate::bios::kept::law_service_keeps_what_accesses_keep;
use crate::bios::serviced;
use crate::cpu::kept::{law_irq_keeps_what_accesses_keep, law_step_keeps_what_accesses_keep};
use crate::cpu::CpuView;
use crate::gba::{
    channel_ran, channels_ran, dma_ran, transfer_hinted, units_stepped, with_dma, GbaView,
};
use crate::memory::bus::BusView;
use crate::memory::cartridge::CartridgeView;
use crate::memory::dma::DmaView;
use crate::memory::io::{lemma_register_offsets, reg, IoView};
use crate::memory::kept::{kept, lemma_channel};
use crate::memory::laws::law_rom_is_read_only;
use crate::memory::{Bus, Memory};
use crate::ppu::laws::law_vblank_begins_on_line_160;

verus! {

proof fn lemma_key_address()
    ensures
        0x0400_0130u32 & !1u32 == 0x0400_0130,
        0x0400_0130u32 & 0x00FF_FFFF == 0x130,
        0x0400_0130u32 >> 24 == 4,
{
    crate::bits::constant_facts();
}

/// A game reads the keys as they were last set.
pub proof fn law_keys_are_seen(bus: BusView, keys: u16)
    ensures
        Bus::value16(
            bus.with_io(IoView { keyinput: keys, ..bus.io }),
            (0x0400_0000 + reg::KEYINPUT) as u32,
        ) == keys,
{
    lemma_key_address();
    lemma_register_offsets();
    reveal(BusView::value16_at);
    reveal(IoView::register);
}

/// Whether an enabled interrupt is pending.
pub open spec fn interrupt_due(gba: GbaView) -> bool {
    gba.bus.io.read16(reg::IE) & gba.bus.io.read16(reg::IF) != 0
}

/// Whether the CPU takes interrupts.
pub open spec fn accepts_interrupts(gba: GbaView) -> bool {
    gba.bus.io.read16(reg::IME) & 1 != 0 && !gba.cpu.regs.cpsr.irq_disabled()
}

/// An enabled interrupt wakes a halted CPU, even if it is not taken; without
/// one nothing happens, and a handler is entered only if interrupts are
/// accepted.
pub proof fn law_interrupts_wake_the_cpu(gba: GbaView)
    ensures
        interrupt_due(gba) ==> !gba.interrupts_serviced().cpu.halted,
        !interrupt_due(gba) ==> gba.interrupts_serviced() == gba,
        interrupt_due(gba) && !accepts_interrupts(gba) ==> gba.interrupts_serviced() == (GbaView {
            cpu: CpuView { halted: false, ..gba.cpu },
            ..gba
        }),
{
    reveal(GbaView::interrupts_serviced);
    reveal(CpuView::raise_irq);
}

/// A machine that sleeps runs no instruction: only time passes for it.
pub proof fn law_halted_cpu_sleeps(gba: GbaView)
    requires
        gba.cpu.halted,
    ensures
        gba.cpu_run() == (gba, crate::gba::HALT_STEP),
{
    reveal(GbaView::cpu_run);
    reveal(GbaView::wait_checked);
}

/// A step that completes a frame, and whose instruction takes no longer than
/// a scanline, ends at the start of VBlank, on line 160.
pub proof fn law_frame_ends_on_line_160(gba: GbaView)
    requires
        gba.step().1,
        gba.cpu_run().1 <= 1232,
        gba.cpu_run().0.ppu.vcount < 228,
        gba.cpu_run().0.ppu.line_cycle < 1232,
    ensures
        gba.step().0.ppu.vcount == 160,
{
    reveal(GbaView::step);
    reveal(GbaView::ppu_run);
    reveal(GbaView::interrupts_serviced);
    let (run, cycles) = gba.cpu_run();
    let moved = run.with_bus(dma_ran(run.bus));
    let timed = moved.with_bus(moved.bus.with_io(units_stepped(moved.bus.io, cycles)));
    law_vblank_begins_on_line_160(timed.ppu, timed.bus.io, timed.bus.video, cycles);
}

/// Running for `a` steps and then for `b` is running for both: what a machine
/// does next depends on what it is, not on how it came about.
pub proof fn law_steps_compose(gba: GbaView, a: nat, b: nat)
    ensures
        gba.steps(a).steps(b) == gba.steps(a + b),
    decreases b,
{
    if b > 0 {
        law_steps_compose(gba, a, (b - 1) as nat);
    }
}

/// The read-only memories of the bus.
pub open spec fn roms(bus: BusView) -> (CartridgeView, Seq<u8>) {
    (bus.cartridge, bus.bios)
}

proof fn lemma_roms_are_kept()
    ensures
        kept::<Bus, (CartridgeView, Seq<u8>)>(|s: BusView| roms(s)),
{
    reveal(BusView::loaded);
    reveal(BusView::accounted);
    assert forall|s: BusView, a: u32, v: u8| roms(#[trigger] Bus::stored8(s, a, v)) == roms(s) by {
        law_rom_is_read_only(s, a, v, 0, 0);
    }
    assert forall|s: BusView, a: u32, v: u16| roms(#[trigger] Bus::stored16(s, a, v)) == roms(
        s,
    ) by {
        law_rom_is_read_only(s, a, 0, v, 0);
    }
    assert forall|s: BusView, a: u32, v: u32| roms(#[trigger] Bus::stored32(s, a, v)) == roms(
        s,
    ) by {
        law_rom_is_read_only(s, a, 0, 0, v);
    }
}

proof fn lemma_channel_keeps_roms(bus: BusView, n: int)
    ensures
        roms(channel_ran(bus, n)) == roms(bus),
{
    reveal(channel_ran);
    lemma_roms_are_kept();
    let f = |s: BusView| roms(s);
    let controller = bus.io.dma;
    let detached = bus.with_io(with_dma(bus.io, DmaView::initial()));
    let hinted = transfer_hinted(detached, controller.channels[n], n);
    lemma_channel::<Bus, (CartridgeView, Seq<u8>)>(f, controller, n, hinted);
    assert(f(hinted) == roms(bus));
    assert(f(controller.ran_memory::<Bus>(n, hinted)) == roms(bus));
}

proof fn lemma_channels_keep_roms(bus: BusView, pending: u8, upto: int)
    ensures
        roms(channels_ran(bus, pending, upto)) == roms(bus),
    decreases upto,
{
    if upto > 0 {
        lemma_channels_keep_roms(bus, pending, upto - 1);
        lemma_channel_keeps_roms(channels_ran(bus, pending, upto - 1), upto - 1);
    }
}

proof fn lemma_dma_keeps_roms(bus: BusView)
    ensures
        roms(dma_ran(bus)) == roms(bus),
{
    reveal(dma_ran);
    let taken = bus.with_io(with_dma(bus.io, DmaView { pending: 0, ..bus.io.dma }));
    lemma_channels_keep_roms(taken, bus.io.dma.pending, 4);
}

proof fn lemma_cpu_keeps_roms(gba: GbaView)
    ensures
        roms(gba.cpu_run().0.bus) == roms(gba.bus),
{
    reveal(GbaView::cpu_run);
    reveal(GbaView::wait_checked);
    reveal(GbaView::instruction_run);
    reveal(GbaView::swi_serviced);
    lemma_roms_are_kept();
    let f = |s: BusView| roms(s);
    let flags = crate::bios::INTR_CHECK_FLAGS;
    let read = Bus::loaded16(gba.bus, flags);
    assert(f(read) == f(gba.bus));
    let left = Bus::value16(gba.bus, flags) & !((gba.intr_wait->0).mask);
    assert(f(Bus::stored16(read, flags, left)) == f(read));
    let checked = gba.wait_checked();
    assert(roms(checked.bus) == roms(gba.bus));
    law_step_keeps_what_accesses_keep::<Bus, (CartridgeView, Seq<u8>)>(
        f,
        checked.cpu,
        checked.bus,
    );
    let (cpu, bus, _) = checked.cpu.step::<Bus>(checked.bus);
    assert(f(bus) == f(checked.bus));
    match cpu.pending_swi {
        Some(number) => {
            let called = CpuView { pending_swi: None, ..cpu };
            law_service_keeps_what_accesses_keep::<Bus, (CartridgeView, Seq<u8>)>(
                f,
                number,
                called,
                bus,
            );
            assert(f(serviced::<Bus>(number, called, bus).1) == f(bus));
        },
        None => {},
    }
}

proof fn lemma_stub_keeps_cartridge(bus: BusView, upto: int)
    ensures
        GbaView::stub_installed(bus, upto).cartridge == bus.cartridge,
    decreases upto,
{
    if upto > 0 {
        lemma_stub_keeps_cartridge(bus, upto - 1);
    }
}

/// A machine that has booted holds the cartridge that it was booted with.
pub proof fn law_booted_machine_holds_its_cartridge(cartridge: CartridgeView)
    ensures
        GbaView::booted(cartridge).bus.cartridge == cartridge,
{
    reveal(CpuView::skip_bios);
    lemma_stub_keeps_cartridge(BusView::initial(cartridge), 7);
    lemma_roms_are_kept();
    let f = |s: BusView| roms(s);
    let stubbed = GbaView::stub_installed(BusView::initial(cartridge), 7);
    let cpu = CpuView {
        regs: CpuView::booted_registers(),
        cycles: 0,
        hle_swi: true,
        ..CpuView::initial()
    };
    let filled = cpu.flush_pipeline::<Bus>(stubbed, 0x0800_0000).1;
    assert(f(filled) == f(stubbed));
}

/// However long a machine runs, its cartridge and its BIOS stay as they are.
pub proof fn law_running_never_changes_the_rom(gba: GbaView, n: nat)
    ensures
        gba.steps(n).bus.cartridge == gba.bus.cartridge,
        gba.steps(n).bus.bios == gba.bus.bios,
    decreases n,
{
    if n > 0 {
        law_running_never_changes_the_rom(gba, (n - 1) as nat);
        let before = gba.steps((n - 1) as nat);
        reveal(GbaView::step);
        reveal(GbaView::ppu_run);
        reveal(GbaView::interrupts_serviced);
        lemma_cpu_keeps_roms(before);
        let (run, cycles) = before.cpu_run();
        lemma_dma_keeps_roms(run.bus);
        let moved = run.with_bus(dma_ran(run.bus));
        let timed = moved.with_bus(moved.bus.with_io(units_stepped(moved.bus.io, cycles)));
        let drawn = timed.ppu_run(cycles).0;
        lemma_dma_keeps_roms(drawn.bus);
        let settled = drawn.with_bus(dma_ran(drawn.bus));
        lemma_roms_are_kept();
        let f = |s: BusView| roms(s);
        let awake = CpuView { halted: false, ..settled.cpu };
        law_irq_keeps_what_accesses_keep::<Bus, (CartridgeView, Seq<u8>)>(
            f,
            awake,
            settled.bus,
        );
        assert(f(awake.raise_irq::<Bus>(settled.bus).1) == f(settled.bus));
    }
}

/// A machine that waits for interrupts, and comes back to the call outside an
/// interrupt handler, goes on if a handler has flagged one of those, whose
/// flags are cleared; otherwise it goes back to sleep.
pub proof fn law_waiting_machine(gba: GbaView, wait: crate::gba::IntrWait)
    requires
        gba.intr_wait == Some(wait),
        !gba.cpu.halted,
        !(gba.cpu.regs.mode() is Irq),
        gba.cpu.next_pc() == wait.resume_pc,
    ensures
        ({
            let flags = Bus::value16(gba.bus, 0x0300_7FF8);
            let after = gba.wait_checked();
            &&& flags & wait.mask != 0 ==> {
                &&& after.intr_wait is None
                &&& after.cpu == gba.cpu
                &&& after.bus == Bus::stored16(
                    Bus::loaded16(gba.bus, 0x0300_7FF8),
                    0x0300_7FF8,
                    flags & !wait.mask,
                )
            }
            &&& flags & wait.mask == 0 ==> {
                &&& after.intr_wait == gba.intr_wait
                &&& after.cpu == (CpuView { halted: true, ..gba.cpu })
            }
        }),
{
    reveal(GbaView::wait_checked);
}

/// A machine that does not wait, that sleeps, that runs an interrupt handler
/// or that is elsewhere is not held up by a wait call.
pub proof fn law_busy_machine(gba: GbaView)
    requires
        gba.intr_wait is None || gba.cpu.halted || gba.cpu.regs.mode() is Irq
            || gba.cpu.next_pc() != (gba.intr_wait->0).resume_pc,
    ensures
        gba.wait_checked() == gba,
{
    reveal(GbaView::wait_checked);
}

} // verus!
