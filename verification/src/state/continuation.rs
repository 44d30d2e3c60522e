//! Sound that was heard before makes no difference to what follows.
//!
//! A restored machine has lost the sound samples that were buffered when its
//! snapshot was taken. It nevertheless runs exactly as the machine that kept
//! them: samples are only ever added behind those that are there.

use vstd::prelude::*;

use crate::apu::ApuView;
use crate::bios;
use crate::bios::hidden::law_service_sees_memory_through_accesses;
use crate::cpu::hidden::{
    law_irq_sees_memory_through_accesses, law_step_sees_memory_through_accesses,
};
use crate::cpu::CpuView;
use crate::gba::{
    channel_ran, channels_ran, dma_ran, fifos_clocked, limited_count, timer_irqs_raised,
    transfer_hinted, units_stepped, with_dma, GbaView,
};
use crate::memory::bus::BusView;
use crate::memory::dma::DmaView;
use crate::memory::hidden::{hidden, lemma_channel};
use crate::memory::interrupt::Interrupt;
use crate::memory::io::{reg, IoView};
use crate::memory::timers::{overflows_of, timers_stepped, Timer};
use crate::memory::video::VideoView;
use crate::memory::{Bus, Memory};
use crate::ppu::compose::blend_of;
use crate::ppu::tiled::{affine_params, bg_control_of};
use crate::ppu::{backgrounds, bg_pixel, dispstat, rendered_row, PpuView};

verus! {

/// The sound unit with `heard` in front of its samples.
pub open spec fn apu_after(apu: ApuView, heard: Seq<i16>) -> ApuView {
    ApuView { samples: heard + apu.samples, ..apu }
}

/// The I/O block with `heard` in front of its sound samples.
pub open spec fn io_after(io: IoView, heard: Seq<i16>) -> IoView {
    IoView { apu: apu_after(io.apu, heard), ..io }
}

/// The bus with `heard` in front of its sound samples.
pub open spec fn bus_after(bus: BusView, heard: Seq<i16>) -> BusView {
    BusView { io: io_after(bus.io, heard), ..bus }
}

/// The machine with `heard` in front of its sound samples.
pub open spec fn machine_after(gba: GbaView, heard: Seq<i16>) -> GbaView {
    GbaView { bus: bus_after(gba.bus, heard), ..gba }
}

proof fn lemma_sampled_times(apu: ApuView, heard: Seq<i16>, count: int)
    ensures
        apu_after(apu, heard).sampled_times(count) == apu_after(apu.sampled_times(count), heard),
    decreases count,
{
    if count > 0 {
        lemma_sampled_times(apu, heard, count - 1);
        let a = apu.sampled_times(count - 1);
        let b = apu_after(a, heard);
        let advanced = if a.master_enabled() {
            a.channels_advanced()
        } else {
            a
        };
        let (left, right) = advanced.mix();
        assert((heard + advanced.samples).push(left).push(right) =~= heard + advanced.samples.push(
            left,
        ).push(right));
        let advanced_b = if b.master_enabled() {
            b.channels_advanced()
        } else {
            b
        };
        assert(advanced_b == apu_after(advanced, heard));
        assert(advanced_b.mix() == advanced.mix());
    } else {
    }
}

proof fn lemma_apu_step(apu: ApuView, heard: Seq<i16>, cycles: u32)
    ensures
        apu_after(apu, heard).step(cycles) == apu_after(apu.step(cycles), heard),
{
    reveal(ApuView::step);
    lemma_sampled_times(apu, heard, (apu.cycles + cycles) as int / 512);
}

proof fn lemma_apu_registers(apu: ApuView, heard: Seq<i16>, off: u32, half: u16, byte: u8)
    ensures
        apu_after(apu, heard).read16(off) == apu.read16(off),
        apu_after(apu, heard).write16(off, half) == apu_after(apu.write16(off, half), heard),
        apu_after(apu, heard).write8(off, byte) == apu_after(apu.write8(off, byte), heard),
{
    let aligned = off & !1u32;
    assert(apu_after(apu, heard).read16(aligned) == apu.read16(aligned));
    lemma_apu_write16(apu, heard, off, half);
    lemma_apu_write16(
        apu,
        heard,
        aligned,
        crate::apu::merged_byte(
            if 0x060 <= aligned < 0x090 {
                apu.raw[crate::apu::register_index(aligned)]
            } else {
                apu.read16(aligned)
            },
            off,
            byte,
        ),
    );
}

proof fn lemma_apu_write16(apu: ApuView, heard: Seq<i16>, off: u32, half: u16)
    ensures
        apu_after(apu, heard).write16(off, half) == apu_after(apu.write16(off, half), heard),
{
}

/// What a register reads as does not depend on what was heard.
broadcast proof fn lemma_read16(io: IoView, heard: Seq<i16>, off: u32)
    ensures
        #[trigger] io_after(io, heard).read16(off) == io.read16(off),
{
    reveal(IoView::register);
    lemma_apu_registers(io.apu, heard, off & !1u32, 0, 0);
}

proof fn lemma_io_write16(io: IoView, heard: Seq<i16>, off: u32, half: u16)
    ensures
        io_after(io, heard).write16(off, half) == io_after(io.write16(off, half), heard),
{
    reveal(IoView::register_written);
    lemma_apu_registers(io.apu, heard, off & !1u32, half, 0);
}

proof fn lemma_io_access(
    io: IoView,
    heard: Seq<i16>,
    off: u32,
    byte: u8,
    half: u16,
    word: u32,
)
    ensures
        io_after(io, heard).read8(off) == io.read8(off),
        io_after(io, heard).read16(off) == io.read16(off),
        io_after(io, heard).read32(off) == io.read32(off),
        io_after(io, heard).write8(off, byte) == io_after(io.write8(off, byte), heard),
        io_after(io, heard).write16(off, half) == io_after(io.write16(off, half), heard),
        io_after(io, heard).write32(off, word) == io_after(io.write32(off, word), heard),
{
    broadcast use lemma_read16;

    lemma_apu_registers(io.apu, heard, off, 0, byte);
    lemma_io_write16(io, heard, off, half);
    let aligned = off & !1u32;
    let shift = ((off & 1) * 8) as u16;
    lemma_io_write16(io, heard, aligned, (byte as u16) << shift);
    lemma_io_write16(
        io,
        heard,
        aligned,
        crate::apu::merged_byte(io.read16(aligned), off, byte),
    );
    let base = off & !3u32;
    lemma_io_write16(io, heard, base, word as u16);
    lemma_io_write16(
        io.write16(base, word as u16),
        heard,
        (base + 2) as u32,
        (word >> 16) as u16,
    );
}

proof fn lemma_request(io: IoView, heard: Seq<i16>, source: Interrupt)
    ensures
        io_after(io, heard).request_interrupt(source) == io_after(
            io.request_interrupt(source),
            heard,
        ),
{
    broadcast use lemma_read16;

    reveal(IoView::request_interrupt);
}

proof fn lemma_bus_reads(s: BusView, heard: Seq<i16>, a: u32, width: u32)
    ensures
        bus_after(s, heard).value8(a) == s.value8(a),
        bus_after(s, heard).value16(a) == s.value16(a),
        bus_after(s, heard).value32(a) == s.value32(a),
        bus_after(s, heard).loaded(a, width) == bus_after(s.loaded(a, width), heard),
        bus_after(s, heard).accounted(a, width) == bus_after(s.accounted(a, width), heard),
{
    reveal(BusView::value8);
    reveal(BusView::value16_at);
    reveal(BusView::value32_at);
    reveal(BusView::loaded);
    reveal(BusView::accounted);
    lemma_io_access(s.io, heard, a & 0x00FF_FFFF, 0, 0, 0);
    lemma_io_access(s.io, heard, (a & !1u32) & 0x00FF_FFFF, 0, 0, 0);
    lemma_io_access(s.io, heard, (a & !3u32) & 0x00FF_FFFF, 0, 0, 0);
}

proof fn lemma_put8(s: BusView, heard: Seq<i16>, a: u32, byte: u8)
    ensures
        bus_after(s, heard).put8(a, byte) == bus_after(s.put8(a, byte), heard),
{
    broadcast use lemma_read16;

    reveal(BusView::put8);
    lemma_io_access(s.io, heard, a & 0x00FF_FFFF, byte, 0, 0);
}

proof fn lemma_put16(s: BusView, heard: Seq<i16>, a: u32, exact: u32, half: u16)
    ensures
        bus_after(s, heard).put16(a, exact, half) == bus_after(s.put16(a, exact, half), heard),
{
    broadcast use lemma_read16;

    reveal(BusView::put16);
    lemma_io_access(s.io, heard, a & 0x00FF_FFFF, 0, half, 0);
}

proof fn lemma_put32(s: BusView, heard: Seq<i16>, a: u32, exact: u32, word: u32)
    ensures
        bus_after(s, heard).put32(a, exact, word) == bus_after(s.put32(a, exact, word), heard),
{
    broadcast use lemma_read16;

    reveal(BusView::put32);
    lemma_io_access(s.io, heard, a & 0x00FF_FFFF, 0, 0, word);
}

/// No access to the bus shows what was heard.
proof fn lemma_heard_is_hidden(heard: Seq<i16>)
    ensures
        hidden::<Bus>(|s: BusView| bus_after(s, heard)),
{
    let h = |s: BusView| bus_after(s, heard);
    assert forall|s: BusView, a: u32| #[trigger] Bus::value8(h(s), a) == Bus::value8(s, a) by {
        lemma_bus_reads(s, heard, a, 1);
    }
    assert forall|s: BusView, a: u32| #[trigger] Bus::value16(h(s), a) == Bus::value16(s, a) by {
        lemma_bus_reads(s, heard, a, 2);
    }
    assert forall|s: BusView, a: u32| #[trigger] Bus::value32(h(s), a) == Bus::value32(s, a) by {
        lemma_bus_reads(s, heard, a, 4);
    }
    assert forall|s: BusView, a: u32| #[trigger]
        Bus::loaded8(h(s), a) == h(Bus::loaded8(s, a)) by {
        lemma_bus_reads(s, heard, a, 1);
    }
    assert forall|s: BusView, a: u32| #[trigger]
        Bus::loaded16(h(s), a) == h(Bus::loaded16(s, a)) by {
        lemma_bus_reads(s, heard, a & !1u32, 2);
    }
    assert forall|s: BusView, a: u32| #[trigger]
        Bus::loaded32(h(s), a) == h(Bus::loaded32(s, a)) by {
        lemma_bus_reads(s, heard, a & !3u32, 4);
    }
    assert forall|s: BusView, a: u32, v: u8| #[trigger]
        Bus::stored8(h(s), a, v) == h(Bus::stored8(s, a, v)) by {
        lemma_bus_reads(s, heard, a, 1);
        lemma_put8(s.accounted(a, 1), heard, a, v);
    }
    assert forall|s: BusView, a: u32, v: u16| #[trigger]
        Bus::stored16(h(s), a, v) == h(Bus::stored16(s, a, v)) by {
        lemma_bus_reads(s, heard, a & !1u32, 2);
        lemma_put16(s.accounted(a & !1u32, 2), heard, a & !1u32, a, v);
    }
    assert forall|s: BusView, a: u32, v: u32| #[trigger]
        Bus::stored32(h(s), a, v) == h(Bus::stored32(s, a, v)) by {
        lemma_bus_reads(s, heard, a & !3u32, 4);
        lemma_put32(s.accounted(a & !3u32, 4), heard, a & !3u32, a, v);
    }
}

proof fn lemma_channel_ran(bus: BusView, heard: Seq<i16>, n: int)
    ensures
        channel_ran(bus_after(bus, heard), n) == bus_after(channel_ran(bus, n), heard),
{
    reveal(channel_ran);
    lemma_heard_is_hidden(heard);
    let h = |s: BusView| bus_after(s, heard);
    let controller = bus.io.dma;
    let detached = bus.with_io(with_dma(bus.io, DmaView::initial()));
    let hinted = transfer_hinted(detached, controller.channels[n], n);
    assert(transfer_hinted(h(detached), controller.channels[n], n) == h(hinted));
    lemma_channel::<Bus>(h, controller, n, hinted);
    let moved = controller.ran_memory::<Bus>(n, hinted);
    let attached = with_dma(moved.io, controller.ran(n));
    match controller.completion(n) {
        Some(irq) => {
            lemma_request(attached, heard, irq);
        },
        None => {},
    }
}

proof fn lemma_channels_ran(bus: BusView, heard: Seq<i16>, pending: u8, upto: int)
    ensures
        channels_ran(bus_after(bus, heard), pending, upto) == bus_after(
            channels_ran(bus, pending, upto),
            heard,
        ),
    decreases upto,
{
    if upto > 0 {
        lemma_channels_ran(bus, heard, pending, upto - 1);
        lemma_channel_ran(channels_ran(bus, pending, upto - 1), heard, upto - 1);
    }
}

proof fn lemma_dma_ran(bus: BusView, heard: Seq<i16>)
    ensures
        dma_ran(bus_after(bus, heard)) == bus_after(dma_ran(bus), heard),
{
    reveal(dma_ran);
    let taken = bus.with_io(with_dma(bus.io, DmaView { pending: 0, ..bus.io.dma }));
    lemma_channels_ran(taken, heard, bus.io.dma.pending, 4);
}

proof fn lemma_timer_irqs(
    io: IoView,
    heard: Seq<i16>,
    before: Seq<Timer>,
    cycles: u32,
    upto: int,
)
    ensures
        timer_irqs_raised(io_after(io, heard), before, cycles, upto) == io_after(
            timer_irqs_raised(io, before, cycles, upto),
            heard,
        ),
    decreases upto,
{
    if upto > 0 {
        lemma_timer_irqs(io, heard, before, cycles, upto - 1);
        lemma_request(
            timer_irqs_raised(io, before, cycles, upto - 1),
            heard,
            crate::memory::timers::timer_interrupt(upto - 1),
        );
    }
}

proof fn lemma_fifos_clocked(io: IoView, heard: Seq<i16>, timer: usize, count: u32)
    ensures
        fifos_clocked(io_after(io, heard), timer, count) == io_after(
            fifos_clocked(io, timer, count),
            heard,
        ),
{
    reveal(fifos_clocked);
}

proof fn lemma_units_stepped(io: IoView, heard: Seq<i16>, cycles: u32)
    ensures
        units_stepped(io_after(io, heard), cycles) == io_after(units_stepped(io, cycles), heard),
{
    reveal(units_stepped);
    let before = io.timers;
    let counted = IoView { timers: timers_stepped(before, cycles), ..io };
    lemma_timer_irqs(counted, heard, before, cycles, 4);
    let raised = timer_irqs_raised(counted, before, cycles, 4);
    let count0 = limited_count(overflows_of(before, cycles, 0));
    let count1 = limited_count(overflows_of(before, cycles, 1));
    lemma_fifos_clocked(raised, heard, 0, count0);
    let clocked0 = fifos_clocked(raised, 0, count0);
    lemma_fifos_clocked(clocked0, heard, 1, count1);
    let clocked1 = fifos_clocked(clocked0, 1, count1);
    lemma_apu_step(clocked1.apu, heard, cycles);
}

proof fn lemma_swi(gba: GbaView, heard: Seq<i16>, number: u8)
    ensures
        machine_after(gba, heard).swi_serviced(number) == machine_after(
            gba.swi_serviced(number),
            heard,
        ),
{
    reveal(GbaView::swi_serviced);
    lemma_heard_is_hidden(heard);
    let h = |s: BusView| bus_after(s, heard);
    law_service_sees_memory_through_accesses::<Bus>(h, number, gba.cpu, gba.bus);
    assert(h(gba.bus) == bus_after(gba.bus, heard));
}

proof fn lemma_wait_checked(gba: GbaView, heard: Seq<i16>)
    ensures
        machine_after(gba, heard).wait_checked() == machine_after(gba.wait_checked(), heard),
{
    reveal(GbaView::wait_checked);
    lemma_heard_is_hidden(heard);
    let h = |s: BusView| bus_after(s, heard);
    let a = bios::INTR_CHECK_FLAGS;
    assert(Bus::value16(h(gba.bus), a) == Bus::value16(gba.bus, a));
    let read = Bus::loaded16(gba.bus, a);
    assert(Bus::loaded16(h(gba.bus), a) == h(read));
    if gba.wait_due() {
        let left = Bus::value16(gba.bus, a) & !((gba.intr_wait->0).mask);
        assert(Bus::stored16(h(read), a, left) == h(Bus::stored16(read, a, left)));
    }
}

proof fn lemma_instruction(gba: GbaView, heard: Seq<i16>)
    ensures
        machine_after(gba, heard).instruction_run().0 == machine_after(
            gba.instruction_run().0,
            heard,
        ),
        machine_after(gba, heard).instruction_run().1 == gba.instruction_run().1,
{
    reveal(GbaView::instruction_run);
    lemma_heard_is_hidden(heard);
    let h = |s: BusView| bus_after(s, heard);
    law_step_sees_memory_through_accesses::<Bus>(h, gba.cpu, gba.bus);
    let (cpu, bus, cycles) = gba.cpu.step::<Bus>(gba.bus);
    assert(gba.cpu.step::<Bus>(bus_after(gba.bus, heard)) == (cpu, bus_after(bus, heard), cycles));
    let stepped = GbaView { cpu: CpuView { pending_swi: None, ..cpu }, bus, ..gba };
    match cpu.pending_swi {
        Some(number) => {
            lemma_swi(stepped, heard, number);
        },
        None => {},
    }
}

proof fn lemma_cpu_run(gba: GbaView, heard: Seq<i16>)
    ensures
        machine_after(gba, heard).cpu_run().0 == machine_after(gba.cpu_run().0, heard),
        machine_after(gba, heard).cpu_run().1 == gba.cpu_run().1,
{
    reveal(GbaView::cpu_run);
    lemma_wait_checked(gba, heard);
    lemma_instruction(gba.wait_checked(), heard);
}

proof fn lemma_pixels(io: IoView, heard: Seq<i16>, v: VideoView, bg: int, y: int, x: int)
    ensures
        bg_pixel(io_after(io, heard), v, bg, y, x) == bg_pixel(io, v, bg, y, x),
        bg_control_of(io_after(io, heard), bg) == bg_control_of(io, bg),
{
    broadcast use lemma_read16;

    let other = io_after(io, heard);
    assert(affine_params(other, bg) == affine_params(io, bg)) by {
        assert forall|off: u32| #[trigger] other.read32(off) == io.read32(off) by {}
    }
}

proof fn lemma_row(io: IoView, heard: Seq<i16>, v: VideoView, y: int)
    ensures
        rendered_row(io_after(io, heard), v, y) == rendered_row(io, v, y),
{
    broadcast use lemma_read16;

    let other = io_after(io, heard);
    let a = backgrounds(other, v, y);
    let b = backgrounds(io, v, y);
    assert forall|bg: int| 0 <= bg < 4 implies a.lines[bg] == b.lines[bg] by {
        assert forall|x: int| 0 <= x < 240 implies a.lines[bg][x] == b.lines[bg][x] by {
            lemma_pixels(io, heard, v, bg, y, x);
        }
        assert(a.lines[bg] =~= b.lines[bg]);
    }
    assert(a.lines =~= b.lines);
    assert(a.enabled =~= b.enabled);
    assert(a.priority =~= b.priority) by {
        assert forall|bg: int| 0 <= bg < 4 implies a.priority[bg] == b.priority[bg] by {
            lemma_pixels(io, heard, v, bg, y, 0);
        }
    }
    assert(blend_of(other) == blend_of(io));
    assert(rendered_row(other, v, y) =~= rendered_row(io, v, y));
}

proof fn lemma_enter_hblank(p: PpuView, io: IoView, heard: Seq<i16>, v: VideoView)
    ensures
        p.enter_hblank(io_after(io, heard), v).0 == p.enter_hblank(io, v).0,
        p.enter_hblank(io_after(io, heard), v).1 == io_after(p.enter_hblank(io, v).1, heard),
        p.enter_hblank(io_after(io, heard), v).2 == p.enter_hblank(io, v).2,
{
    broadcast use lemma_read16;

    reveal(PpuView::enter_hblank);
    lemma_row(io, heard, v, p.vcount as int);
    let flagged = io.set_raw16(reg::DISPSTAT, io.read16(reg::DISPSTAT) | dispstat::HBLANK);
    lemma_request(flagged, heard, Interrupt::HBlank);
}

proof fn lemma_end_line(p: PpuView, io: IoView, heard: Seq<i16>)
    ensures
        p.end_line(io_after(io, heard)).0 == p.end_line(io).0,
        p.end_line(io_after(io, heard)).1 == io_after(p.end_line(io).1, heard),
        p.end_line(io_after(io, heard)).2 == p.end_line(io).2,
{
    broadcast use lemma_read16;

    reveal(PpuView::end_line);
    let vcount = ((p.vcount + 1) % 228) as u16;
    let counted = io.set_raw16(reg::VCOUNT, vcount);
    lemma_request(counted, heard, Interrupt::VBlank);
    lemma_request(counted, heard, Interrupt::VCount);
    lemma_request(counted.request_interrupt(Interrupt::VBlank), heard, Interrupt::VCount);
}

proof fn lemma_ppu_run(p: PpuView, io: IoView, heard: Seq<i16>, v: VideoView, cycle: int)
    ensures
        p.run(io_after(io, heard), v, cycle).0 == p.run(io, v, cycle).0,
        p.run(io_after(io, heard), v, cycle).1 == io_after(p.run(io, v, cycle).1, heard),
        p.run(io_after(io, heard), v, cycle).2 == p.run(io, v, cycle).2,
    decreases cycle,
{
    lemma_enter_hblank(p, io, heard, v);
    let (drawn, io1, _) = if !p.in_hblank && cycle >= 960 {
        p.enter_hblank(io, v)
    } else {
        (p, io, false)
    };
    if cycle >= 1232 {
        lemma_end_line(drawn, io1, heard);
        let (next, io2, _) = drawn.end_line(io1);
        lemma_ppu_run(next, io2, heard, v, cycle - 1232);
    }
}

proof fn lemma_screen(gba: GbaView, heard: Seq<i16>, cycles: u32)
    ensures
        machine_after(gba, heard).ppu_run(cycles).0 == machine_after(
            gba.ppu_run(cycles).0,
            heard,
        ),
        machine_after(gba, heard).ppu_run(cycles).1 == gba.ppu_run(cycles).1,
{
    reveal(GbaView::ppu_run);
    reveal(PpuView::step);
    lemma_ppu_run(gba.ppu, gba.bus.io, heard, gba.bus.video, gba.ppu.line_cycle + cycles);
}

proof fn lemma_interrupts(gba: GbaView, heard: Seq<i16>)
    ensures
        machine_after(gba, heard).interrupts_serviced() == machine_after(
            gba.interrupts_serviced(),
            heard,
        ),
{
    broadcast use lemma_read16;

    reveal(GbaView::interrupts_serviced);
    lemma_heard_is_hidden(heard);
    let h = |s: BusView| bus_after(s, heard);
    let awake = CpuView { halted: false, ..gba.cpu };
    law_irq_sees_memory_through_accesses::<Bus>(h, awake, gba.bus);
    assert(h(gba.bus) == bus_after(gba.bus, heard));
}

/// One step does the same whatever was heard before it, and only adds to it.
pub proof fn law_step_ignores_heard_sound(gba: GbaView, heard: Seq<i16>)
    ensures
        machine_after(gba, heard).step().0 == machine_after(gba.step().0, heard),
        machine_after(gba, heard).step().1 == gba.step().1,
{
    reveal(GbaView::step);
    lemma_cpu_run(gba, heard);
    let (run, cycles) = gba.cpu_run();
    lemma_dma_ran(run.bus, heard);
    let moved = run.with_bus(dma_ran(run.bus));
    lemma_units_stepped(moved.bus.io, heard, cycles);
    let timed = moved.with_bus(moved.bus.with_io(units_stepped(moved.bus.io, cycles)));
    lemma_screen(timed, heard, cycles);
    let drawn = timed.ppu_run(cycles).0;
    lemma_dma_ran(drawn.bus, heard);
    let settled = drawn.with_bus(dma_ran(drawn.bus));
    lemma_interrupts(settled, heard);
}

proof fn lemma_steps(gba: GbaView, heard: Seq<i16>, n: nat)
    ensures
        machine_after(gba, heard).steps(n) == machine_after(gba.steps(n), heard),
    decreases n,
{
    if n > 0 {
        lemma_steps(gba, heard, (n - 1) as nat);
        law_step_ignores_heard_sound(gba.steps((n - 1) as nat), heard);
    }
}

/// What follows a restored snapshot is the same run, not a similar one: after
/// any number of steps the machine that dropped its buffered sound, as
/// restoring does, is the machine that kept it, apart from that sound, and it
/// completes its frames at the same steps.
pub proof fn law_restored_machine_runs_on(gba: GbaView, n: nat)
    ensures
        gba.steps(n) == machine_after(
            gba.audio_cleared().steps(n),
            gba.bus.io.apu.samples,
        ),
        gba.completes_frame(n) == gba.audio_cleared().completes_frame(n),
        gba.steps(n).ppu == gba.audio_cleared().steps(n).ppu,
        gba.steps(n).cpu == gba.audio_cleared().steps(n).cpu,
{
    let heard = gba.bus.io.apu.samples;
    let quiet = gba.audio_cleared();
    assert(heard + Seq::<i16>::empty() =~= heard);
    assert(machine_after(quiet, heard) == gba);
    lemma_steps(quiet, heard, n);
    law_step_ignores_heard_sound(quiet.steps(n), heard);
}

} // verus!
