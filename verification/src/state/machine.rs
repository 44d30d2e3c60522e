//! How a state file lays out the whole machine.
//!
//! The layout is positional: a struct is its fields in the order in which it
//! declares them, an array its elements, an enumeration the number of the
//! variant. An enumeration whose variants have fields is followed by a place
//! for each of them, which is empty where the variant lacks the field. The
//! cartridge ROM and the buffers that the PPU only draws a line in are not
//! part of it.

use vstd::prelude::*;

use crate::gba::{Gba, IntrWait};
use crate::memory::{Cartridge, Memory};
use crate::ppu::{Framebuffer, Ppu, CYCLES_PER_LINE, LINES_PER_FRAME};
use crate::state::memories::{bus_layout, lemma_bus, put_bus, take_bus, BusLayout, BusParts};
use crate::state::processor::{cpu_layout, lemma_cpu, put_cpu, take_cpu, CpuLayout, CpuParts};

verus! {

/// The PPU as plain values.
pub type PpuParts = (Vec<u32>, u16, u32, bool);

/// The PPU in a state file: its fields in order, up to the buffers that it
/// draws a line in.
pub type PpuLayout = (Seq<u32>, u16, u32, bool);

/// What a state file holds of the PPU.
pub open spec fn ppu_layout(ppu: Ppu) -> PpuLayout {
    (ppu.framebuffer.pixels@, ppu.vcount, ppu.line_cycle, ppu.in_hblank)
}

/// Takes the PPU apart.
fn take_ppu(ppu: &Ppu) -> (parts: PpuParts)
    ensures
        parts@ == ppu_layout(*ppu),
{
    let pixels = ppu.framebuffer.pixels.clone();
    assert(pixels@ =~= ppu.framebuffer.pixels@);
    (pixels, ppu.vcount, ppu.line_cycle, ppu.in_hblank)
}

/// Puts a PPU together, if its fields are in range.
fn put_ppu(parts: PpuParts) -> (put: Option<Ppu>)
    ensures
        match put {
            Some(ppu) => ppu.wf() && ppu_layout(ppu) == parts@,
            None => forall|ppu: Ppu| ppu.wf() ==> #[trigger] ppu_layout(ppu) != parts@,
        },
{
    let (pixels, vcount, line_cycle, in_hblank) = parts;
    if pixels.len() != 38400 || vcount >= LINES_PER_FRAME || line_cycle >= CYCLES_PER_LINE {
        return None;
    }
    let mut ppu = Ppu::new();
    ppu.framebuffer = Framebuffer { pixels };
    ppu.vcount = vcount;
    ppu.line_cycle = line_cycle;
    ppu.in_hblank = in_hblank;
    Some(ppu)
}

/// A wait call that may be pending as plain values: mask and return address.
pub type WaitCallParts = Option<(u16, u32)>;

/// What a state file holds of a wait call that may be pending.
pub open spec fn wait_call_layout(wait: Option<IntrWait>) -> WaitCallParts {
    match wait {
        Some(call) => Some((call.mask, call.resume_pc)),
        None => None,
    }
}

/// The machine as plain values.
pub type MachineParts = (CpuParts, BusParts, PpuParts, WaitCallParts, Option<u8>);

/// The machine in a state file: its fields in order.
pub type MachineLayout = (CpuLayout, BusLayout, PpuLayout, WaitCallParts, Option<u8>);

/// What a state file holds of a machine.
pub open spec fn machine_layout(gba: Gba) -> MachineLayout {
    (
        cpu_layout(gba.cpu),
        bus_layout(gba.bus),
        ppu_layout(gba.ppu),
        wait_call_layout(gba.intr_wait),
        gba.last_unsupported_swi,
    )
}

/// Takes a machine apart.
pub fn take_apart(gba: &Gba) -> (parts: MachineParts)
    ensures
        parts@ == machine_layout(*gba),
{
    let wait: WaitCallParts = match gba.intr_wait {
        Some(call) => Some((call.mask, call.resume_pc)),
        None => None,
    };
    (
        take_cpu(&gba.cpu),
        take_bus(&gba.bus),
        take_ppu(&gba.ppu),
        wait,
        gba.last_unsupported_swi,
    )
}

/// Whether no machine has this layout.
pub open spec fn no_machine(layout: MachineLayout) -> bool {
    forall|gba: Gba| gba.wf() ==> #[trigger] machine_layout(gba) != layout
}

/// Puts a machine together around the ROM of `cartridge`, or returns `None`
/// if no machine has these parts.
pub fn put_together(parts: MachineParts, cartridge: &Cartridge) -> (machine: Option<Gba>)
    requires
        cartridge.wf(),
    ensures
        match machine {
            Some(gba) => {
                &&& gba.wf()
                &&& machine_layout(gba) == parts@
                &&& gba@.bus.cartridge.rom == cartridge@.rom
            },
            None => no_machine(parts@),
        },
{
    proof {
        reveal(Gba::wf);
    }
    let (cpu, bus, ppu, wait, last_unsupported_swi) = parts;
    let intr_wait = match wait {
        Some((mask, resume_pc)) => Some(IntrWait { mask, resume_pc }),
        None => None,
    };
    match (put_cpu(cpu), put_bus(bus, cartridge.shared_rom()), put_ppu(ppu)) {
        (Some(cpu), Some(bus), Some(ppu)) => Some(
            Gba { cpu, bus, ppu, intr_wait, last_unsupported_swi },
        ),
        _ => None,
    }
}

/// A machine is told from every other with the same ROM by its layout.
pub proof fn law_layout_names_one_machine(a: Gba, b: Gba)
    requires
        machine_layout(a) == machine_layout(b),
        a@.bus.cartridge.rom == b@.bus.cartridge.rom,
    ensures
        a@ == b@,
{
    lemma_cpu(a.cpu, b.cpu);
    lemma_bus(a.bus, b.bus);
}

} // verus!
