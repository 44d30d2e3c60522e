//! How a state file lays out the processor.

use vstd::prelude::*;

use crate::cpu::registers::{Cpsr, Mode, Registers};
use crate::cpu::Cpu;

verus! {

/// The register file as plain values.
pub type RegistersParts = ([u32; 16], u32, [u32; 5], [u32; 5], [u32; 6], [u32; 6], [u32; 6]);

/// The register file in a state file: its fields in order.
pub type RegistersLayout = (Seq<u32>, u32, Seq<u32>, Seq<u32>, Seq<u32>, Seq<u32>, Seq<u32>);

/// The words of saved status registers.
pub open spec fn status_words(saved: Seq<Cpsr>) -> Seq<u32> {
    saved.map_values(|status: Cpsr| status.0)
}

/// What a state file holds of the register file.
pub open spec fn registers_layout(regs: Registers) -> RegistersLayout {
    (
        regs.gpr@,
        regs.cpsr.0,
        regs.usr_r8_r12@,
        regs.fiq_r8_r12@,
        regs.banked_sp@,
        regs.banked_lr@,
        status_words(regs.banked_spsr@),
    )
}

/// Takes the register file apart.
fn take_registers(regs: &Registers) -> (parts: RegistersParts)
    ensures
        parts@ == registers_layout(*regs),
{
    let saved: [u32; 6] = [
        regs.banked_spsr[0].0,
        regs.banked_spsr[1].0,
        regs.banked_spsr[2].0,
        regs.banked_spsr[3].0,
        regs.banked_spsr[4].0,
        regs.banked_spsr[5].0,
    ];
    assert(saved@ =~= status_words(regs.banked_spsr@));
    (
        regs.gpr,
        regs.cpsr.0,
        regs.usr_r8_r12,
        regs.fiq_r8_r12,
        regs.banked_sp,
        regs.banked_lr,
        saved,
    )
}

/// Puts a register file together, if the status names a mode.
fn put_registers(parts: RegistersParts) -> (put: Option<Registers>)
    ensures
        match put {
            Some(regs) => regs.wf() && registers_layout(regs) == parts@,
            None => forall|regs: Registers|
                regs.wf() ==> #[trigger] registers_layout(regs) != parts@,
        },
{
    let (gpr, status, usr_r8_r12, fiq_r8_r12, banked_sp, banked_lr, saved) = parts;
    if Mode::from_bits(status).is_none() {
        return None;
    }
    let banked_spsr: [Cpsr; 6] = [
        Cpsr(saved[0]),
        Cpsr(saved[1]),
        Cpsr(saved[2]),
        Cpsr(saved[3]),
        Cpsr(saved[4]),
        Cpsr(saved[5]),
    ];
    assert(status_words(banked_spsr@) =~= saved@);
    Some(
        Registers {
            gpr,
            cpsr: Cpsr(status),
            usr_r8_r12,
            fiq_r8_r12,
            banked_sp,
            banked_lr,
            banked_spsr,
        },
    )
}

/// The layout tells a register file from any other.
proof fn lemma_registers(a: Registers, b: Registers)
    requires
        registers_layout(a) == registers_layout(b),
    ensures
        a@ == b@,
{
    assert forall|i: int| 0 <= i < 6 implies a.banked_spsr@[i] == b.banked_spsr@[i] by {
        assert(status_words(a.banked_spsr@)[i] == status_words(b.banked_spsr@)[i]);
    }
    assert(a.banked_spsr@ =~= b.banked_spsr@);
}

/// The processor as plain values.
pub type CpuParts = (RegistersParts, [u32; 2], bool, u64, bool, Option<u8>, bool);

/// The processor in a state file: its fields in order.
pub type CpuLayout = (RegistersLayout, Seq<u32>, bool, u64, bool, Option<u8>, bool);

/// What a state file holds of the processor.
pub open spec fn cpu_layout(cpu: Cpu) -> CpuLayout {
    (
        registers_layout(cpu.regs),
        cpu.pipeline@,
        cpu.flushed,
        cpu.cycles,
        cpu.hle_swi,
        cpu.pending_swi,
        cpu.halted,
    )
}

/// Takes the processor apart.
pub(crate) fn take_cpu(cpu: &Cpu) -> (parts: CpuParts)
    ensures
        parts@ == cpu_layout(*cpu),
{
    (
        take_registers(&cpu.regs),
        cpu.pipeline,
        cpu.flushed,
        cpu.cycles,
        cpu.hle_swi,
        cpu.pending_swi,
        cpu.halted,
    )
}

/// Puts a processor together, if there is one with these parts.
pub(crate) fn put_cpu(parts: CpuParts) -> (put: Option<Cpu>)
    ensures
        match put {
            Some(cpu) => cpu.wf() && cpu_layout(cpu) == parts@,
            None => forall|cpu: Cpu| cpu.wf() ==> #[trigger] cpu_layout(cpu) != parts@,
        },
{
    let (regs, pipeline, flushed, cycles, hle_swi, pending_swi, halted) = parts;
    match put_registers(regs) {
        Some(regs) => Some(
            Cpu { regs, pipeline, flushed, cycles, hle_swi, pending_swi, halted },
        ),
        None => None,
    }
}

/// The layout tells a processor from any other.
pub(crate) proof fn lemma_cpu(a: Cpu, b: Cpu)
    requires
        cpu_layout(a) == cpu_layout(b),
    ensures
        a@ == b@,
{
    lemma_registers(a.regs, b.regs);
}

} // verus!
