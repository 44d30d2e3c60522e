//! The prefetch queue: every write to r15 refills it, and nothing else
//! moves it out of step.

use vstd::prelude::*;

use crate::cpu::arm::mem::{block_of, listed, Block};
use crate::cpu::arm::{arm_kind, field, ArmKind};
use crate::cpu::registers::{Cpsr, FLAG_C, FLAG_N, FLAG_T, FLAG_V, FLAG_Z};
use crate::cpu::thumb::alu::lemma_hi_register;
use crate::cpu::thumb::mem::{low_block, low_span};
use crate::cpu::thumb::{low_rd, low_register, thumb_kind, ThumbKind};
use crate::cpu::{after_fetch, fetched, CpuView};
use crate::memory::Memory;

verus! {

broadcast use crate::bits::group_mask_bounds;

/// `after` comes from `before` without touching the queue, and either asks
/// for a refill or has r15 and the instruction set as they were.
pub open spec fn keeps_place(before: CpuView, after: CpuView) -> bool {
    &&& after.pipeline == before.pipeline
    &&& after.regs.gpr.len() == 16
    &&& after.flushed || {
        &&& !before.flushed
        &&& after.regs.gpr[15] == before.regs.gpr[15]
        &&& after.thumb() == before.thumb()
    }
}

/// The condition flags, the mode field and `MSR` all leave the T bit alone.
proof fn lemma_state_bit()
    by (bit_vector)
    ensures
        forall|v: u32| #[trigger] (v | FLAG_N) & FLAG_T == v & FLAG_T,
        forall|v: u32| #[trigger] (v | FLAG_Z) & FLAG_T == v & FLAG_T,
        forall|v: u32| #[trigger] (v | FLAG_C) & FLAG_T == v & FLAG_T,
        forall|v: u32| #[trigger] (v | FLAG_V) & FLAG_T == v & FLAG_T,
        forall|v: u32| #[trigger] (v & !FLAG_N) & FLAG_T == v & FLAG_T,
        forall|v: u32| #[trigger] (v & !FLAG_Z) & FLAG_T == v & FLAG_T,
        forall|v: u32| #[trigger] (v & !FLAG_C) & FLAG_T == v & FLAG_T,
        forall|v: u32| #[trigger] (v & !FLAG_V) & FLAG_T == v & FLAG_T,
        forall|v: u32, w: u32| #[trigger] ((v & !0x1Fu32) | (w & 0x1F)) & FLAG_T == v & FLAG_T,
        forall|v: u32, w: u32, m: u32|
            #[trigger] ((v & !(m & !(1u32 << 5))) | (w & (m & !(1u32 << 5)))) & FLAG_T == v
                & FLAG_T,
{
}

/// The T bit of a status that only the condition flags change.
proof fn lemma_flags(cpsr: Cpsr, result: u32, c: bool, v: bool)
    ensures
        cpsr.with_nz(result).thumb() == cpsr.thumb(),
        cpsr.with(FLAG_N, c).with(FLAG_Z, v).thumb() == cpsr.thumb(),
        cpsr.with_nz(result).with(FLAG_C, c).thumb() == cpsr.thumb(),
        cpsr.with_nz(result).with(FLAG_C, c).with(FLAG_V, v).thumb() == cpsr.thumb(),
{
    lemma_state_bit();
}

proof fn lemma_block_loads<M: Memory>(cpu: CpuView, s: M::State, b: Block, upto: int)
    requires
        cpu.regs.gpr.len() == 16,
        !cpu.flushed,
        upto <= 16,
    ensures
        keeps_place(cpu, cpu.block_loads::<M>(s, b, upto).0),
        upto == 16 && listed(b.list, 15) ==> cpu.block_loads::<M>(s, b, upto).0.flushed,
    decreases upto,
{
    if upto > 0 {
        lemma_block_loads::<M>(cpu, s, b, upto - 1);
    }
}

proof fn lemma_psr_transfer(cpu: CpuView, op: u32)
    requires
        cpu.regs.wf(),
        !cpu.flushed,
    ensures
        keeps_place(cpu, cpu.arm_psr_transfer(op)),
{
    lemma_state_bit();
}

proof fn lemma_data_processing(cpu: CpuView, op: u32)
    requires
        cpu.regs.wf(),
        !cpu.flushed,
    ensures
        keeps_place(cpu, cpu.arm_data_processing(op).0),
{
    assert forall|result: u32, arith: Option<(bool, bool)>, carry: bool|
        (#[trigger] CpuView::dp_flags(cpu.regs.cpsr, result, arith, carry)).thumb()
            == cpu.thumb() by {
        lemma_state_bit();
    }
}

proof fn lemma_multiplies(cpu: CpuView, op: u32)
    requires
        cpu.regs.wf(),
        !cpu.flushed,
    ensures
        keeps_place(cpu, cpu.arm_multiply(op).0),
        keeps_place(cpu, cpu.arm_multiply_long(op).0),
{
    lemma_state_bit();
}

proof fn lemma_single_transfers<M: Memory>(cpu: CpuView, s: M::State, op: u32)
    requires
        cpu.regs.wf(),
        !cpu.flushed,
    ensures
        keeps_place(cpu, cpu.arm_single_transfer::<M>(s, op).0),
        keeps_place(cpu, cpu.arm_halfword_transfer::<M>(s, op).0),
        keeps_place(cpu, cpu.arm_swap::<M>(s, op).0),
{
}

proof fn lemma_block_transfer<M: Memory>(cpu: CpuView, s: M::State, op: u32)
    requires
        cpu.regs.wf(),
        !cpu.flushed,
    ensures
        keeps_place(cpu, cpu.arm_block_transfer::<M>(s, op).0),
{
    lemma_block_loads::<M>(cpu, s, block_of(op, cpu.regs.gpr[field(op, 16)]), 16);
}

/// Whatever an ARM instruction writes to r15 flushes the queue: one that
/// asks for no refill leaves r15 and the instruction set alone.
pub proof fn law_arm_writes_to_r15_flush<M: Memory>(cpu: CpuView, s: M::State, op: u32)
    requires
        cpu.regs.wf(),
        !cpu.flushed,
    ensures
        keeps_place(cpu, cpu.execute_arm::<M>(s, op).0),
{
    reveal(CpuView::execute_arm);
    match arm_kind(op) {
        ArmKind::PsrTransfer => lemma_psr_transfer(cpu, op),
        ArmKind::DataProcessing => lemma_data_processing(cpu, op),
        ArmKind::Multiply | ArmKind::MultiplyLong => lemma_multiplies(cpu, op),
        ArmKind::SingleDataSwap | ArmKind::HalfwordTransfer | ArmKind::SingleDataTransfer =>
            lemma_single_transfers::<M>(cpu, s, op),
        ArmKind::BlockDataTransfer => lemma_block_transfer::<M>(cpu, s, op),
        _ => {},
    }
}

/// Storing a result in a low register and setting flags moves nothing else.
proof fn lemma_low_result(cpu: CpuView)
    requires
        cpu.regs.wf(),
        !cpu.flushed,
    ensures
        forall|rd: int, value: u32, carry: bool|
            0 <= rd < 8 ==> keeps_place(cpu, #[trigger] cpu.set_logical(rd, value, carry)),
        forall|rd: int, result: (u32, bool, bool)|
            0 <= rd < 8 ==> keeps_place(cpu, #[trigger] cpu.set_arith(rd, result)),
        forall|result: (u32, bool, bool)|
            keeps_place(cpu, #[trigger] cpu.set_arith_flags(result)),
{
    lemma_state_bit();
}

proof fn lemma_thumb_arithmetic(cpu: CpuView, op: u16)
    requires
        cpu.regs.wf(),
        !cpu.flushed,
    ensures
        keeps_place(cpu, cpu.thumb_move_shifted(op)),
        keeps_place(cpu, cpu.thumb_add_sub(op)),
        keeps_place(cpu, cpu.thumb_hi_reg(op)),
        keeps_place(cpu, cpu.thumb_load_address(op)),
        keeps_place(cpu, cpu.thumb_add_sp(op)),
{
    lemma_low_result(cpu);
    lemma_hi_register(op);
}

proof fn lemma_thumb_immediate(cpu: CpuView, op: u16)
    requires
        cpu.regs.wf(),
        !cpu.flushed,
    ensures
        keeps_place(cpu, cpu.thumb_immediate(op)),
{
    lemma_low_result(cpu);
    lemma_flags(cpu.regs.cpsr, (op & 0xFF) as u32, false, false);
}

proof fn lemma_thumb_alu(cpu: CpuView, op: u16)
    requires
        cpu.regs.wf(),
        !cpu.flushed,
    ensures
        keeps_place(cpu, cpu.thumb_alu(op).0),
{
    lemma_low_result(cpu);
    let product = cpu.regs.gpr[low_rd(op)].wrapping_mul(cpu.regs.gpr[low_register(op, 3)]);
    lemma_flags(cpu.regs.cpsr, product, false, false);
    let a = cpu.regs.gpr[low_rd(op)] & cpu.regs.gpr[low_register(op, 3)];
    lemma_flags(cpu.regs.cpsr, a, cpu.regs.cpsr.c(), false);
}

proof fn lemma_thumb_blocks<M: Memory>(cpu: CpuView, s: M::State, op: u16)
    requires
        cpu.regs.wf(),
        !cpu.flushed,
    ensures
        keeps_place(cpu, cpu.thumb_push_pop::<M>(s, op).0),
        keeps_place(cpu, cpu.thumb_ldm_stm::<M>(s, op).0),
{
    let sp = cpu.regs.gpr[13];
    lemma_block_loads::<M>(
        cpu,
        s,
        low_block(op, true, 13, sp, sp.wrapping_add(low_span(op))),
        8,
    );
    let rb = low_register(op, 8);
    let base = cpu.regs.gpr[rb];
    lemma_block_loads::<M>(
        cpu,
        s,
        low_block(op, true, rb, base, base.wrapping_add(low_span(op))),
        8,
    );
}

/// Whatever a THUMB instruction writes to r15 flushes the queue: one that
/// asks for no refill leaves r15 and the instruction set alone.
pub proof fn law_thumb_writes_to_r15_flush<M: Memory>(cpu: CpuView, s: M::State, op: u16)
    requires
        cpu.regs.wf(),
        !cpu.flushed,
    ensures
        keeps_place(cpu, cpu.execute_thumb::<M>(s, op).0),
{
    reveal(CpuView::execute_thumb);
    match thumb_kind(op) {
        ThumbKind::MovCmpAddSubImm => lemma_thumb_immediate(cpu, op),
        ThumbKind::AluOps => lemma_thumb_alu(cpu, op),
        ThumbKind::PushPop | ThumbKind::LdmStm => lemma_thumb_blocks::<M>(cpu, s, op),
        _ => lemma_thumb_arithmetic(cpu, op),
    }
}

/// The queue holds the two instructions from `next_pc` on, as they were read
/// with memory at `s`.
pub open spec fn filled_from<M: Memory>(cpu: CpuView, s: M::State) -> bool {
    let t = cpu.thumb();
    let first = cpu.next_pc();
    let second = first.wrapping_add(cpu.instruction_size());
    cpu.pipeline == seq![
        fetched::<M>(t, s, first),
        fetched::<M>(t, after_fetch::<M>(t, s, first), second),
    ]
}

/// A step either goes on to the next instruction, and then the queue moves
/// up by the one that r15 pointed at, or it jumps, and then the queue is
/// filled from where it jumped to.
pub proof fn law_step_moves_the_queue<M: Memory>(cpu: CpuView, s: M::State)
    requires
        cpu.regs.wf(),
        cpu.pipeline.len() == 2,
        !cpu.flushed,
    ensures
        ({
            let after = cpu.step::<M>(s).0;
            let pc = cpu.regs.gpr[15];
            &&& !after.flushed
            &&& after.pipeline.len() == 2
            &&& {
                ||| {
                    &&& after.thumb() == cpu.thumb()
                    &&& after.next_pc() == cpu.next_pc().wrapping_add(cpu.instruction_size())
                    &&& after.regs.gpr[15] == pc.wrapping_add(cpu.instruction_size())
                    &&& after.pipeline == seq![
                        cpu.pipeline[1],
                        fetched::<M>(cpu.thumb(), s, pc),
                    ]
                }
                ||| exists|jumped: M::State| #[trigger] filled_from::<M>(after, jumped)
            }
        }),
{
    reveal(CpuView::step);
    let t = cpu.thumb();
    let pc = cpu.regs.gpr[15];
    let op = cpu.pipeline[0];
    let advanced = CpuView {
        pipeline: seq![cpu.pipeline[1], fetched::<M>(t, s, pc)],
        ..cpu
    };
    let s1 = after_fetch::<M>(t, s, pc);
    let (executed, s2, internal) = if t {
        advanced.execute_thumb::<M>(s1, op as u16)
    } else {
        advanced.execute_arm::<M>(s1, op)
    };
    if t {
        law_thumb_writes_to_r15_flush::<M>(advanced, s1, op as u16);
    } else {
        law_arm_writes_to_r15_flush::<M>(advanced, s1, op);
    }
    let after = cpu.step::<M>(s).0;
    if executed.flushed {
        assert(after.next_pc() == executed.aligned(executed.regs.gpr[15]));
        assert(filled_from::<M>(after, s2));
    }
}

} // verus!
