//! The processor changes memory through its accesses alone: what they keep
//! it keeps.

use vstd::prelude::*;

use crate::cpu::arm::field;
use crate::cpu::arm::mem::{block_of, Block};
use crate::cpu::thumb::low_register;
use crate::cpu::thumb::mem::{low_block, low_span};
use crate::cpu::{after_fetch, fetched, CpuView, Exception};
use crate::memory::kept::kept;
use crate::memory::Memory;

verus! {

proof fn lemma_block_loads<M: Memory, A>(
    f: spec_fn(M::State) -> A,
    cpu: CpuView,
    s: M::State,
    b: Block,
    upto: int,
)
    requires
        kept::<M, A>(f),
    ensures
        f(cpu.block_loads::<M>(s, b, upto).1) == f(s),
    decreases upto,
{
    if upto > 0 {
        lemma_block_loads::<M, A>(f, cpu, s, b, upto - 1);
    }
}

proof fn lemma_block_stores<M: Memory, A>(
    f: spec_fn(M::State) -> A,
    cpu: CpuView,
    s: M::State,
    b: Block,
    writeback: bool,
    upto: int,
)
    requires
        kept::<M, A>(f),
    ensures
        f(cpu.block_stores::<M>(s, b, writeback, upto)) == f(s),
    decreases upto,
{
    if upto > 0 {
        lemma_block_stores::<M, A>(f, cpu, s, b, writeback, upto - 1);
    }
}

proof fn lemma_single_transfer<M: Memory, A>(
    f: spec_fn(M::State) -> A,
    cpu: CpuView,
    s: M::State,
    op: u32,
)
    requires
        kept::<M, A>(f),
    ensures
        f(cpu.arm_single_transfer::<M>(s, op).1) == f(s),
{
}

proof fn lemma_halfword_transfer<M: Memory, A>(
    f: spec_fn(M::State) -> A,
    cpu: CpuView,
    s: M::State,
    op: u32,
)
    requires
        kept::<M, A>(f),
    ensures
        f(cpu.arm_halfword_transfer::<M>(s, op).1) == f(s),
{
}

proof fn lemma_swap<M: Memory, A>(
    f: spec_fn(M::State) -> A,
    cpu: CpuView,
    s: M::State,
    op: u32,
)
    requires
        kept::<M, A>(f),
    ensures
        f(cpu.arm_swap::<M>(s, op).1) == f(s),
{
}

proof fn lemma_block_transfer<M: Memory, A>(
    f: spec_fn(M::State) -> A,
    cpu: CpuView,
    s: M::State,
    op: u32,
)
    requires
        kept::<M, A>(f),
    ensures
        f(cpu.arm_block_transfer::<M>(s, op).1) == f(s),
{
    let b = block_of(op, cpu.regs.gpr[field(op, 16)]);
    lemma_block_loads::<M, A>(f, cpu, s, b, 16);
    lemma_block_stores::<M, A>(f, cpu, s, b, op & (1u32 << 21) != 0, 16);
}

proof fn lemma_execute_arm<M: Memory, A>(
    f: spec_fn(M::State) -> A,
    cpu: CpuView,
    s: M::State,
    op: u32,
)
    requires
        kept::<M, A>(f),
    ensures
        f(cpu.execute_arm::<M>(s, op).1) == f(s),
{
    reveal(CpuView::execute_arm);
    lemma_single_transfer::<M, A>(f, cpu, s, op);
    lemma_halfword_transfer::<M, A>(f, cpu, s, op);
    lemma_swap::<M, A>(f, cpu, s, op);
    lemma_block_transfer::<M, A>(f, cpu, s, op);
}

proof fn lemma_thumb_ldr_str_reg<M: Memory, A>(
    f: spec_fn(M::State) -> A,
    cpu: CpuView,
    s: M::State,
    op: u16,
)
    requires
        kept::<M, A>(f),
    ensures
        f(cpu.thumb_ldr_str_reg::<M>(s, op).1) == f(s),
{
}

proof fn lemma_thumb_ldr_str_sign_ext<M: Memory, A>(
    f: spec_fn(M::State) -> A,
    cpu: CpuView,
    s: M::State,
    op: u16,
)
    requires
        kept::<M, A>(f),
    ensures
        f(cpu.thumb_ldr_str_sign_ext::<M>(s, op).1) == f(s),
{
}

proof fn lemma_thumb_ldr_str_imm<M: Memory, A>(
    f: spec_fn(M::State) -> A,
    cpu: CpuView,
    s: M::State,
    op: u16,
)
    requires
        kept::<M, A>(f),
    ensures
        f(cpu.thumb_ldr_str_imm::<M>(s, op).1) == f(s),
{
}

proof fn lemma_thumb_ldr_str_half<M: Memory, A>(
    f: spec_fn(M::State) -> A,
    cpu: CpuView,
    s: M::State,
    op: u16,
)
    requires
        kept::<M, A>(f),
    ensures
        f(cpu.thumb_ldr_str_half::<M>(s, op).1) == f(s),
{
}

proof fn lemma_thumb_ldr_str_sp<M: Memory, A>(
    f: spec_fn(M::State) -> A,
    cpu: CpuView,
    s: M::State,
    op: u16,
)
    requires
        kept::<M, A>(f),
    ensures
        f(cpu.thumb_ldr_str_sp::<M>(s, op).1) == f(s),
{
}

proof fn lemma_thumb_ldr_pc<M: Memory, A>(
    f: spec_fn(M::State) -> A,
    cpu: CpuView,
    s: M::State,
    op: u16,
)
    requires
        kept::<M, A>(f),
    ensures
        f(cpu.thumb_ldr_pc::<M>(s, op).1) == f(s),
{
}

proof fn lemma_thumb_push_pop<M: Memory, A>(
    f: spec_fn(M::State) -> A,
    cpu: CpuView,
    s: M::State,
    op: u16,
)
    requires
        kept::<M, A>(f),
    ensures
        f(cpu.thumb_push_pop::<M>(s, op).1) == f(s),
{
    let sp = cpu.regs.gpr[13];
    let past = sp.wrapping_add(low_span(op));
    lemma_block_loads::<M, A>(f, cpu, s, low_block(op, true, 13, sp, past), 8);
    let extra: int = if op & (1u16 << 8) != 0 {
        4
    } else {
        0
    };
    let bottom = sp.wrapping_sub((low_span(op) + extra) as u32);
    lemma_block_stores::<M, A>(
        f,
        cpu.set(13, bottom),
        s,
        low_block(op, false, 13, bottom, bottom),
        false,
        8,
    );
}

proof fn lemma_thumb_ldm_stm<M: Memory, A>(
    f: spec_fn(M::State) -> A,
    cpu: CpuView,
    s: M::State,
    op: u16,
)
    requires
        kept::<M, A>(f),
    ensures
        f(cpu.thumb_ldm_stm::<M>(s, op).1) == f(s),
{
    let load = op & (1u16 << 11) != 0;
    let rb = low_register(op, 8);
    let base = cpu.regs.gpr[rb];
    let b = low_block(op, load, rb, base, base.wrapping_add(low_span(op)));
    lemma_block_loads::<M, A>(f, cpu, s, b, 8);
    lemma_block_stores::<M, A>(f, cpu, s, b, true, 8);
}

proof fn lemma_execute_thumb<M: Memory, A>(
    f: spec_fn(M::State) -> A,
    cpu: CpuView,
    s: M::State,
    op: u16,
)
    requires
        kept::<M, A>(f),
    ensures
        f(cpu.execute_thumb::<M>(s, op).1) == f(s),
{
    reveal(CpuView::execute_thumb);
    lemma_thumb_ldr_str_reg::<M, A>(f, cpu, s, op);
    lemma_thumb_ldr_str_sign_ext::<M, A>(f, cpu, s, op);
    lemma_thumb_ldr_str_imm::<M, A>(f, cpu, s, op);
    lemma_thumb_ldr_str_half::<M, A>(f, cpu, s, op);
    lemma_thumb_ldr_str_sp::<M, A>(f, cpu, s, op);
    lemma_thumb_ldr_pc::<M, A>(f, cpu, s, op);
    lemma_thumb_push_pop::<M, A>(f, cpu, s, op);
    lemma_thumb_ldm_stm::<M, A>(f, cpu, s, op);
}

proof fn lemma_flush<M: Memory, A>(
    f: spec_fn(M::State) -> A,
    cpu: CpuView,
    s: M::State,
    address: u32,
)
    requires
        kept::<M, A>(f),
    ensures
        f(cpu.flush_pipeline::<M>(s, address).1) == f(s),
{
}

/// An instruction keeps what every access to memory keeps.
pub proof fn law_step_keeps_what_accesses_keep<M: Memory, A>(
    f: spec_fn(M::State) -> A,
    cpu: CpuView,
    s: M::State,
)
    requires
        kept::<M, A>(f),
    ensures
        f(cpu.step::<M>(s).1) == f(s),
{
    reveal(CpuView::step);
    let t = cpu.thumb();
    let pc = cpu.regs.gpr[15];
    let op = cpu.pipeline[0];
    let advanced = CpuView {
        pipeline: seq![cpu.pipeline[1], fetched::<M>(t, s, pc)],
        ..cpu
    };
    let s1 = after_fetch::<M>(t, s, pc);
    assert(f(s1) == f(s));
    lemma_execute_arm::<M, A>(f, advanced, s1, op);
    lemma_execute_thumb::<M, A>(f, advanced, s1, op as u16);
    let (executed, s2, _) = if t {
        advanced.execute_thumb::<M>(s1, op as u16)
    } else {
        advanced.execute_arm::<M>(s1, op)
    };
    lemma_flush::<M, A>(f, executed, s2, executed.regs.gpr[15]);
}

/// So does an interrupt that is taken.
pub proof fn law_irq_keeps_what_accesses_keep<M: Memory, A>(
    f: spec_fn(M::State) -> A,
    cpu: CpuView,
    s: M::State,
)
    requires
        kept::<M, A>(f),
    ensures
        f(cpu.raise_irq::<M>(s).1) == f(s),
{
    reveal(CpuView::raise_irq);
    let entered = CpuView { halted: false, ..cpu }.enter_exception(Exception::Irq);
    lemma_flush::<M, A>(f, entered, s, entered.regs.gpr[15]);
}

} // verus!
