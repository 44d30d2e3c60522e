//! The processor sees memory through its accesses alone: what they do not
//! show makes no difference to it.

use vstd::prelude::*;

use crate::cpu::arm::field;
use crate::cpu::arm::mem::{block_of, Block};
use crate::cpu::thumb::low_register;
use crate::cpu::thumb::mem::{low_block, low_span};
use crate::cpu::{after_fetch, fetched, CpuView, Exception};
use crate::memory::hidden::hidden;
use crate::memory::Memory;

verus! {

/// A result with the memory changed by `h`.
pub open spec fn changed<M: Memory>(
    h: spec_fn(M::State) -> M::State,
    result: (CpuView, M::State, u32),
) -> (CpuView, M::State, u32) {
    (result.0, h(result.1), result.2)
}

proof fn lemma_block_loads<M: Memory>(
    h: spec_fn(M::State) -> M::State,
    cpu: CpuView,
    s: M::State,
    b: Block,
    upto: int,
)
    requires
        hidden::<M>(h),
    ensures
        cpu.block_loads::<M>(h(s), b, upto).0 == cpu.block_loads::<M>(s, b, upto).0,
        cpu.block_loads::<M>(h(s), b, upto).1 == h(cpu.block_loads::<M>(s, b, upto).1),
    decreases upto,
{
    if upto > 0 {
        lemma_block_loads::<M>(h, cpu, s, b, upto - 1);
    }
}

proof fn lemma_block_stores<M: Memory>(
    h: spec_fn(M::State) -> M::State,
    cpu: CpuView,
    s: M::State,
    b: Block,
    writeback: bool,
    upto: int,
)
    requires
        hidden::<M>(h),
    ensures
        cpu.block_stores::<M>(h(s), b, writeback, upto) == h(
            cpu.block_stores::<M>(s, b, writeback, upto),
        ),
    decreases upto,
{
    if upto > 0 {
        lemma_block_stores::<M>(h, cpu, s, b, writeback, upto - 1);
    }
}

proof fn lemma_single_transfer<M: Memory>(
    h: spec_fn(M::State) -> M::State,
    cpu: CpuView,
    s: M::State,
    op: u32,
)
    requires
        hidden::<M>(h),
    ensures
        cpu.arm_single_transfer::<M>(h(s), op) == changed::<M>(
            h,
            cpu.arm_single_transfer::<M>(s, op),
        ),
{
}

proof fn lemma_halfword_transfer<M: Memory>(
    h: spec_fn(M::State) -> M::State,
    cpu: CpuView,
    s: M::State,
    op: u32,
)
    requires
        hidden::<M>(h),
    ensures
        cpu.arm_halfword_transfer::<M>(h(s), op) == changed::<M>(
            h,
            cpu.arm_halfword_transfer::<M>(s, op),
        ),
{
}

proof fn lemma_swap<M: Memory>(
    h: spec_fn(M::State) -> M::State,
    cpu: CpuView,
    s: M::State,
    op: u32,
)
    requires
        hidden::<M>(h),
    ensures
        cpu.arm_swap::<M>(h(s), op) == changed::<M>(h, cpu.arm_swap::<M>(s, op)),
{
}

proof fn lemma_block_transfer<M: Memory>(
    h: spec_fn(M::State) -> M::State,
    cpu: CpuView,
    s: M::State,
    op: u32,
)
    requires
        hidden::<M>(h),
    ensures
        cpu.arm_block_transfer::<M>(h(s), op) == changed::<M>(
            h,
            cpu.arm_block_transfer::<M>(s, op),
        ),
{
    let b = block_of(op, cpu.regs.gpr[field(op, 16)]);
    lemma_block_loads::<M>(h, cpu, s, b, 16);
    lemma_block_stores::<M>(h, cpu, s, b, op & (1u32 << 21) != 0, 16);
}

proof fn lemma_execute_arm<M: Memory>(
    h: spec_fn(M::State) -> M::State,
    cpu: CpuView,
    s: M::State,
    op: u32,
)
    requires
        hidden::<M>(h),
    ensures
        cpu.execute_arm::<M>(h(s), op) == changed::<M>(h, cpu.execute_arm::<M>(s, op)),
{
    reveal(CpuView::execute_arm);
    lemma_single_transfer::<M>(h, cpu, s, op);
    lemma_halfword_transfer::<M>(h, cpu, s, op);
    lemma_swap::<M>(h, cpu, s, op);
    lemma_block_transfer::<M>(h, cpu, s, op);
}

proof fn lemma_thumb_ldr_str_reg<M: Memory>(
    h: spec_fn(M::State) -> M::State,
    cpu: CpuView,
    s: M::State,
    op: u16,
)
    requires
        hidden::<M>(h),
    ensures
        cpu.thumb_ldr_str_reg::<M>(h(s), op) == changed::<M>(h, cpu.thumb_ldr_str_reg::<M>(s, op)),
{
}

proof fn lemma_thumb_ldr_str_sign_ext<M: Memory>(
    h: spec_fn(M::State) -> M::State,
    cpu: CpuView,
    s: M::State,
    op: u16,
)
    requires
        hidden::<M>(h),
    ensures
        cpu.thumb_ldr_str_sign_ext::<M>(h(s), op) == changed::<M>(
            h,
            cpu.thumb_ldr_str_sign_ext::<M>(s, op),
        ),
{
}

proof fn lemma_thumb_ldr_str_imm<M: Memory>(
    h: spec_fn(M::State) -> M::State,
    cpu: CpuView,
    s: M::State,
    op: u16,
)
    requires
        hidden::<M>(h),
    ensures
        cpu.thumb_ldr_str_imm::<M>(h(s), op) == changed::<M>(h, cpu.thumb_ldr_str_imm::<M>(s, op)),
{
}

proof fn lemma_thumb_ldr_str_half<M: Memory>(
    h: spec_fn(M::State) -> M::State,
    cpu: CpuView,
    s: M::State,
    op: u16,
)
    requires
        hidden::<M>(h),
    ensures
        cpu.thumb_ldr_str_half::<M>(h(s), op) == changed::<M>(
            h,
            cpu.thumb_ldr_str_half::<M>(s, op),
        ),
{
}

proof fn lemma_thumb_ldr_str_sp<M: Memory>(
    h: spec_fn(M::State) -> M::State,
    cpu: CpuView,
    s: M::State,
    op: u16,
)
    requires
        hidden::<M>(h),
    ensures
        cpu.thumb_ldr_str_sp::<M>(h(s), op) == changed::<M>(h, cpu.thumb_ldr_str_sp::<M>(s, op)),
{
}

proof fn lemma_thumb_ldr_pc<M: Memory>(
    h: spec_fn(M::State) -> M::State,
    cpu: CpuView,
    s: M::State,
    op: u16,
)
    requires
        hidden::<M>(h),
    ensures
        cpu.thumb_ldr_pc::<M>(h(s), op) == changed::<M>(h, cpu.thumb_ldr_pc::<M>(s, op)),
{
}

proof fn lemma_thumb_push_pop<M: Memory>(
    h: spec_fn(M::State) -> M::State,
    cpu: CpuView,
    s: M::State,
    op: u16,
)
    requires
        hidden::<M>(h),
    ensures
        cpu.thumb_push_pop::<M>(h(s), op) == changed::<M>(h, cpu.thumb_push_pop::<M>(s, op)),
{
    let sp = cpu.regs.gpr[13];
    let past = sp.wrapping_add(low_span(op));
    lemma_block_loads::<M>(h, cpu, s, low_block(op, true, 13, sp, past), 8);
    let extra: int = if op & (1u16 << 8) != 0 {
        4
    } else {
        0
    };
    let bottom = sp.wrapping_sub((low_span(op) + extra) as u32);
    lemma_block_stores::<M>(
        h,
        cpu.set(13, bottom),
        s,
        low_block(op, false, 13, bottom, bottom),
        false,
        8,
    );
}

proof fn lemma_thumb_ldm_stm<M: Memory>(
    h: spec_fn(M::State) -> M::State,
    cpu: CpuView,
    s: M::State,
    op: u16,
)
    requires
        hidden::<M>(h),
    ensures
        cpu.thumb_ldm_stm::<M>(h(s), op) == changed::<M>(h, cpu.thumb_ldm_stm::<M>(s, op)),
{
    let load = op & (1u16 << 11) != 0;
    let rb = low_register(op, 8);
    let base = cpu.regs.gpr[rb];
    let b = low_block(op, load, rb, base, base.wrapping_add(low_span(op)));
    lemma_block_loads::<M>(h, cpu, s, b, 8);
    lemma_block_stores::<M>(h, cpu, s, b, true, 8);
}

proof fn lemma_execute_thumb<M: Memory>(
    h: spec_fn(M::State) -> M::State,
    cpu: CpuView,
    s: M::State,
    op: u16,
)
    requires
        hidden::<M>(h),
    ensures
        cpu.execute_thumb::<M>(h(s), op) == changed::<M>(h, cpu.execute_thumb::<M>(s, op)),
{
    reveal(CpuView::execute_thumb);
    lemma_thumb_ldr_str_reg::<M>(h, cpu, s, op);
    lemma_thumb_ldr_str_sign_ext::<M>(h, cpu, s, op);
    lemma_thumb_ldr_str_imm::<M>(h, cpu, s, op);
    lemma_thumb_ldr_str_half::<M>(h, cpu, s, op);
    lemma_thumb_ldr_str_sp::<M>(h, cpu, s, op);
    lemma_thumb_ldr_pc::<M>(h, cpu, s, op);
    lemma_thumb_push_pop::<M>(h, cpu, s, op);
    lemma_thumb_ldm_stm::<M>(h, cpu, s, op);
}

proof fn lemma_flush<M: Memory>(
    h: spec_fn(M::State) -> M::State,
    cpu: CpuView,
    s: M::State,
    address: u32,
)
    requires
        hidden::<M>(h),
    ensures
        cpu.flush_pipeline::<M>(h(s), address).0 == cpu.flush_pipeline::<M>(s, address).0,
        cpu.flush_pipeline::<M>(h(s), address).1 == h(cpu.flush_pipeline::<M>(s, address).1),
{
}

/// A change of memory that no access shows makes no difference to the
/// instruction that runs.
pub proof fn law_step_sees_memory_through_accesses<M: Memory>(
    h: spec_fn(M::State) -> M::State,
    cpu: CpuView,
    s: M::State,
)
    requires
        hidden::<M>(h),
    ensures
        cpu.step::<M>(h(s)) == changed::<M>(h, cpu.step::<M>(s)),
{
    reveal(CpuView::step);
    let t = cpu.thumb();
    let pc = cpu.regs.gpr[15];
    let op = cpu.pipeline[0];
    let advanced = CpuView {
        pipeline: seq![cpu.pipeline[1], fetched::<M>(t, s, pc)],
        ..cpu
    };
    let s1 = after_fetch::<M>(t, s, pc);
    assert(after_fetch::<M>(t, h(s), pc) == h(s1));
    lemma_execute_arm::<M>(h, advanced, s1, op);
    lemma_execute_thumb::<M>(h, advanced, s1, op as u16);
    let (executed, s2, _) = if t {
        advanced.execute_thumb::<M>(s1, op as u16)
    } else {
        advanced.execute_arm::<M>(s1, op)
    };
    lemma_flush::<M>(h, executed, s2, executed.regs.gpr[15]);
}

/// Nor to an interrupt that is taken.
pub proof fn law_irq_sees_memory_through_accesses<M: Memory>(
    h: spec_fn(M::State) -> M::State,
    cpu: CpuView,
    s: M::State,
)
    requires
        hidden::<M>(h),
    ensures
        cpu.raise_irq::<M>(h(s)).0 == cpu.raise_irq::<M>(s).0,
        cpu.raise_irq::<M>(h(s)).1 == h(cpu.raise_irq::<M>(s).1),
{
    reveal(CpuView::raise_irq);
    let entered = CpuView { halted: false, ..cpu }.enter_exception(Exception::Irq);
    lemma_flush::<M>(h, entered, s, entered.regs.gpr[15]);
}

} // verus!
