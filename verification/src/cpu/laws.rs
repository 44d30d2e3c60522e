//! What holds of the processor as a whole.

use vstd::prelude::*;

use crate::cpu::alu::sum_with_flags;
use crate::cpu::registers::{
    bank_of, condition_holds, law_mode_bits_round_trip, mode_bits, mode_of, Cpsr, Mode,
    RegistersView,
};
use crate::cpu::{mode_entered, vector_of, CpuView, Exception};
use crate::memory::Memory;

verus! {

/// Replacing the mode field, and putting the old one back.
proof fn lemma_mode_field(v: u32, b: u32)
    requires
        b <= 0x1F,
    ensures
        ((v & !0x1Fu32) | b) & 0x1F == b,
        ((v & !0x1Fu32) | (v & 0x1F)) == v,
        (((v & !0x1Fu32) | b) & !0x1Fu32) | (v & 0x1F) == v,
        (v & !0x1Fu32) & !0x1Fu32 == v & !0x1Fu32,
        ((v & !0x1Fu32) | b) & !0x1Fu32 == v & !0x1Fu32,
{
    crate::bits::word_facts(v, b, 0, 0);
}

/// The mode field of a status is the encoding of its mode.
proof fn lemma_mode_of_field(cpsr: Cpsr)
    requires
        cpsr.wf(),
    ensures
        cpsr.0 & 0x1F == mode_bits(mode_of(cpsr.0)->0),
{
}

/// After a mode switch the file is in the new mode.
pub(crate) proof fn lemma_switched(r: RegistersView, mode: Mode)
    requires
        r.wf(),
    ensures
        r.switch_mode(mode).mode() == mode,
        r.switch_mode(mode).wf(),
        r.switch_mode(mode).cpsr.0 & 0x1F == mode_bits(mode),
        r.switch_mode(mode).cpsr.0 & !0x1Fu32 == r.cpsr.0 & !0x1Fu32,
{
    law_mode_bits_round_trip(mode);
    lemma_mode_field(r.cpsr.0, mode_bits(mode));
    lemma_mode_of_field(r.cpsr);
}

/// Switching to another mode and back leaves every visible register, the
/// status and the saved statuses as they were.
pub proof fn law_mode_switch_round_trip(r: RegistersView, mode: Mode)
    requires
        r.wf(),
    ensures
        r.switch_mode(mode).switch_mode(r.mode()).gpr == r.gpr,
        r.switch_mode(mode).switch_mode(r.mode()).cpsr == r.cpsr,
        r.switch_mode(mode).switch_mode(r.mode()).banked_spsr == r.banked_spsr,
{
    let there = r.switch_mode(mode);
    let back = there.switch_mode(r.mode());
    lemma_switched(r, mode);
    lemma_mode_of_field(r.cpsr);
    lemma_mode_field(r.cpsr.0, mode_bits(mode));
    assert forall|i: int| 0 <= i < 16 implies back.gpr[i] == r.gpr[i] by {
        if mode != r.mode() {
            assert(there.gpr[i] == r.visible_after(mode, i));
            assert(back.gpr[i] == there.visible_after(r.mode(), i));
        }
    }
    assert(back.gpr =~= r.gpr);
}

/// User and System mode see the same registers.
pub proof fn law_user_and_system_share_registers(r: RegistersView, mode: Mode)
    requires
        r.wf(),
        r.mode() is User || r.mode() is System,
        mode is User || mode is System,
    ensures
        r.switch_mode(mode).gpr == r.gpr,
{
    assert(r.switch_mode(mode).gpr =~= r.gpr);
}

/// What is written to a User register from any mode is what User mode sees,
/// and what the current mode has banked away from it stays.
pub proof fn law_user_register_round_trip(r: RegistersView, i: int, value: u32)
    requires
        r.wf(),
        0 <= i < 15,
    ensures
        r.set_user(i, value).get_user(i) == value,
        r.set_user(i, value).switch_mode(Mode::User).gpr[i] == value,
        8 <= i <= 12 && r.mode() is Fiq ==> r.set_user(i, value).gpr == r.gpr,
        13 <= i <= 14 && bank_of(r.mode()) != 0 ==> r.set_user(i, value).gpr == r.gpr,
{
}

/// A status with a valid mode is installed exactly; with a reserved mode
/// field only the rest of it is, and the mode stays.
pub proof fn law_set_cpsr(r: RegistersView, value: Cpsr)
    requires
        r.wf(),
    ensures
        value.wf() ==> r.set_cpsr(value).cpsr == value,
        !value.wf() ==> r.set_cpsr(value).mode() == r.mode(),
        r.set_cpsr(value).cpsr.0 & !0x1Fu32 == value.0 & !0x1Fu32,
{
    let target = match mode_of(value.0) {
        Some(mode) => mode,
        None => r.mode(),
    };
    let banked = r.switch_mode(target);
    lemma_switched(r, target);
    law_mode_bits_round_trip(target);
    lemma_mode_field(value.0, banked.cpsr.0 & 0x1F);
    lemma_mode_field(value.0, mode_bits(target));
    if value.wf() {
        lemma_mode_of_field(value);
    }
}

/// Clearing T and setting I (and F) in turn.
proof fn lemma_handler_bits(v: u32)
    ensures
        ((v & !(1u32 << 5)) | (1u32 << 7)) & (1u32 << 5) == 0,
        ((v & !(1u32 << 5)) | (1u32 << 7)) & (1u32 << 7) != 0,
        ((v & !(1u32 << 5)) | (1u32 << 7)) & 0x1F == v & 0x1F,
        (((v & !(1u32 << 5)) | (1u32 << 7)) | (1u32 << 6)) & (1u32 << 5) == 0,
        (((v & !(1u32 << 5)) | (1u32 << 7)) | (1u32 << 6)) & (1u32 << 7) != 0,
        (((v & !(1u32 << 5)) | (1u32 << 7)) | (1u32 << 6)) & 0x1F == v & 0x1F,
{
    crate::bits::word_facts(v, 0, 0, 0);
}

/// A handler starts in ARM state with interrupts off, in its own mode, at
/// its vector, with the interrupted status saved and the return address in
/// the link register.
pub proof fn law_exception_entry(cpu: CpuView, exception: Exception)
    requires
        cpu.regs.wf(),
    ensures
        ({
            let handler = cpu.enter_exception(exception);
            &&& handler.regs.mode() == mode_entered(exception)
            &&& handler.regs.spsr() == Some(cpu.regs.cpsr)
            &&& handler.regs.gpr[14] == cpu.return_address(exception)
            &&& handler.regs.gpr[15] == vector_of(exception)
            &&& handler.regs.cpsr.irq_disabled()
            &&& !handler.thumb()
            &&& handler.flushed
            &&& forall|i: int| 0 <= i < 8 ==> handler.regs.gpr[i] == cpu.regs.gpr[i]
        }),
{
    let mode = mode_entered(exception);
    lemma_switched(cpu.regs, mode);
    let switched = cpu.regs.switch_mode(mode);
    lemma_handler_bits(switched.cpsr.0);
    let v = vector_of(exception);
    crate::bits::small_facts(0, 0, v, 0);
}

/// Putting the saved status back at the end of a handler gives the
/// interrupted program its status and its registers back, up to r15, unless
/// the exception was taken in the handler's own mode.
pub proof fn law_exception_return(cpu: CpuView, exception: Exception)
    requires
        cpu.regs.wf(),
        cpu.regs.mode() != mode_entered(exception),
    ensures
        ({
            let handler = cpu.enter_exception(exception).regs;
            let returned = handler.set_cpsr(cpu.regs.cpsr);
            &&& returned.cpsr == cpu.regs.cpsr
            &&& forall|i: int| 0 <= i < 15 ==> returned.gpr[i] == cpu.regs.gpr[i]
        }),
{
    law_exception_entry(cpu, exception);
    let mode = mode_entered(exception);
    let before = cpu.regs.mode();
    lemma_switched(cpu.regs, mode);
    let handler = cpu.enter_exception(exception).regs;
    assert(handler.wf()) by {
        lemma_handler_bits(cpu.regs.switch_mode(mode).cpsr.0);
    }
    law_set_cpsr(handler, cpu.regs.cpsr);
    let returned = handler.set_cpsr(cpu.regs.cpsr);
    assert forall|i: int| 0 <= i < 15 implies returned.gpr[i] == cpu.regs.gpr[i] by {
        assert(returned.gpr[i] == handler.visible_after(before, i));
        assert(cpu.regs.switch_mode(mode).gpr[i] == cpu.regs.visible_after(mode, i));
    }
}

/// In both instruction sets an interrupt returns to the next instruction
/// plus four.
pub proof fn law_irq_return_address(cpu: CpuView)
    ensures
        cpu.return_address(Exception::Irq) == cpu.next_pc().wrapping_add(4),
        cpu.return_address(Exception::Fiq) == cpu.next_pc().wrapping_add(4),
{
}

/// A software interrupt and an undefined instruction, during which r15 is
/// two instructions ahead, return to the instruction that follows.
pub proof fn law_trap_return_address(cpu: CpuView)
    ensures
        cpu.return_address(Exception::SoftwareInterrupt) == cpu.next_pc().wrapping_add(
            cpu.instruction_size(),
        ),
        cpu.return_address(Exception::Undefined) == cpu.next_pc().wrapping_add(
            cpu.instruction_size(),
        ),
{
}

/// After a refill the next instruction is the one asked for, aligned, and
/// r15 reads two instructions ahead of it.
pub proof fn law_refilled_pipeline<M: Memory>(cpu: CpuView, s: M::State, address: u32)
    requires
        cpu.regs.wf(),
    ensures
        ({
            let refilled = cpu.flush_pipeline::<M>(s, address).0;
            &&& refilled.next_pc() == cpu.aligned(address)
            &&& refilled.regs.gpr[15] == refilled.next_pc().wrapping_add(
                (2 * cpu.instruction_size()) as u32,
            )
            &&& refilled.thumb() == cpu.thumb()
            &&& !refilled.flushed
        }),
{
}

/// Every condition but the last two has its opposite next to it; those two
/// are "always" and "never".
pub proof fn law_conditions_come_in_pairs(cpsr: Cpsr, code: u32)
    requires
        code < 14,
        code % 2 == 0,
    ensures
        condition_holds(cpsr, code) != condition_holds(cpsr, (code + 1) as u32),
        condition_holds(cpsr, 14),
        !condition_holds(cpsr, 15),
{
}

/// Adding the complement with a carry subtracts, and the carry that comes out
/// says that there was no borrow.
pub proof fn law_subtraction(a: u32, b: u32)
    ensures
        sum_with_flags(a, !b, true).0 == a.wrapping_sub(b),
        sum_with_flags(a, !b, true).1 == (a >= b),
        sum_with_flags(a, !b, true).2 == ((a as i32) - (b as i32) < i32::MIN || (a as i32) - (
        b as i32) > i32::MAX),
{
    crate::bits::small_facts(0, 0, b, 0);
}

} // verus!
