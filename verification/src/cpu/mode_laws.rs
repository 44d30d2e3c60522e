//! The modes of the processor and what each has to itself.

use vstd::prelude::*;

use crate::cpu::registers::{mode_bits, Mode, RegistersView};
use crate::cpu::{mode_entered, vector_of, Exception};

verus! {

/// The encodings of the modes.
pub proof fn law_mode_encodings()
    ensures
        mode_bits(Mode::User) == 16,
        mode_bits(Mode::Fiq) == 17,
        mode_bits(Mode::Irq) == 18,
        mode_bits(Mode::Supervisor) == 19,
        mode_bits(Mode::Abort) == 23,
        mode_bits(Mode::Undefined) == 27,
        mode_bits(Mode::System) == 31,
{
}

/// The handlers of the exceptions lie one behind the other, four bytes apart,
/// with one place left out, and each runs in its own mode.
pub proof fn law_exception_handlers()
    ensures
        vector_of(Exception::Reset) == 0,
        vector_of(Exception::Undefined) == 4,
        vector_of(Exception::SoftwareInterrupt) == 8,
        vector_of(Exception::PrefetchAbort) == 12,
        vector_of(Exception::DataAbort) == 16,
        vector_of(Exception::Irq) == 24,
        vector_of(Exception::Fiq) == 28,
        mode_entered(Exception::Reset) == Mode::Supervisor,
        mode_entered(Exception::Undefined) == Mode::Undefined,
        mode_entered(Exception::SoftwareInterrupt) == Mode::Supervisor,
        mode_entered(Exception::PrefetchAbort) == Mode::Abort,
        mode_entered(Exception::DataAbort) == Mode::Abort,
        mode_entered(Exception::Irq) == Mode::Irq,
        mode_entered(Exception::Fiq) == Mode::Fiq,
{
}

/// Whether two modes see the same r13 and r14.
pub open spec fn share_stack(a: Mode, b: Mode) -> bool {
    a == b || ((a is User || a is System) && (b is User || b is System))
}

/// Every mode but User and System has an r13 and r14 of its own: what another
/// mode writes there does not change them. The fast interrupt mode has its own
/// r8 to r12 too. All others are shared.
pub proof fn law_private_registers(r: RegistersView, other: Mode, i: int, value: u32)
    requires
        r.wf(),
        0 <= i < 15,
    ensures
        ({
            let before = r.mode();
            let seen = r.switch_mode(other).set(i, value).switch_mode(before).gpr[i];
            let private = (i >= 13 && !share_stack(before, other)) || (8 <= i <= 12 && (
            before is Fiq) != (other is Fiq));
            seen == if private {
                r.gpr[i]
            } else {
                value
            }
        }),
{
    crate::cpu::laws::lemma_switched(r, other);
    let there = r.switch_mode(other).set(i, value);
    let before = r.mode();
    if other != before {
        assert(there.switch_mode(before).gpr[i] == there.visible_after(before, i));
    }
}

} // verus!
