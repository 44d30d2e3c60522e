//! What the ARM instructions do, said of their encodings.

use vstd::prelude::*;

use crate::cpu::alu::{
    shift_of, shifted, shifted_by_byte, shifted_imm, shifted_reg, sum_with_flags,
    ShiftType,
};
use crate::cpu::arm::alu::dp_result;
use crate::cpu::registers::{
    condition_holds, Cpsr, RegistersView, FLAG_C, FLAG_N, FLAG_V, FLAG_Z,
};
use crate::cpu::CpuView;
use crate::memory::Memory;

verus! {

broadcast use crate::bits::group_mask_bounds;

/// `cpu` with `value` in register `rd` and nothing else changed.
pub open spec fn with_register(cpu: CpuView, rd: int, value: u32) -> CpuView {
    CpuView { regs: RegistersView { gpr: cpu.regs.gpr.update(rd, value), ..cpu.regs }, ..cpu }
}

/// `cpu` with another status and nothing else changed.
pub open spec fn with_status(cpu: CpuView, status: u32) -> CpuView {
    CpuView { regs: RegistersView { cpsr: Cpsr(status), ..cpu.regs }, ..cpu }
}

/// Whether bit `i` of `value` is set.
pub open spec fn is_set(value: u32, i: u32) -> bool {
    (value >> i) & 1 == 1
}

/// A data-processing instruction with an immediate operand.
pub open spec fn with_immediate(code: u32, s: u32, rn: u32, rd: u32, rot: u32, imm: u32) -> u32 {
    0xE200_0000u32 | (code << 21) | (s << 20) | (rn << 16) | (rd << 12) | (rot << 8) | imm
}

/// A data-processing instruction with a register shifted by a constant.
pub open spec fn with_shift(
    code: u32,
    s: u32,
    rn: u32,
    rd: u32,
    amount: u32,
    kind: u32,
    rm: u32,
) -> u32 {
    0xE000_0000u32 | (code << 21) | (s << 20) | (rn << 16) | (rd << 12) | (amount << 7) | (kind
        << 5) | rm
}

/// A data-processing instruction with a register shifted by another.
pub open spec fn with_register_shift(
    code: u32,
    s: u32,
    rn: u32,
    rd: u32,
    rs: u32,
    kind: u32,
    rm: u32,
) -> u32 {
    0xE000_0010u32 | (code << 21) | (s << 20) | (rn << 16) | (rd << 12) | (rs << 8) | (kind << 5)
        | rm
}

/// The fields of data-processing instructions.
proof fn lemma_processing_fields(
    code: u32,
    s: u32,
    rn: u32,
    rd: u32,
    rot: u32,
    imm: u32,
    amount: u32,
    kind: u32,
    rm: u32,
)
    by (bit_vector)
    requires
        code < 16,
        s < 2,
        rn < 16,
        rd < 16,
        rot < 16,
        imm < 256,
        amount < 32,
        kind < 4,
        rm < 16,
        code < 8 || code > 11 || s == 1,
    ensures
        (with_immediate(code, s, rn, rd, rot, imm) >> 28) & 0xF == 0xE,
        (with_immediate(code, s, rn, rd, rot, imm) >> 25) & 0b111 == 1,
        with_immediate(code, s, rn, rd, rot, imm) & 0x0190_0000 != 0x0100_0000,
        (with_immediate(code, s, rn, rd, rot, imm) >> 21) & 0xF == code,
        with_immediate(code, s, rn, rd, rot, imm) & (1u32 << 20) != 0 <==> s == 1,
        (with_immediate(code, s, rn, rd, rot, imm) >> 16) & 0xF == rn,
        (with_immediate(code, s, rn, rd, rot, imm) >> 12) & 0xF == rd,
        with_immediate(code, s, rn, rd, rot, imm) & (1u32 << 25) != 0,
        (with_immediate(code, s, rn, rd, rot, imm) >> 8) & 0xF == rot,
        with_immediate(code, s, rn, rd, rot, imm) & 0xFF == imm,
        (with_shift(code, s, rn, rd, amount, kind, rm) >> 28) & 0xF == 0xE,
        (with_shift(code, s, rn, rd, amount, kind, rm) >> 25) & 0b111 == 0,
        with_shift(code, s, rn, rd, amount, kind, rm) & 0x0FFF_FFF0 != 0x012F_FF10,
        (with_shift(code, s, rn, rd, amount, kind, rm) >> 4) & 0xF != 9,
        ((with_shift(code, s, rn, rd, amount, kind, rm) >> 4) & 0xF) & 9 != 9,
        with_shift(code, s, rn, rd, amount, kind, rm) & 0x0190_0000 != 0x0100_0000,
        (with_shift(code, s, rn, rd, amount, kind, rm) >> 21) & 0xF == code,
        with_shift(code, s, rn, rd, amount, kind, rm) & (1u32 << 20) != 0 <==> s == 1,
        (with_shift(code, s, rn, rd, amount, kind, rm) >> 16) & 0xF == rn,
        (with_shift(code, s, rn, rd, amount, kind, rm) >> 12) & 0xF == rd,
        with_shift(code, s, rn, rd, amount, kind, rm) & (1u32 << 25) == 0,
        with_shift(code, s, rn, rd, amount, kind, rm) & (1u32 << 4) == 0,
        (with_shift(code, s, rn, rd, amount, kind, rm) >> 7) & 0x1F == amount,
        (with_shift(code, s, rn, rd, amount, kind, rm) >> 5) & 3 == kind,
        with_shift(code, s, rn, rd, amount, kind, rm) & 0xF == rm,
        (with_register_shift(code, s, rn, rd, rot, kind, rm) >> 28) & 0xF == 0xE,
        (with_register_shift(code, s, rn, rd, rot, kind, rm) >> 25) & 0b111 == 0,
        with_register_shift(code, s, rn, rd, rot, kind, rm) & 0x0FFF_FFF0 != 0x012F_FF10,
        (with_register_shift(code, s, rn, rd, rot, kind, rm) >> 4) & 0xF != 9,
        ((with_register_shift(code, s, rn, rd, rot, kind, rm) >> 4) & 0xF) & 9 != 9,
        with_register_shift(code, s, rn, rd, rot, kind, rm) & 0x0190_0000 != 0x0100_0000,
        (with_register_shift(code, s, rn, rd, rot, kind, rm) >> 21) & 0xF == code,
        with_register_shift(code, s, rn, rd, rot, kind, rm) & (1u32 << 20) != 0 <==> s == 1,
        (with_register_shift(code, s, rn, rd, rot, kind, rm) >> 16) & 0xF == rn,
        (with_register_shift(code, s, rn, rd, rot, kind, rm) >> 12) & 0xF == rd,
        with_register_shift(code, s, rn, rd, rot, kind, rm) & (1u32 << 25) == 0,
        with_register_shift(code, s, rn, rd, rot, kind, rm) & (1u32 << 4) != 0,
        (with_register_shift(code, s, rn, rd, rot, kind, rm) >> 8) & 0xF == rot,
        (with_register_shift(code, s, rn, rd, rot, kind, rm) >> 5) & 3 == kind,
        with_register_shift(code, s, rn, rd, rot, kind, rm) & 0xF == rm,
{
}

/// Whether `r` is what operation `code` makes of `a` and `b` with carry `c`:
/// subtractions are what additions undo, and one too little where there is no
/// carry in.
pub open spec fn computes(code: u32, a: u32, b: u32, c: int, r: u32) -> bool {
    &&& code == 0 ==> r == a & b
    &&& code == 1 ==> r == a ^ b
    &&& code == 2 ==> (r + b) % 0x1_0000_0000 == a
    &&& code == 3 ==> (r + a) % 0x1_0000_0000 == b
    &&& code == 4 ==> r == (a + b) % 0x1_0000_0000
    &&& code == 5 ==> r == (a + b + c) % 0x1_0000_0000
    &&& code == 6 ==> (r + b + 1 - c) % 0x1_0000_0000 == a
    &&& code == 7 ==> (r + a + 1 - c) % 0x1_0000_0000 == b
    &&& code == 12 ==> r == a | b
    &&& code == 13 ==> r == b
    &&& code == 14 ==> r == a & !b
    &&& code == 15 ==> r + b == 0xFFFF_FFFF
}

/// The carry flag as a number: bit 29 of the status.
pub open spec fn carry_in(cpu: CpuView) -> int {
    if is_set(cpu.regs.cpsr.0, 29) {
        1
    } else {
        0
    }
}

/// The flag bits of a status, and that setting one changes no other bit.
pub(crate) proof fn lemma_status_bits(v: u32, f: u32)
    requires
        f == 28 || f == 29 || f == 30 || f == 31,
    ensures
        (v & (1u32 << f) != 0) == ((v >> f) & 1 == 1),
        (v & (1u32 << 31) != 0) == (v >= 0x8000_0000),
        ((v | (1u32 << f)) >> f) & 1 == 1,
        ((v & !(1u32 << f)) >> f) & 1 == 0,
        f != 28 ==> ((v | (1u32 << f)) >> 28) & 1 == (v >> 28) & 1,
        f != 28 ==> ((v & !(1u32 << f)) >> 28) & 1 == (v >> 28) & 1,
        f != 29 ==> ((v | (1u32 << f)) >> 29) & 1 == (v >> 29) & 1,
        f != 29 ==> ((v & !(1u32 << f)) >> 29) & 1 == (v >> 29) & 1,
        f != 30 ==> ((v | (1u32 << f)) >> 30) & 1 == (v >> 30) & 1,
        f != 30 ==> ((v & !(1u32 << f)) >> 30) & 1 == (v >> 30) & 1,
        f != 31 ==> ((v | (1u32 << f)) >> 31) & 1 == (v >> 31) & 1,
        f != 31 ==> ((v & !(1u32 << f)) >> 31) & 1 == (v >> 31) & 1,
        (v | (1u32 << f)) % 0x1000_0000 == v % 0x1000_0000,
        (v & !(1u32 << f)) % 0x1000_0000 == v % 0x1000_0000,
        v == 0 || (v & 1 == 1) || (v & 1 == 0),
{
    crate::bits::word_facts(v, 0, f, 0);
}

/// Adding the complement subtracts, one too much where there is no carry.
proof fn lemma_difference(a: u32, b: u32, carry: bool)
    ensures
        ({
            let r = sum_with_flags(a, !b, carry).0;
            let c: int = if carry {
                1
            } else {
                0
            };
            (r + b + 1 - c) % 0x1_0000_0000 == a
        }),
{
    crate::bits::small_facts(0, 0, b, 0);
    let c: int = if carry {
        1
    } else {
        0
    };
    let wide = a + !b + c;
    let r = sum_with_flags(a, !b, carry).0;
    if wide > u32::MAX {
        assert(r == wide - 0x1_0000_0000);
        assert(r + b + 1 - c == a);
    } else {
        assert(r == wide);
        assert(r + b + 1 - c == a + 0x1_0000_0000);
    }
}

/// What the arithmetic unit yields is what the operation computes.
proof fn lemma_computes(code: u32, a: u32, b: u32, carry: bool)
    requires
        code < 16,
    ensures
        computes(
            code,
            a,
            b,
            if carry {
                1
            } else {
                0
            },
            dp_result(code, a, b, carry).0,
        ),
{
    if code == 2 {
        lemma_difference(a, b, true);
    } else if code == 3 {
        lemma_difference(b, a, true);
    } else if code == 6 {
        lemma_difference(a, b, carry);
    } else if code == 7 {
        lemma_difference(b, a, carry);
    } else if code == 15 {
        crate::bits::small_facts(0, 0, b, 0);
    } else if code == 4 || code == 5 {
        assert(dp_result(code, a, b, carry).0 == sum_with_flags(a, b, code == 5 && carry).0);
    }
}

/// The class and effect of data-processing instructions.
proof fn lemma_processing<M: Memory>(
    cpu: CpuView,
    s: M::State,
    code: u32,
    flags: u32,
    rn: u32,
    rd: u32,
    rot: u32,
    imm: u32,
    amount: u32,
    kind: u32,
    rm: u32,
)
    requires
        cpu.regs.wf(),
        code < 16,
        flags < 2,
        rn < 16,
        rd < 15,
        rot < 16,
        imm < 256,
        amount < 32,
        kind < 4,
        rm < 16,
        code < 8 || code > 11 || flags == 1,
    ensures
        forall|op: u32|
            #![trigger cpu.execute_arm::<M>(s, op)]
            op == with_immediate(code, flags, rn, rd, rot, imm) || op == with_shift(
                code,
                flags,
                rn,
                rd,
                amount,
                kind,
                rm,
            ) || op == with_register_shift(code, flags, rn, rd, rot, kind, rm) ==> {
                let (b, shifter_carry, reg_shift) = cpu.arm_operand2(op);
                let a = if reg_shift && rn == 15 {
                    cpu.regs.gpr[rn as int].wrapping_add(4)
                } else {
                    cpu.regs.gpr[rn as int]
                };
                let (r, arith) = dp_result(code, a, b, cpu.regs.cpsr.c());
                let flagged = if flags == 1 {
                    with_status(
                        cpu,
                        CpuView::dp_flags(cpu.regs.cpsr, r, arith, shifter_carry).0,
                    )
                } else {
                    cpu
                };
                cpu.execute_arm::<M>(s, op) == (
                    if 8 <= code <= 11 {
                        flagged
                    } else {
                        with_register(flagged, rd as int, r)
                    },
                    s,
                    if reg_shift {
                        1u32
                    } else {
                        0u32
                    },
                )
            },
{
    reveal(CpuView::execute_arm);
    lemma_processing_fields(code, flags, rn, rd, rot, imm, amount, kind, rm);
}

/// Every data-processing operation on a register and an immediate below 256:
/// the destination gets the result, and without the S bit nothing else
/// changes.
#[verifier::rlimit(60)]
pub proof fn law_processing<M: Memory>(
    cpu: CpuView,
    s: M::State,
    code: u32,
    rn: u32,
    rd: u32,
    imm: u32,
)
    requires
        cpu.regs.wf(),
        code < 8 || 12 <= code < 16,
        rn < 16,
        rd < 15,
        imm < 256,
    ensures
        ({
            let after = cpu.execute_arm::<M>(s, with_immediate(code, 0, rn, rd, 0, imm));
            let r = after.0.regs.gpr[rd as int];
            &&& computes(code, cpu.regs.gpr[rn as int], imm, carry_in(cpu), r)
            &&& after.0 == with_register(cpu, rd as int, r)
            &&& after.1 == s
            &&& after.2 == 0
        }),
{
    lemma_processing::<M>(cpu, s, code, 0, rn, rd, 0, imm, 0, 0, 0);
    lemma_processing_fields(code, 0, rn, rd, 0, imm, 0, 0, 0);
    lemma_computes(code, cpu.regs.gpr[rn as int], imm, cpu.regs.cpsr.c());
    lemma_status_bits(cpu.regs.cpsr.0, 29);
}

/// The flag bits that a data-processing instruction leaves.
proof fn lemma_flags_set(cpsr: Cpsr, r: u32, arith: Option<(bool, bool)>, carry: bool)
    ensures
        ({
            let after = CpuView::dp_flags(cpsr, r, arith, carry).0;
            &&& is_set(after, 31) == (r >= 0x8000_0000)
            &&& is_set(after, 30) == (r == 0)
            &&& is_set(after, 29) == match arith {
                Some((c, v)) => c,
                None => carry,
            }
            &&& is_set(after, 28) == match arith {
                Some((c, v)) => v,
                None => is_set(cpsr.0, 28),
            }
            &&& after % 0x1000_0000 == cpsr.0 % 0x1000_0000
        }),
{
    lemma_status_bits(r, 31);
    lemma_status_bits(cpsr.0, 31);
    let s1 = cpsr.with(FLAG_N, r & FLAG_N != 0);
    lemma_status_bits(s1.0, 30);
    let s2 = s1.with(FLAG_Z, r == 0);
    lemma_status_bits(s2.0, 29);
    match arith {
        Some((c, v)) => {
            let s3 = s2.with(FLAG_C, c);
            lemma_status_bits(s3.0, 28);
        },
        None => {},
    }
}

/// An operation on two registers with the S bit: the zero and negative flags
/// describe the result, and everything below the flags stays. A logical
/// operation leaves overflow alone; an addition carries where the sum leaves
/// 32 bits, a subtraction where nothing is borrowed, and either overflows
/// where the signed result does not fit.
#[verifier::rlimit(60)]
pub proof fn law_processing_flags<M: Memory>(
    cpu: CpuView,
    s: M::State,
    code: u32,
    rn: u32,
    rd: u32,
    rm: u32,
)
    requires
        cpu.regs.wf(),
        code < 16,
        rn < 16,
        rd < 15,
        rm < 16,
    ensures
        ({
            let after = cpu.execute_arm::<M>(s, with_shift(code, 1, rn, rd, 0, 0, rm)).0;
            let (a, b) = (cpu.regs.gpr[rn as int], cpu.regs.gpr[rm as int]);
            let (sa, sb) = (a as i32, b as i32);
            let c = carry_in(cpu);
            let status = after.regs.cpsr.0;
            let r = after.regs.gpr[rd as int];
            let fits = |n: int| -0x8000_0000 <= n < 0x8000_0000;
            &&& status % 0x1000_0000 == cpu.regs.cpsr.0 % 0x1000_0000
            &&& code < 8 || code > 11 ==> {
                &&& computes(code, a, b, c, r)
                &&& is_set(status, 31) == (r >= 0x8000_0000)
                &&& is_set(status, 30) == (r == 0)
                &&& after == with_register(with_status(cpu, status), rd as int, r)
            }
            &&& 8 <= code <= 11 ==> after == with_status(cpu, status)
            &&& code == 8 ==> is_set(status, 30) == (a & b == 0) && is_set(status, 31) == (a & b
                >= 0x8000_0000)
            &&& code == 9 ==> is_set(status, 30) == (a ^ b == 0) && is_set(status, 31) == (a ^ b
                >= 0x8000_0000)
            &&& code == 10 ==> is_set(status, 30) == (a == b)
            &&& code == 11 ==> is_set(status, 30) == ((a + b) % 0x1_0000_0000 == 0)
            &&& code <= 1 || code == 8 || code == 9 || code >= 12 ==> {
                &&& is_set(status, 29) == is_set(cpu.regs.cpsr.0, 29)
                &&& is_set(status, 28) == is_set(cpu.regs.cpsr.0, 28)
            }
            &&& code == 2 || code == 10 ==> {
                &&& is_set(status, 29) == (a >= b)
                &&& is_set(status, 28) == !fits(sa - sb)
            }
            &&& code == 3 ==> {
                &&& is_set(status, 29) == (b >= a)
                &&& is_set(status, 28) == !fits(sb - sa)
            }
            &&& code == 4 || code == 11 ==> {
                &&& is_set(status, 29) == (a + b >= 0x1_0000_0000)
                &&& is_set(status, 28) == !fits(sa + sb)
            }
            &&& code == 5 ==> {
                &&& is_set(status, 29) == (a + b + c >= 0x1_0000_0000)
                &&& is_set(status, 28) == !fits(sa + sb + c)
            }
            &&& code == 6 ==> {
                &&& is_set(status, 29) == (a >= b + 1 - c)
                &&& is_set(status, 28) == !fits(sa - sb - 1 + c)
            }
            &&& code == 7 ==> {
                &&& is_set(status, 29) == (b >= a + 1 - c)
                &&& is_set(status, 28) == !fits(sb - sa - 1 + c)
            }
        }),
{
    let (a, b) = (cpu.regs.gpr[rn as int], cpu.regs.gpr[rm as int]);
    let carry = cpu.regs.cpsr.c();
    let op = with_shift(code, 1, rn, rd, 0, 0, rm);
    lemma_processing::<M>(cpu, s, code, 1, rn, rd, 0, 0, 0, 0, rm);
    lemma_processing_fields(code, 1, rn, rd, 0, 0, 0, 0, rm);
    lemma_status_bits(cpu.regs.cpsr.0, 29);
    assert(cpu.arm_operand2(op) == (b, carry, false));
    let (r, arith) = dp_result(code, a, b, carry);
    lemma_flags_set(cpu.regs.cpsr, r, arith, carry);
    lemma_computes(code, a, b, carry);
    crate::bits::small_facts(0, 0, a, 0);
    crate::bits::small_facts(0, 0, b, 0);
    lemma_difference(a, b, true);
}

/// After a compare of `a` with `b` the conditions mean what their names say:
/// equal; higher or same, higher (unsigned); greater or equal, greater
/// (signed); minus, when the difference is negative as a word; overflow, when
/// the signed difference does not fit. Each odd condition is the opposite of
/// the one before it.
#[verifier::rlimit(60)]
pub proof fn law_compare_conditions<M: Memory>(
    cpu: CpuView,
    s: M::State,
    rn: u32,
    rd: u32,
    rm: u32,
)
    requires
        cpu.regs.wf(),
        rn < 16,
        rd < 15,
        rm < 16,
    ensures
        ({
            let status = cpu.execute_arm::<M>(s, with_shift(10, 1, rn, rd, 0, 0, rm)).0.regs.cpsr;
            let (a, b) = (cpu.regs.gpr[rn as int], cpu.regs.gpr[rm as int]);
            let (sa, sb) = (a as i32, b as i32);
            &&& condition_holds(status, 0) == (a == b)
            &&& condition_holds(status, 1) == (a != b)
            &&& condition_holds(status, 2) == (a >= b)
            &&& condition_holds(status, 3) == (a < b)
            &&& condition_holds(status, 4) == (a.wrapping_sub(b) >= 0x8000_0000)
            &&& condition_holds(status, 5) == (a.wrapping_sub(b) < 0x8000_0000)
            &&& condition_holds(status, 6) == (sa - sb < -0x8000_0000 || sa - sb >= 0x8000_0000)
            &&& condition_holds(status, 7) == (-0x8000_0000 <= sa - sb < 0x8000_0000)
            &&& condition_holds(status, 8) == (a > b)
            &&& condition_holds(status, 9) == (a <= b)
            &&& condition_holds(status, 10) == (sa >= sb)
            &&& condition_holds(status, 11) == (sa < sb)
            &&& condition_holds(status, 12) == (sa > sb)
            &&& condition_holds(status, 13) == (sa <= sb)
            &&& condition_holds(status, 14)
            &&& !condition_holds(status, 15)
        }),
{
    let op = with_shift(10, 1, rn, rd, 0, 0, rm);
    let (a, b) = (cpu.regs.gpr[rn as int], cpu.regs.gpr[rm as int]);
    let carry = cpu.regs.cpsr.c();
    law_processing_flags::<M>(cpu, s, 10, rn, rd, rm);
    lemma_processing::<M>(cpu, s, 10, 1, rn, rd, 0, 0, 0, 0, rm);
    lemma_processing_fields(10, 1, rn, rd, 0, 0, 0, 0, rm);
    let status = cpu.execute_arm::<M>(s, op).0.regs.cpsr;
    assert(cpu.arm_operand2(op) == (b, carry, false));
    let (r, arith) = dp_result(10, a, b, carry);
    lemma_flags_set(cpu.regs.cpsr, r, arith, carry);
    lemma_status_bits(status.0, 28);
    lemma_status_bits(status.0, 29);
    lemma_status_bits(status.0, 30);
    lemma_status_bits(status.0, 31);
    crate::bits::small_facts(0, 0, a, 0);
    crate::bits::small_facts(0, 0, b, 0);
    lemma_difference(a, b, true);
    assert(r == a.wrapping_sub(b));
}

/// An instruction whose condition does not hold does nothing; one whose
/// condition holds, here a move, is carried out.
#[verifier::rlimit(60)]
pub proof fn law_conditional_execution<M: Memory>(
    cpu: CpuView,
    s: M::State,
    condition: u32,
    op: u32,
    rd: u32,
    imm: u32,
)
    requires
        cpu.regs.wf(),
        condition < 16,
        op >> 28 == condition,
        rd < 15,
        imm < 256,
    ensures
        !condition_holds(cpu.regs.cpsr, condition) ==> cpu.execute_arm::<M>(s, op) == (cpu, s, 0u32),
        condition_holds(cpu.regs.cpsr, condition) ==> cpu.execute_arm::<M>(
            s,
            (condition << 28) | 0x03A0_0000 | (rd << 12) | imm,
        ).0 == with_register(cpu, rd as int, imm),
{
    reveal(CpuView::execute_arm);
    lemma_conditional_fields(condition, op, rd, imm);
}

proof fn lemma_conditional_fields(condition: u32, op: u32, rd: u32, imm: u32)
    by (bit_vector)
    requires
        condition < 16,
        op >> 28 == condition,
        rd < 15,
        imm < 256,
    ensures
        (op >> 28) & 0xF == condition,
        ((condition << 28) | 0x03A0_0000 | (rd << 12) | imm) >> 28 & 0xF == condition,
        (((condition << 28) | 0x03A0_0000 | (rd << 12) | imm) >> 25) & 7 == 1,
        ((condition << 28) | 0x03A0_0000 | (rd << 12) | imm) & 0x0190_0000 != 0x0100_0000,
        (((condition << 28) | 0x03A0_0000 | (rd << 12) | imm) >> 21) & 0xF == 13,
        ((condition << 28) | 0x03A0_0000 | (rd << 12) | imm) & (1u32 << 20) == 0,
        (((condition << 28) | 0x03A0_0000 | (rd << 12) | imm) >> 12) & 0xF == rd,
        (((condition << 28) | 0x03A0_0000 | (rd << 12) | imm) >> 8) & 0xF == 0,
        ((condition << 28) | 0x03A0_0000 | (rd << 12) | imm) & 0xFF == imm,
        ((condition << 28) | 0x03A0_0000 | (rd << 12) | imm) & (1u32 << 25) != 0,
{
}

/// Which bit of a shifted register comes out as bit `i`, for an amount from 1
/// to 31; none where a zero comes in.
pub open spec fn bit_behind(kind: u32, amount: u32, i: u32) -> Option<u32> {
    if kind == 0 {
        if i >= amount {
            Some((i - amount) as u32)
        } else {
            None
        }
    } else if kind == 1 {
        if i + amount < 32 {
            Some((i + amount) as u32)
        } else {
            None
        }
    } else if kind == 2 {
        if i + amount < 32 {
            Some((i + amount) as u32)
        } else {
            Some(31)
        }
    } else {
        Some(((i + amount) % 32) as u32)
    }
}

/// The bits of shifted words.
proof fn lemma_shifted_bits(v: u32, n: u32, i: u32)
    requires
        1 <= n,
        n <= 31,
        i < 32,
    ensures
        i >= n ==> ((v << n) >> i) & 1 == (v >> ((i - n) as u32)) & 1,
        i < n ==> ((v << n) >> i) & 1 == 0,
        i + n < 32 ==> ((v >> n) >> i) & 1 == (v >> ((i + n) as u32)) & 1,
        i + n >= 32 ==> ((v >> n) >> i) & 1 == 0,
        i + n < 32 ==> ((((v as i32) >> n) as u32) >> i) & 1 == (v >> ((i + n) as u32)) & 1,
        i + n >= 32 ==> ((((v as i32) >> n) as u32) >> i) & 1 == (v >> 31) & 1,
        (((v >> n) | (v << ((32 - n) as u32))) >> i) & 1 == (v >> (((i + n) % 32) as u32)) & 1,
        ((((v as i32) >> 31u32) as u32) >> i) & 1 == (v >> 31) & 1,
        (0u32 >> i) & 1 == 0,
        (v >> i) & 1 == 1 || (v >> i) & 1 == 0,
        (v >> 31 != 0) == ((v >> 31) & 1 == 1),
        (v & 1 != 0) == ((v >> 0u32) & 1 == 1),
        i == 31 ==> (((1u32 << 31) | (v >> 1)) >> i) & 1 == 1,
        i == 31 ==> (((0u32 << 31) | (v >> 1)) >> i) & 1 == 0,
        i < 31 ==> (((1u32 << 31) | (v >> 1)) >> i) & 1 == (v >> ((i + 1) as u32)) & 1,
        i < 31 ==> (((0u32 << 31) | (v >> 1)) >> i) & 1 == (v >> ((i + 1) as u32)) & 1,
{
    crate::bits::word_facts(v, 0, n, i);
}

/// A move of a register shifted by 1 to 31: each bit comes from where the
/// shift puts it, and the carry is the last bit shifted out.
#[verifier::rlimit(60)]
pub proof fn law_shifted_move<M: Memory>(
    cpu: CpuView,
    s: M::State,
    rd: u32,
    amount: u32,
    kind: u32,
    rm: u32,
    i: u32,
)
    requires
        cpu.regs.wf(),
        rd < 15,
        1 <= amount < 32,
        kind < 4,
        rm < 16,
        i < 32,
    ensures
        ({
            let after = cpu.execute_arm::<M>(s, with_shift(13, 1, 0, rd, amount, kind, rm)).0;
            let v = cpu.regs.gpr[rm as int];
            &&& is_set(after.regs.gpr[rd as int], i) == match bit_behind(kind, amount, i) {
                Some(from) => is_set(v, from),
                None => false,
            }
            &&& is_set(after.regs.cpsr.0, 29) == is_set(
                v,
                if kind == 0 {
                    (32 - amount) as u32
                } else {
                    (amount - 1) as u32
                },
            )
        }),
{
    let op = with_shift(13, 1, 0, rd, amount, kind, rm);
    let v = cpu.regs.gpr[rm as int];
    lemma_processing::<M>(cpu, s, 13, 1, 0, rd, 0, 0, amount, kind, rm);
    lemma_processing_fields(13, 1, 0, rd, 0, 0, amount, kind, rm);
    lemma_shifted_bits(v, amount, i);
    lemma_shifted_bits(v, amount, (amount - 1) as u32);
    lemma_shifted_bits(v, amount, (32 - amount) as u32);
    let (b, carry, _) = cpu.arm_operand2(op);
    lemma_flags_set(cpu.regs.cpsr, b, None, carry);
    assert((b, carry) == shifted(shift_of(op >> 5), v, amount));
}

/// A shift by a constant of zero: to the left it changes nothing; to the
/// right it stands for 32, which leaves zeros, or copies of the sign; and as
/// a rotation it takes the carry in at the top.
#[verifier::rlimit(60)]
pub proof fn law_zero_shift_move<M: Memory>(
    cpu: CpuView,
    s: M::State,
    rd: u32,
    kind: u32,
    rm: u32,
    i: u32,
)
    requires
        cpu.regs.wf(),
        rd < 15,
        kind < 4,
        rm < 16,
        i < 32,
    ensures
        ({
            let after = cpu.execute_arm::<M>(s, with_shift(13, 1, 0, rd, 0, kind, rm)).0;
            let v = cpu.regs.gpr[rm as int];
            let carried = is_set(cpu.regs.cpsr.0, 29);
            &&& is_set(after.regs.gpr[rd as int], i) == if kind == 0 {
                is_set(v, i)
            } else if kind == 1 {
                false
            } else if kind == 2 {
                is_set(v, 31)
            } else if i == 31 {
                carried
            } else {
                is_set(v, (i + 1) as u32)
            }
            &&& is_set(after.regs.cpsr.0, 29) == if kind == 0 {
                carried
            } else if kind == 3 {
                is_set(v, 0)
            } else {
                is_set(v, 31)
            }
        }),
{
    let op = with_shift(13, 1, 0, rd, 0, kind, rm);
    let v = cpu.regs.gpr[rm as int];
    lemma_processing::<M>(cpu, s, 13, 1, 0, rd, 0, 0, 0, kind, rm);
    lemma_processing_fields(13, 1, 0, rd, 0, 0, 0, kind, rm);
    lemma_shifted_bits(v, 1, i);
    lemma_status_bits(cpu.regs.cpsr.0, 29);
    let (b, carry, _) = cpu.arm_operand2(op);
    lemma_flags_set(cpu.regs.cpsr, b, None, carry);
}

/// Where a shift by a register finds its amount and operand.
proof fn lemma_register_shift<M: Memory>(
    cpu: CpuView,
    s: M::State,
    code: u32,
    flags: u32,
    rn: u32,
    rd: u32,
    rs: u32,
    kind: u32,
    rm: u32,
)
    requires
        cpu.regs.wf(),
        code < 8 || 12 <= code < 16,
        flags < 2,
        rn < 15,
        rd < 15,
        rs < 16,
        kind < 4,
        rm < 15,
    ensures
        ({
            let after = cpu.execute_arm::<M>(
                s,
                with_register_shift(code, flags, rn, rd, rs, kind, rm),
            );
            let (b, carry) = shifted_by_byte(
                shift_of(kind),
                cpu.regs.gpr[rm as int],
                (cpu.regs.gpr[rs as int] % 256) as u32,
                cpu.regs.cpsr.c(),
            );
            let r = dp_result(code, cpu.regs.gpr[rn as int], b, cpu.regs.cpsr.c()).0;
            &&& after.0.regs.gpr[rd as int] == r
            &&& after.2 == 1
            &&& code >= 12 && flags == 1 ==> is_set(after.0.regs.cpsr.0, 29) == carry
        }),
{
    let op = with_register_shift(code, flags, rn, rd, rs, kind, rm);
    lemma_low_byte(cpu.regs.gpr[rs as int]);
    lemma_processing::<M>(cpu, s, code, flags, rn, rd, rs, 0, 0, kind, rm);
    lemma_processing_fields(code, flags, rn, rd, rs, 0, 0, kind, rm);
    lemma_low_byte(kind);
    let (b, carry, _) = cpu.arm_operand2(op);
    let (r, arith) = dp_result(code, cpu.regs.gpr[rn as int], b, cpu.regs.cpsr.c());
    lemma_flags_set(cpu.regs.cpsr, r, arith, carry);
}

/// Where a shift by a constant finds its amount and operand.
proof fn lemma_constant_shift<M: Memory>(
    cpu: CpuView,
    s: M::State,
    rd: u32,
    amount: u32,
    kind: u32,
    rm: u32,
)
    requires
        cpu.regs.wf(),
        rd < 15,
        amount < 32,
        kind < 4,
        rm < 15,
    ensures
        ({
            let after = cpu.execute_arm::<M>(s, with_shift(13, 1, 0, rd, amount, kind, rm));
            let (b, carry) = shifted_imm(
                shift_of(kind),
                cpu.regs.gpr[rm as int],
                amount,
                cpu.regs.cpsr.c(),
            );
            &&& after.0.regs.gpr[rd as int] == b
            &&& is_set(after.0.regs.cpsr.0, 29) == carry
        }),
{
    let op = with_shift(13, 1, 0, rd, amount, kind, rm);
    lemma_processing::<M>(cpu, s, 13, 1, 0, rd, 0, 0, amount, kind, rm);
    lemma_processing_fields(13, 1, 0, rd, 0, 0, amount, kind, rm);
    lemma_low_byte(kind);
    let (b, carry, _) = cpu.arm_operand2(op);
    lemma_flags_set(cpu.regs.cpsr, b, None, carry);
}

/// Whether moving a register shifted by register `rs` and by the constant
/// `amount` gives the same result and carry.
pub open spec fn shifts_alike<M: Memory>(
    cpu: CpuView,
    s: M::State,
    rd: u32,
    rs: u32,
    amount: u32,
    kind: u32,
    rm: u32,
) -> bool {
    let a = cpu.execute_arm::<M>(s, with_register_shift(13, 1, 0, rd, rs, kind, rm)).0.regs;
    let b = cpu.execute_arm::<M>(s, with_shift(13, 1, 0, rd, amount, kind, rm)).0.regs;
    a.gpr[rd as int] == b.gpr[rd as int] && is_set(a.cpsr.0, 29) == is_set(b.cpsr.0, 29)
}

/// A shift by a register goes by its low byte: zero changes nothing, 1 to 31
/// is the shift by that constant, a rotation goes by the remainder, an
/// arithmetic shift by 32 or more leaves the sign, and the others leave zero,
/// with a carry only for 32 exactly.
#[verifier::rlimit(60)]
pub proof fn law_register_shift<M: Memory>(
    cpu: CpuView,
    s: M::State,
    rd: u32,
    rs: u32,
    kind: u32,
    rm: u32,
)
    requires
        cpu.regs.wf(),
        rd < 15,
        rs < 16,
        kind < 4,
        rm < 15,
    ensures
        ({
            let after = cpu.execute_arm::<M>(s, with_register_shift(13, 1, 0, rd, rs, kind, rm));
            let v = cpu.regs.gpr[rm as int];
            let amount = (cpu.regs.gpr[rs as int] % 256) as u32;
            let r = after.0.regs.gpr[rd as int];
            let c = is_set(after.0.regs.cpsr.0, 29);
            &&& after.2 == 1
            &&& amount == 0 ==> r == v && c == is_set(cpu.regs.cpsr.0, 29)
            &&& 1 <= amount < 32 ==> shifts_alike::<M>(cpu, s, rd, rs, amount, kind, rm)
            &&& amount >= 32 && kind == 0 ==> r == 0 && c == (amount == 32 && is_set(v, 0))
            &&& amount >= 32 && kind == 1 ==> r == 0 && c == (amount == 32 && is_set(v, 31))
            &&& amount >= 32 && kind == 2 ==> shifts_alike::<M>(cpu, s, rd, rs, 0, kind, rm)
            &&& amount >= 32 && kind == 3 && amount % 32 != 0 ==> shifts_alike::<M>(
                cpu,
                s,
                rd,
                rs,
                (amount % 32) as u32,
                kind,
                rm,
            )
            &&& amount >= 32 && kind == 3 && amount % 32 == 0 ==> r == v && c == is_set(v, 31)
        }),
{
    let v = cpu.regs.gpr[rm as int];
    let wide = cpu.regs.gpr[rs as int];
    lemma_low_byte(wide);
    lemma_low_byte(kind);
    lemma_shifted_bits(v, 1, 0);
    lemma_status_bits(cpu.regs.cpsr.0, 29);
    lemma_register_shift::<M>(cpu, s, 13, 1, 0, rd, rs, kind, rm);
    let amount = (wide % 256) as u32;
    if kind == 2 && amount >= 32 {
        lemma_constant_shift::<M>(cpu, s, rd, 0, kind, rm);
    } else {
        lemma_constant_shift::<M>(cpu, s, rd, (amount % 32) as u32, kind, rm);
    }
}

/// An operation with a register shifted by another does what it would do
/// with a register that holds the shifted value, in one cycle more.
#[verifier::rlimit(60)]
pub proof fn law_processing_shifted<M: Memory>(
    cpu: CpuView,
    s: M::State,
    code: u32,
    rn: u32,
    rd: u32,
    rs: u32,
    kind: u32,
    rm: u32,
)
    requires
        cpu.regs.wf(),
        code < 8 || 12 <= code < 16,
        rn < 15,
        rd < 15,
        rs < 16,
        kind < 4,
        rm < 15,
    ensures
        ({
            let b = cpu.execute_arm::<M>(
                s,
                with_register_shift(13, 1, 0, rd, rs, kind, rm),
            ).0.regs.gpr[rd as int];
            let after = cpu.execute_arm::<M>(
                s,
                with_register_shift(code, 0, rn, rd, rs, kind, rm),
            );
            &&& after.2 == 1
            &&& computes(
                code,
                cpu.regs.gpr[rn as int],
                b,
                carry_in(cpu),
                after.0.regs.gpr[rd as int],
            )
        }),
{
    lemma_register_shift::<M>(cpu, s, 13, 1, 0, rd, rs, kind, rm);
    lemma_register_shift::<M>(cpu, s, code, 0, rn, rd, rs, kind, rm);
    lemma_status_bits(cpu.regs.cpsr.0, 29);
    let (b, _) = shifted_by_byte(
        shift_of(kind),
        cpu.regs.gpr[rm as int],
        (cpu.regs.gpr[rs as int] % 256) as u32,
        cpu.regs.cpsr.c(),
    );
    lemma_computes(code, cpu.regs.gpr[rn as int], b, cpu.regs.cpsr.c());
}

proof fn lemma_low_byte(w: u32)
    ensures
        w & 0xFF == w % 256,
        (w & 0xFF) & 0xFF == w % 256,
        (w & 0xFF) & 0x1F == (w & 0xFF) % 32,
        w < 4 ==> w & 3 == w,
{
    crate::bits::word_facts(w, 0, 0, 0);
}

/// An immediate is its low byte rotated right by twice its rotation.
#[verifier::rlimit(60)]
pub proof fn law_rotated_immediate<M: Memory>(
    cpu: CpuView,
    s: M::State,
    rd: u32,
    rot: u32,
    imm: u32,
    i: u32,
)
    requires
        cpu.regs.wf(),
        rd < 15,
        rot < 16,
        imm < 256,
        i < 32,
    ensures
        ({
            let after = cpu.execute_arm::<M>(s, with_immediate(13, 1, 0, rd, rot, imm)).0;
            let r = after.regs.gpr[rd as int];
            &&& is_set(r, i) == is_set(imm, ((i + 2 * rot) % 32) as u32)
            &&& is_set(after.regs.cpsr.0, 29) == if rot == 0 {
                is_set(cpu.regs.cpsr.0, 29)
            } else {
                is_set(r, 31)
            }
        }),
{
    let op = with_immediate(13, 1, 0, rd, rot, imm);
    lemma_processing::<M>(cpu, s, 13, 1, 0, rd, rot, imm, 0, 0, 0);
    lemma_processing_fields(13, 1, 0, rd, rot, imm, 0, 0, 0);
    let (b, carry, _) = cpu.arm_operand2(op);
    lemma_flags_set(cpu.regs.cpsr, b, None, carry);
    lemma_status_bits(cpu.regs.cpsr.0, 29);
    lemma_shifted_bits(b, 1, 31);
    if rot > 0 {
        lemma_shifted_bits(imm, (2 * rot) as u32, i);
    }
}

/// What a flag-setting move of a shifted register comes to.
pub(crate) proof fn lemma_moved_shift<M: Memory>(
    cpu: CpuView,
    s: M::State,
    rd: u32,
    amount: u32,
    kind: u32,
    rm: u32,
)
    requires
        cpu.regs.wf(),
        rd < 15,
        amount < 32,
        kind < 4,
        rm < 15,
    ensures
        shift_of(kind) == if kind == 0 {
            ShiftType::Lsl
        } else if kind == 1 {
            ShiftType::Lsr
        } else if kind == 2 {
            ShiftType::Asr
        } else {
            ShiftType::Ror
        },
        ({
            let (b, carry) = shifted_imm(
                shift_of(kind),
                cpu.regs.gpr[rm as int],
                amount,
                cpu.regs.cpsr.c(),
            );
            cpu.execute_arm::<M>(s, with_shift(13, 1, 0, rd, amount, kind, rm)).0 == with_register(
                with_status(cpu, cpu.regs.cpsr.with_nz(b).with(FLAG_C, carry).0),
                rd as int,
                b,
            )
        }),
{
    lemma_processing::<M>(cpu, s, 13, 1, 0, rd, 0, 0, amount, kind, rm);
    lemma_processing_fields(13, 1, 0, rd, 0, 0, amount, kind, rm);
    lemma_low_byte(kind);
}

/// What a flag-setting move of a register shifted by another comes to.
pub(crate) proof fn lemma_moved_register_shift<M: Memory>(
    cpu: CpuView,
    s: M::State,
    rd: u32,
    rs: u32,
    kind: u32,
)
    requires
        cpu.regs.wf(),
        rd < 15,
        rs < 15,
        kind < 4,
    ensures
        shift_of(kind) == if kind == 0 {
            ShiftType::Lsl
        } else if kind == 1 {
            ShiftType::Lsr
        } else if kind == 2 {
            ShiftType::Asr
        } else {
            ShiftType::Ror
        },
        ({
            let (b, carry) = shifted_reg(
                shift_of(kind),
                cpu.regs.gpr[rd as int],
                cpu.regs.gpr[rs as int],
                cpu.regs.cpsr.c(),
            );
            cpu.execute_arm::<M>(s, with_register_shift(13, 1, 0, rd, rs, kind, rd)) == (
                with_register(
                    with_status(cpu, cpu.regs.cpsr.with_nz(b).with(FLAG_C, carry).0),
                    rd as int,
                    b,
                ),
                s,
                1u32,
            )
        }),
{
    lemma_processing::<M>(cpu, s, 13, 1, 0, rd, rs, 0, 0, kind, rd);
    lemma_processing_fields(13, 1, 0, rd, rs, 0, 0, kind, rd);
    lemma_low_byte(kind);
    lemma_low_byte(cpu.regs.gpr[rs as int]);
}

/// What flag-setting operations with a register, or with the same number as
/// an immediate, come to.
pub(crate) proof fn lemma_plain_operands<M: Memory>(
    cpu: CpuView,
    s: M::State,
    code: u32,
    rn: u32,
    rd: u32,
    n: u32,
)
    requires
        cpu.regs.wf(),
        code < 16,
        rn < 16,
        rd < 15,
        n < 256,
    ensures
        ({
            let result = |b: u32|
                {
                    let (r, arith) = dp_result(
                        code,
                        cpu.regs.gpr[rn as int],
                        b,
                        cpu.regs.cpsr.c(),
                    );
                    let flagged = with_status(
                        cpu,
                        CpuView::dp_flags(cpu.regs.cpsr, r, arith, cpu.regs.cpsr.c()).0,
                    );
                    if 8 <= code <= 11 {
                        flagged
                    } else {
                        with_register(flagged, rd as int, r)
                    }
                };
            &&& cpu.execute_arm::<M>(s, with_immediate(code, 1, rn, rd, 0, n)).0 == result(n)
            &&& n < 16 ==> cpu.execute_arm::<M>(s, with_shift(code, 1, rn, rd, 0, 0, n)).0
                == result(cpu.regs.gpr[n as int])
        }),
{
    lemma_processing::<M>(cpu, s, code, 1, rn, rd, 0, n, 0, 0, 0);
    lemma_processing_fields(code, 1, rn, rd, 0, n, 0, 0, 0);
    if n < 16 {
        lemma_processing::<M>(cpu, s, code, 1, rn, rd, 0, 0, 0, 0, n);
        lemma_processing_fields(code, 1, rn, rd, 0, 0, 0, 0, n);
    }
}

/// Setting the carry to what it is changes nothing.
pub(crate) proof fn lemma_same_flags(cpsr: Cpsr)
    ensures
        forall|r: u32| #[trigger]
            cpsr.with_nz(r).with(FLAG_C, cpsr.c()) == cpsr.with_nz(r),
{
    assert forall|r: u32| #[trigger]
        cpsr.with_nz(r).with(FLAG_C, cpsr.c()) == cpsr.with_nz(r) by {
        let s1 = cpsr.with(FLAG_N, r & FLAG_N != 0);
        let s2 = s1.with(FLAG_Z, r == 0);
        lemma_status_bits(cpsr.0, 31);
        lemma_status_bits(s1.0, 30);
        lemma_status_bits(cpsr.0, 29);
        lemma_status_bits(s2.0, 29);
        lemma_same_bit(s2.0);
    }
}

proof fn lemma_same_bit(v: u32)
    ensures
        v & (1u32 << 29) != 0 ==> v | (1u32 << 29) == v,
        v & (1u32 << 29) == 0 ==> v & !(1u32 << 29) == v,
{
    crate::bits::word_facts(v, 0, 0, 0);
}

} // verus!
