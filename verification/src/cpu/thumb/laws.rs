//! What the THUMB instructions do, said of their encodings: most do what some
//! ARM instruction does.

use vstd::prelude::*;

use crate::cpu::arm::laws::{
    with_immediate, with_register, with_register_shift, with_shift,
};
use crate::cpu::arm::mem::{list_size, Block};
use crate::cpu::arm::transfer_laws::{
    block_transfer, exchange, half_transfer, lemma_aligned_word, transfer,
};
use crate::cpu::registers::condition_holds;
use crate::cpu::CpuView;
use crate::memory::Memory;

verus! {

broadcast use crate::bits::group_mask_bounds;

/// A shift by a constant.
pub open spec fn shift(kind: u16, amount: u16, rs: u16, rd: u16) -> u16 {
    (kind << 11) | (amount << 6) | (rs << 3) | rd
}

/// An addition or, with `sub`, a subtraction of a register or, with `i`, a
/// small number.
pub open spec fn add_sub(i: u16, sub: u16, n: u16, rs: u16, rd: u16) -> u16 {
    0x1800u16 | (i << 10) | (sub << 9) | (n << 6) | (rs << 3) | rd
}

/// A move, compare, addition or subtraction with a byte.
pub open spec fn immediate(form: u16, rd: u16, imm: u16) -> u16 {
    0x2000u16 | (form << 11) | (rd << 8) | imm
}

/// An operation on two low registers.
pub open spec fn operation(code: u16, rs: u16, rd: u16) -> u16 {
    0x4000u16 | (code << 6) | (rs << 3) | rd
}

/// An addition, compare, move or exchange with any registers.
pub open spec fn any_register(form: u16, rs: u16, rd: u16) -> u16 {
    0x4400u16 | (form << 8) | ((rd >> 3) << 7) | (rs << 3) | (rd & 7)
}

proof fn lemma_arithmetic_fields(a: u16, b: u16, c: u16, d: u16, k: u16)
    by (bit_vector)
    requires
        a < 16,
        b < 32,
        c < 16,
        d < 16,
        k < 256,
    ensures
        a < 3 && c < 8 && d < 8 ==> shift(a, b, c, d) >> 13 == 0,
        a < 3 && c < 8 && d < 8 ==> (shift(a, b, c, d) >> 11) & 3 == a,
        a < 3 && c < 8 && d < 8 ==> ((shift(a, b, c, d) >> 11) as u32) & 3 == a as u32,
        a < 3 && c < 8 && d < 8 ==> (shift(a, b, c, d) >> 6) & 0x1F == b,
        a < 3 && c < 8 && d < 8 ==> (shift(a, b, c, d) >> 3) & 7 == c,
        a < 3 && c < 8 && d < 8 ==> shift(a, b, c, d) & 7 == d,
        a < 4 && b < 8 && c < 8 && d < 8 ==> add_sub(a & 1, a >> 1, b, c, d) >> 13 == 0,
        a < 4 && b < 8 && c < 8 && d < 8 ==> (add_sub(a & 1, a >> 1, b, c, d) >> 11) & 3 == 3,
        a < 4 && b < 8 && c < 8 && d < 8 ==> (add_sub(a & 1, a >> 1, b, c, d) & (1u16 << 10) != 0
            <==> a & 1 == 1),
        a < 4 && b < 8 && c < 8 && d < 8 ==> (add_sub(a & 1, a >> 1, b, c, d) & (1u16 << 9) != 0
            <==> a >> 1 == 1),
        a < 4 && b < 8 && c < 8 && d < 8 ==> (add_sub(a & 1, a >> 1, b, c, d) >> 6) & 7 == b,
        a < 4 && b < 8 && c < 8 && d < 8 ==> (add_sub(a & 1, a >> 1, b, c, d) >> 3) & 7 == c,
        a < 4 && b < 8 && c < 8 && d < 8 ==> add_sub(a & 1, a >> 1, b, c, d) & 7 == d,
        a < 4 && d < 8 ==> immediate(a, d, k) >> 13 == 1,
        a < 4 && d < 8 ==> (immediate(a, d, k) >> 11) & 3 == a,
        a < 4 && d < 8 ==> (immediate(a, d, k) >> 8) & 7 == d,
        a < 4 && d < 8 ==> immediate(a, d, k) & 0xFF == k,
        c < 8 && d < 8 ==> operation(a, c, d) >> 13 == 2,
        c < 8 && d < 8 ==> (operation(a, c, d) >> 10) & 7 == 0,
        c < 8 && d < 8 ==> (operation(a, c, d) >> 6) & 0xF == a,
        c < 8 && d < 8 ==> (operation(a, c, d) >> 3) & 7 == c,
        c < 8 && d < 8 ==> operation(a, c, d) & 7 == d,
        a < 4 ==> any_register(a, c, d) >> 13 == 2,
        a < 4 ==> (any_register(a, c, d) >> 10) & 7 == 1,
        a < 4 ==> (any_register(a, c, d) >> 8) & 3 == a,
        a < 4 ==> (any_register(a, c, d) >> 3) & 0xF == c,
        a < 4 ==> ((any_register(a, c, d) >> 4) & 8) | (any_register(a, c, d) & 7) == d,
        a < 4 ==> (a as u32) & 3 == a as u32,
        0u16 & 1 == 0 && 0u16 >> 1 == 0,
        1u16 & 1 == 1 && 1u16 >> 1 == 0,
        2u16 & 1 == 0 && 2u16 >> 1 == 1,
        3u16 & 1 == 1 && 3u16 >> 1 == 1,
{
}

/// A shift by a constant is a flag-setting ARM move with that shift.
#[verifier::rlimit(60)]
pub proof fn law_thumb_shift<M: Memory>(
    cpu: CpuView,
    s: M::State,
    kind: u16,
    amount: u16,
    rs: u16,
    rd: u16,
)
    requires
        cpu.regs.wf(),
        kind < 3,
        amount < 32,
        rs < 8,
        rd < 8,
    ensures
        cpu.execute_thumb::<M>(s, shift(kind, amount, rs, rd)).0 == cpu.execute_arm::<M>(
            s,
            with_shift(13, 1, 0, rd as u32, amount as u32, kind as u32, rs as u32),
        ).0,
{
    reveal(CpuView::execute_thumb);
    lemma_arithmetic_fields(kind, amount, rs, rd, 0);
    crate::cpu::arm::laws::lemma_moved_shift::<M>(
        cpu,
        s,
        rd as u32,
        amount as u32,
        kind as u32,
        rs as u32,
    );
}

/// Additions and subtractions are the flag-setting ARM ones.
#[verifier::rlimit(60)]
pub proof fn law_thumb_add_sub<M: Memory>(
    cpu: CpuView,
    s: M::State,
    n: u16,
    rs: u16,
    rd: u16,
)
    requires
        cpu.regs.wf(),
        n < 8,
        rs < 8,
        rd < 8,
    ensures
        cpu.execute_thumb::<M>(s, add_sub(0, 0, n, rs, rd)).0 == cpu.execute_arm::<M>(
            s,
            with_shift(4, 1, rs as u32, rd as u32, 0, 0, n as u32),
        ).0,
        cpu.execute_thumb::<M>(s, add_sub(0, 1, n, rs, rd)).0 == cpu.execute_arm::<M>(
            s,
            with_shift(2, 1, rs as u32, rd as u32, 0, 0, n as u32),
        ).0,
        cpu.execute_thumb::<M>(s, add_sub(1, 0, n, rs, rd)).0 == cpu.execute_arm::<M>(
            s,
            with_immediate(4, 1, rs as u32, rd as u32, 0, n as u32),
        ).0,
        cpu.execute_thumb::<M>(s, add_sub(1, 1, n, rs, rd)).0 == cpu.execute_arm::<M>(
            s,
            with_immediate(2, 1, rs as u32, rd as u32, 0, n as u32),
        ).0,
{
    reveal(CpuView::execute_thumb);
    lemma_arithmetic_fields(0, n, rs, rd, 0);
    lemma_arithmetic_fields(1, n, rs, rd, 0);
    lemma_arithmetic_fields(2, n, rs, rd, 0);
    lemma_arithmetic_fields(3, n, rs, rd, 0);
    crate::cpu::arm::laws::lemma_plain_operands::<M>(cpu, s, 4, rs as u32, rd as u32, n as u32);
    crate::cpu::arm::laws::lemma_plain_operands::<M>(cpu, s, 2, rs as u32, rd as u32, n as u32);
}

/// Operations with a byte are the flag-setting ARM ones on the same
/// register.
#[verifier::rlimit(60)]
pub proof fn law_thumb_immediate<M: Memory>(cpu: CpuView, s: M::State, rd: u16, imm: u16)
    requires
        cpu.regs.wf(),
        rd < 8,
        imm < 256,
    ensures
        cpu.execute_thumb::<M>(s, immediate(0, rd, imm)).0 == cpu.execute_arm::<M>(
            s,
            with_immediate(13, 1, rd as u32, rd as u32, 0, imm as u32),
        ).0,
        cpu.execute_thumb::<M>(s, immediate(1, rd, imm)).0 == cpu.execute_arm::<M>(
            s,
            with_immediate(10, 1, rd as u32, rd as u32, 0, imm as u32),
        ).0,
        cpu.execute_thumb::<M>(s, immediate(2, rd, imm)).0 == cpu.execute_arm::<M>(
            s,
            with_immediate(4, 1, rd as u32, rd as u32, 0, imm as u32),
        ).0,
        cpu.execute_thumb::<M>(s, immediate(3, rd, imm)).0 == cpu.execute_arm::<M>(
            s,
            with_immediate(2, 1, rd as u32, rd as u32, 0, imm as u32),
        ).0,
{
    reveal(CpuView::execute_thumb);
    lemma_arithmetic_fields(0, 0, 0, rd, imm);
    lemma_arithmetic_fields(1, 0, 0, rd, imm);
    lemma_arithmetic_fields(2, 0, 0, rd, imm);
    lemma_arithmetic_fields(3, 0, 0, rd, imm);
    let (r, i) = (rd as u32, imm as u32);
    crate::cpu::arm::laws::lemma_plain_operands::<M>(cpu, s, 13, r, r, i);
    crate::cpu::arm::laws::lemma_plain_operands::<M>(cpu, s, 10, r, r, i);
    crate::cpu::arm::laws::lemma_plain_operands::<M>(cpu, s, 4, r, r, i);
    crate::cpu::arm::laws::lemma_plain_operands::<M>(cpu, s, 2, r, r, i);
    crate::cpu::arm::laws::lemma_same_flags(cpu.regs.cpsr);
}

/// The ARM operation that an operation on two low registers stands for, where
/// it is one on both.
pub open spec fn arm_code(code: u16) -> u32 {
    if code == 0 {
        0
    } else if code == 1 {
        1
    } else if code == 5 {
        5
    } else if code == 6 {
        6
    } else if code == 8 {
        8
    } else if code == 10 {
        10
    } else if code == 11 {
        11
    } else if code == 12 {
        12
    } else if code == 14 {
        14
    } else {
        15
    }
}

/// Operations on two low registers are the flag-setting ARM ones, by the same
/// numbers: and, exclusive or, add and subtract with carry, test, compare,
/// compare with the negative, or, clear bits, complement.
#[verifier::rlimit(60)]
pub proof fn law_thumb_operations<M: Memory>(
    cpu: CpuView,
    s: M::State,
    code: u16,
    rs: u16,
    rd: u16,
)
    requires
        cpu.regs.wf(),
        code < 16,
        code != 2 && code != 3 && code != 4 && code != 7 && code != 9 && code != 13,
        rs < 8,
        rd < 8,
    ensures
        cpu.execute_thumb::<M>(s, operation(code, rs, rd)).0 == cpu.execute_arm::<M>(
            s,
            with_shift(arm_code(code), 1, rd as u32, rd as u32, 0, 0, rs as u32),
        ).0,
{
    reveal(CpuView::execute_thumb);
    lemma_arithmetic_fields(code, 0, rs, rd, 0);
    crate::cpu::arm::laws::lemma_plain_operands::<M>(
        cpu,
        s,
        arm_code(code),
        rd as u32,
        rd as u32,
        rs as u32,
    );
    crate::cpu::arm::laws::lemma_same_flags(cpu.regs.cpsr);
}

/// Shifts by a register are flag-setting ARM moves with that shift: left,
/// right, arithmetic right and rotation; they take one cycle more. A negation
/// is a reverse subtraction from zero.
#[verifier::rlimit(60)]
pub proof fn law_thumb_shift_operations<M: Memory>(
    cpu: CpuView,
    s: M::State,
    rs: u16,
    rd: u16,
)
    requires
        cpu.regs.wf(),
        rs < 8,
        rd < 8,
    ensures
        ({
            let moved = |kind: u32|
                cpu.execute_arm::<M>(
                    s,
                    with_register_shift(13, 1, 0, rd as u32, rs as u32, kind, rd as u32),
                );
            &&& cpu.execute_thumb::<M>(s, operation(2, rs, rd)) == moved(0)
            &&& cpu.execute_thumb::<M>(s, operation(3, rs, rd)) == moved(1)
            &&& cpu.execute_thumb::<M>(s, operation(4, rs, rd)) == moved(2)
            &&& cpu.execute_thumb::<M>(s, operation(7, rs, rd)) == moved(3)
        }),
        cpu.execute_thumb::<M>(s, operation(9, rs, rd)).0 == cpu.execute_arm::<M>(
            s,
            with_immediate(3, 1, rs as u32, rd as u32, 0, 0),
        ).0,
{
    reveal(CpuView::execute_thumb);
    lemma_arithmetic_fields(2, 0, rs, rd, 0);
    lemma_arithmetic_fields(3, 0, rs, rd, 0);
    lemma_arithmetic_fields(4, 0, rs, rd, 0);
    lemma_arithmetic_fields(7, 0, rs, rd, 0);
    lemma_arithmetic_fields(9, 0, rs, rd, 0);
    crate::cpu::arm::laws::lemma_moved_register_shift::<M>(cpu, s, rd as u32, rs as u32, 0);
    crate::cpu::arm::laws::lemma_moved_register_shift::<M>(cpu, s, rd as u32, rs as u32, 1);
    crate::cpu::arm::laws::lemma_moved_register_shift::<M>(cpu, s, rd as u32, rs as u32, 2);
    crate::cpu::arm::laws::lemma_moved_register_shift::<M>(cpu, s, rd as u32, rs as u32, 3);
    crate::cpu::arm::laws::lemma_plain_operands::<M>(cpu, s, 3, rs as u32, rd as u32, 0);
}

/// An addition of any registers sets no flags.
#[verifier::rlimit(60)]
pub proof fn law_thumb_any_add<M: Memory>(cpu: CpuView, s: M::State, rs: u16, rd: u16)
    requires
        cpu.regs.wf(),
        rs < 16,
        rd < 15,
    ensures
        cpu.execute_thumb::<M>(s, any_register(0, rs, rd)).0 == with_register(
            cpu,
            rd as int,
            ((cpu.regs.gpr[rd as int] + cpu.regs.gpr[rs as int]) % 0x1_0000_0000) as u32,
        ),
{
    reveal(CpuView::execute_thumb);
    lemma_arithmetic_fields(0, 0, rs, rd, 0);
}

/// A compare of any registers is the ARM one.
#[verifier::rlimit(60)]
pub proof fn law_thumb_any_compare<M: Memory>(cpu: CpuView, s: M::State, rs: u16, rd: u16)
    requires
        cpu.regs.wf(),
        rs < 16,
        rd < 16,
    ensures
        cpu.execute_thumb::<M>(s, any_register(1, rs, rd)).0 == cpu.execute_arm::<M>(
            s,
            with_shift(10, 1, rd as u32, 0, 0, 0, rs as u32),
        ).0,
{
    reveal(CpuView::execute_thumb);
    lemma_arithmetic_fields(1, 0, rs, rd, 0);
    crate::cpu::arm::laws::lemma_plain_operands::<M>(cpu, s, 10, rd as u32, 0, rs as u32);
}

/// A move between any registers sets no flags.
#[verifier::rlimit(60)]
pub proof fn law_thumb_any_move<M: Memory>(cpu: CpuView, s: M::State, rs: u16, rd: u16)
    requires
        cpu.regs.wf(),
        rs < 16,
        rd < 15,
    ensures
        cpu.execute_thumb::<M>(s, any_register(2, rs, rd)).0 == with_register(
            cpu,
            rd as int,
            cpu.regs.gpr[rs as int],
        ),
{
    reveal(CpuView::execute_thumb);
    lemma_arithmetic_fields(2, 0, rs, rd, 0);
}

/// The exchange is the ARM one.
#[verifier::rlimit(60)]
pub proof fn law_thumb_exchange<M: Memory>(cpu: CpuView, s: M::State, rs: u16, rd: u16)
    requires
        cpu.regs.wf(),
        rs < 16,
        rd < 16,
    ensures
        cpu.execute_thumb::<M>(s, any_register(3, rs, rd)).0 == cpu.execute_arm::<M>(
            s,
            exchange(rs as u32),
        ).0,
{
    reveal(CpuView::execute_thumb);
    lemma_arithmetic_fields(3, 0, rs, rd, 0);
    crate::cpu::arm::transfer_laws::lemma_exchanged::<M>(cpu, s, rs as u32);
}

/// Loads and stores with a constant offset: words by fours, with `b` bytes.
pub open spec fn offset_transfer(b: u16, l: u16, offset: u16, rb: u16, rd: u16) -> u16 {
    0x6000u16 | (b << 12) | (l << 11) | (offset << 6) | (rb << 3) | rd
}

/// Halfword loads and stores with a constant offset, by twos.
pub open spec fn offset_half(l: u16, offset: u16, rb: u16, rd: u16) -> u16 {
    0x8000u16 | (l << 11) | (offset << 6) | (rb << 3) | rd
}

/// Loads and stores relative to the stack pointer.
pub open spec fn stack_transfer(l: u16, rd: u16, imm: u16) -> u16 {
    0x9000u16 | (l << 11) | (rd << 8) | imm
}

/// A load relative to r15.
pub open spec fn literal_load(rd: u16, imm: u16) -> u16 {
    0x4800u16 | (rd << 8) | imm
}

/// Loads and stores with a register offset.
pub open spec fn register_transfer(form: u16, ro: u16, rb: u16, rd: u16) -> u16 {
    0x5000u16 | (form << 9) | (ro << 6) | (rb << 3) | rd
}

/// An address relative to r15 or, with `sp`, to the stack pointer.
pub open spec fn address_of(sp: u16, rd: u16, imm: u16) -> u16 {
    0xA000u16 | (sp << 11) | (rd << 8) | imm
}

/// A move of the stack pointer, down with `down`.
pub open spec fn stack_move(down: u16, imm: u16) -> u16 {
    0xB000u16 | (down << 7) | imm
}

/// A block transfer of low registers.
pub open spec fn low_transfer(l: u16, rb: u16, list: u16) -> u16 {
    0xC000u16 | (l << 11) | (rb << 8) | list
}

proof fn lemma_memory_fields(a: u16, b: u16, o: u16, c: u16, d: u16, k: u16)
    by (bit_vector)
    requires
        a < 2,
        b < 8,
        o < 32,
        c < 8,
        d < 8,
        k < 256,
    ensures
        b < 2 ==> offset_transfer(b, a, o, c, d) >> 13 == 3,
        b < 2 ==> (offset_transfer(b, a, o, c, d) & (1u16 << 12) != 0 <==> b == 1),
        b < 2 ==> (offset_transfer(b, a, o, c, d) & (1u16 << 11) != 0 <==> a == 1),
        b < 2 ==> (offset_transfer(b, a, o, c, d) >> 6) & 0x1F == o,
        b < 2 ==> (offset_transfer(b, a, o, c, d) >> 3) & 7 == c,
        b < 2 ==> offset_transfer(b, a, o, c, d) & 7 == d,
        offset_half(a, o, c, d) >> 13 == 4,
        offset_half(a, o, c, d) & (1u16 << 12) == 0,
        offset_half(a, o, c, d) & (1u16 << 11) != 0 <==> a == 1,
        (offset_half(a, o, c, d) >> 6) & 0x1F == o,
        (offset_half(a, o, c, d) >> 3) & 7 == c,
        offset_half(a, o, c, d) & 7 == d,
        stack_transfer(a, d, k) >> 13 == 4,
        stack_transfer(a, d, k) & (1u16 << 12) != 0,
        stack_transfer(a, d, k) & (1u16 << 11) != 0 <==> a == 1,
        (stack_transfer(a, d, k) >> 8) & 7 == d,
        stack_transfer(a, d, k) & 0xFF == k,
        literal_load(d, k) >> 13 == 2,
        (literal_load(d, k) >> 10) & 7 == 2 || (literal_load(d, k) >> 10) & 7 == 3,
        (literal_load(d, k) >> 8) & 7 == d,
        literal_load(d, k) & 0xFF == k,
        register_transfer(b, c, d, o & 7) >> 13 == 2,
        (register_transfer(b, c, d, o & 7) >> 10) & 7 >= 4,
        register_transfer(b, c, d, o & 7) & (1u16 << 9) != 0 <==> b & 1 == 1,
        (register_transfer(b, c, d, o & 7) >> 10) & 3 == b >> 1,
        (register_transfer(b, c, d, o & 7) >> 6) & 7 == c,
        (register_transfer(b, c, d, o & 7) >> 3) & 7 == d,
        register_transfer(b, c, d, o & 7) & 7 == o & 7,
        address_of(a, d, k) >> 13 == 5,
        address_of(a, d, k) & (1u16 << 12) == 0,
        address_of(a, d, k) & (1u16 << 11) != 0 <==> a == 1,
        (address_of(a, d, k) >> 8) & 7 == d,
        address_of(a, d, k) & 0xFF == k,
        k < 128 ==> stack_move(a, k) >> 13 == 5,
        k < 128 ==> stack_move(a, k) & (1u16 << 12) != 0,
        k < 128 ==> stack_move(a, k) & 0x0F00 == 0,
        k < 128 ==> stack_move(a, k) & 0x7F == k,
        k < 128 ==> (stack_move(a, k) & (1u16 << 7) != 0 <==> a == 1),
        low_transfer(a, d, k) >> 13 == 6,
        low_transfer(a, d, k) & (1u16 << 12) == 0,
        low_transfer(a, d, k) & (1u16 << 11) != 0 <==> a == 1,
        (low_transfer(a, d, k) >> 8) & 7 == d,
        low_transfer(a, d, k) & 0xFF == k,
        (o as u32) << 2 == 4 * (o as u32),
        (o as u32) << 1 == 2 * (o as u32),
        (k as u32) << 2 == 4 * (k as u32),
        o < 8 ==> o & 7 == o,
        b == 0 ==> b & 1 == 0 && b >> 1 == 0,
        b == 1 ==> b & 1 == 1 && b >> 1 == 0,
        b == 2 ==> b & 1 == 0 && b >> 1 == 1,
        b == 3 ==> b & 1 == 1 && b >> 1 == 1,
        b == 4 ==> b & 1 == 0 && b >> 1 == 2,
        b == 5 ==> b & 1 == 1 && b >> 1 == 2,
        b == 6 ==> b & 1 == 0 && b >> 1 == 3,
        b == 7 ==> b & 1 == 1 && b >> 1 == 3,
{
}

/// Loads and stores with a constant offset are the ARM ones, words with four
/// times it and halfwords with twice it.
#[verifier::rlimit(60)]
pub proof fn law_thumb_offset_transfers<M: Memory>(
    cpu: CpuView,
    s: M::State,
    l: u16,
    offset: u16,
    rb: u16,
    rd: u16,
)
    requires
        cpu.regs.wf(),
        l < 2,
        offset < 32,
        rb < 8,
        rd < 8,
    ensures
        cpu.execute_thumb::<M>(s, offset_transfer(0, l, offset, rb, rd)) == cpu.execute_arm::<M>(
            s,
            transfer(1, 1, 0, 0, l as u32, rb as u32, rd as u32, (4 * offset) as u32),
        ),
        cpu.execute_thumb::<M>(s, offset_transfer(1, l, offset, rb, rd)) == cpu.execute_arm::<M>(
            s,
            transfer(1, 1, 1, 0, l as u32, rb as u32, rd as u32, offset as u32),
        ),
        cpu.execute_thumb::<M>(s, offset_half(l, offset, rb, rd)) == cpu.execute_arm::<M>(
            s,
            half_transfer(1, 1, 0, l as u32, rb as u32, rd as u32, 1, (2 * offset) as u32),
        ),
{
    reveal(CpuView::execute_thumb);
    lemma_memory_fields(l, 0, offset, rb, rd, 0);
    lemma_memory_fields(l, 1, offset, rb, rd, 0);
    crate::cpu::arm::transfer_laws::lemma_offset_transfer::<M>(
        cpu,
        s,
        0,
        l as u32,
        rb as u32,
        rd as u32,
        (4 * offset) as u32,
    );
    crate::cpu::arm::transfer_laws::lemma_offset_transfer::<M>(
        cpu,
        s,
        1,
        l as u32,
        rb as u32,
        rd as u32,
        offset as u32,
    );
    crate::cpu::arm::transfer_laws::lemma_offset_half::<M>(
        cpu,
        s,
        l as u32,
        rb as u32,
        rd as u32,
        (2 * offset) as u32,
    );
}

/// Loads and stores relative to the stack pointer are the ARM ones with four
/// times the offset.
#[verifier::rlimit(60)]
pub proof fn law_thumb_stack_transfers<M: Memory>(
    cpu: CpuView,
    s: M::State,
    l: u16,
    rd: u16,
    imm: u16,
)
    requires
        cpu.regs.wf(),
        l < 2,
        rd < 8,
        imm < 256,
    ensures
        cpu.execute_thumb::<M>(s, stack_transfer(l, rd, imm)) == cpu.execute_arm::<M>(
            s,
            transfer(1, 1, 0, 0, l as u32, 13, rd as u32, (4 * imm) as u32),
        ),
{
    reveal(CpuView::execute_thumb);
    lemma_memory_fields(l, 0, 0, 0, rd, imm);
    crate::cpu::arm::transfer_laws::lemma_offset_transfer::<M>(
        cpu,
        s,
        0,
        l as u32,
        13,
        rd as u32,
        (4 * imm) as u32,
    );
}

/// Loads and stores at the sum of two registers: word, halfword, byte,
/// signed byte, word, halfword, byte and signed halfword, the first three
/// being stores.
#[verifier::rlimit(60)]
pub proof fn law_thumb_register_transfers<M: Memory>(
    cpu: CpuView,
    s: M::State,
    ro: u16,
    rb: u16,
    rd: u16,
)
    requires
        cpu.regs.wf(),
        ro < 8,
        rb < 8,
        rd < 8,
    ensures
        ({
            let at = ((cpu.regs.gpr[rb as int] + cpu.regs.gpr[ro as int]) % 0x1_0000_0000) as u32;
            let value = cpu.regs.gpr[rd as int];
            let run = |form: u16| cpu.execute_thumb::<M>(s, register_transfer(form, ro, rb, rd));
            let r = |form: u16| run(form).0.regs.gpr[rd as int];
            &&& run(0) == (cpu, M::stored32(s, (at - at % 4) as u32, value), 0u32)
            &&& run(1) == (cpu, M::stored16(s, (at - at % 2) as u32, value as u16), 0u32)
            &&& run(2) == (cpu, M::stored8(s, at, value as u8), 0u32)
            &&& run(3).0 == with_register(cpu, rd as int, r(3))
            &&& r(3) as i32 == M::value8(s, at) as i8
            &&& at % 4 == 0 ==> run(4) == (
                with_register(cpu, rd as int, M::value32(s, at)),
                M::loaded32(s, at),
                1u32,
            )
            &&& at % 2 == 0 ==> run(5) == (
                with_register(cpu, rd as int, M::value16(s, at) as u32),
                M::loaded16(s, at),
                1u32,
            )
            &&& run(6) == (
                with_register(cpu, rd as int, M::value8(s, at) as u32),
                M::loaded8(s, at),
                1u32,
            )
            &&& run(7).0 == with_register(cpu, rd as int, r(7))
            &&& at % 2 == 0 ==> r(7) as i32 == M::value16(s, at) as i16
        }),
{
    reveal(CpuView::execute_thumb);
    let at = ((cpu.regs.gpr[rb as int] + cpu.regs.gpr[ro as int]) % 0x1_0000_0000) as u32;
    assert(at == cpu.regs.gpr[rb as int].wrapping_add(cpu.regs.gpr[ro as int]));
    lemma_aligned_word(at);
    lemma_memory_fields(0, 0, rd, ro, rb, 0);
    lemma_memory_fields(0, 1, rd, ro, rb, 0);
    lemma_memory_fields(0, 2, rd, ro, rb, 0);
    lemma_memory_fields(0, 3, rd, ro, rb, 0);
    lemma_memory_fields(0, 4, rd, ro, rb, 0);
    lemma_memory_fields(0, 5, rd, ro, rb, 0);
    lemma_memory_fields(0, 6, rd, ro, rb, 0);
    lemma_memory_fields(0, 7, rd, ro, rb, 0);
    crate::cpu::arm::transfer_laws::lemma_extended(
        M::value8(s, at) as i8,
        M::value16(s, at) as i16,
    );
}

/// Addresses relative to r15 count, by fours, from the word that contains it,
/// both in a load and as such.
#[verifier::rlimit(60)]
pub proof fn law_thumb_literals<M: Memory>(cpu: CpuView, s: M::State, rd: u16, imm: u16)
    requires
        cpu.regs.wf(),
        rd < 8,
        imm < 256,
        cpu.regs.gpr[15] % 2 == 0,
    ensures
        ({
            let pc = cpu.regs.gpr[15];
            let literal = ((pc - pc % 4 + 4 * imm) % 0x1_0000_0000) as u32;
            &&& cpu.execute_thumb::<M>(s, literal_load(rd, imm)) == (
                with_register(cpu, rd as int, M::value32(s, literal)),
                M::loaded32(s, literal),
                1u32,
            )
            &&& cpu.execute_thumb::<M>(s, address_of(0, rd, imm)).0 == with_register(
                cpu,
                rd as int,
                literal,
            )
        }),
{
    reveal(CpuView::execute_thumb);
    lemma_memory_fields(0, 0, 0, 0, rd, imm);
    let pc = cpu.regs.gpr[15];
    lemma_word_of(pc);
    let base = (pc - pc % 4) as u32;
    assert(base.wrapping_add((4 * imm) as u32) == (base + 4 * imm) % 0x1_0000_0000);
}

/// An address relative to the stack pointer counts from it, by fours.
#[verifier::rlimit(60)]
pub proof fn law_thumb_stack_address<M: Memory>(cpu: CpuView, s: M::State, rd: u16, imm: u16)
    requires
        cpu.regs.wf(),
        rd < 8,
        imm < 256,
    ensures
        cpu.execute_thumb::<M>(s, address_of(1, rd, imm)).0 == with_register(
            cpu,
            rd as int,
            ((cpu.regs.gpr[13] + 4 * imm) % 0x1_0000_0000) as u32,
        ),
{
    reveal(CpuView::execute_thumb);
    lemma_memory_fields(1, 0, 0, 0, rd, imm);
    lemma_stack_offset(cpu.regs.gpr[13], imm);
}

/// The stack pointer moves up by fours.
#[verifier::rlimit(60)]
pub proof fn law_thumb_stack_up<M: Memory>(cpu: CpuView, s: M::State, rd: u16, imm: u16)
    requires
        cpu.regs.wf(),
        rd < 8,
        imm < 128,
    ensures
        cpu.execute_thumb::<M>(s, stack_move(0, imm)).0 == with_register(
            cpu,
            13,
            ((cpu.regs.gpr[13] + 4 * imm) % 0x1_0000_0000) as u32,
        ),
{
    reveal(CpuView::execute_thumb);
    lemma_memory_fields(0, 0, 0, 0, rd, imm);
    lemma_stack_offset(cpu.regs.gpr[13], imm);
}

/// The stack pointer moves down by fours.
#[verifier::rlimit(60)]
pub proof fn law_thumb_stack_down<M: Memory>(cpu: CpuView, s: M::State, rd: u16, imm: u16)
    requires
        cpu.regs.wf(),
        rd < 8,
        imm < 128,
    ensures
        cpu.execute_thumb::<M>(s, stack_move(1, imm)).0 == with_register(
            cpu,
            13,
            ((cpu.regs.gpr[13] - 4 * imm) % 0x1_0000_0000) as u32,
        ),
{
    reveal(CpuView::execute_thumb);
    lemma_memory_fields(1, 0, 0, 0, rd, imm);
    lemma_stack_offset(cpu.regs.gpr[13], imm);
}

proof fn lemma_stack_offset(sp: u32, imm: u16)
    requires
        imm < 256,
    ensures
        sp.wrapping_add((4 * imm) as u32) == (sp + 4 * imm) % 0x1_0000_0000,
        sp.wrapping_sub((4 * imm) as u32) == (sp - 4 * imm) % 0x1_0000_0000,
        (imm as u32) << 2 == 4 * imm,
{
    lemma_memory_fields(0, 0, 0, 0, 0, imm);
}

proof fn lemma_word_of(pc: u32)
    ensures
        pc % 2 == 0 ==> pc & !2u32 == pc - pc % 4,
{
    crate::bits::word_facts(pc, 0, 0, 0);
}

/// A branch by a signed eight-bit number where a condition holds, by a signed
/// eleven-bit one always, and by the two halves of a long branch.
pub open spec fn conditional_branch(condition: u16, offset: u16) -> u16 {
    0xD000u16 | (condition << 8) | offset
}

/// A branch by a signed eleven-bit number.
pub open spec fn short_branch(offset: u16) -> u16 {
    0xE000u16 | offset
}

/// The first half of a long branch with link.
pub open spec fn link_high(offset: u16) -> u16 {
    0xF000u16 | offset
}

/// The second half of a long branch with link.
pub open spec fn link_low(offset: u16) -> u16 {
    0xF800u16 | offset
}

proof fn lemma_branch_halves(condition: u16, k: u16, o: u16)
    by (bit_vector)
    requires
        condition < 14,
        k < 256,
        o < 2048,
    ensures
        conditional_branch(condition, k) >> 13 == 6,
        conditional_branch(condition, k) & (1u16 << 12) != 0,
        conditional_branch(condition, k) & 0x0F00 != 0x0F00,
        conditional_branch(condition, k) & 0x0F00 != 0x0E00,
        ((conditional_branch(condition, k) >> 8) as u32) & 0xF == condition as u32,
        k < 128 ==> (((conditional_branch(condition, k) as i8) as i32) << 1u32) as u32 == 2 * (
        k as u32),
        k >= 128 ==> (((conditional_branch(condition, k) as i8) as i32) << 1u32) as u32 == 2 * (
        k as u32) + 0xFFFF_FE00,
        (0xDF00u16 | k) >> 13 == 6,
        (0xDF00u16 | k) & (1u16 << 12) != 0,
        (0xDF00u16 | k) & 0x0F00 == 0x0F00,
        (0xDF00u16 | k) as u8 == k as u8,
        short_branch(o) >> 13 == 7,
        (short_branch(o) >> 11) & 3 == 0,
        o < 1024 ==> (((short_branch(o) as i32) << 21u32) >> 20u32) as u32 == 2 * (o as u32),
        o >= 1024 ==> (((short_branch(o) as i32) << 21u32) >> 20u32) as u32 == 2 * (o as u32)
            + 0xFFFF_F000,
        link_high(o) >> 13 == 7,
        (link_high(o) >> 11) & 3 == 2,
        link_high(o) & 0x7FF == o,
        link_high(o) & (1u16 << 11) == 0,
        o < 1024 ==> ((((o as u32) << 21) as i32) >> 9u32) as u32 == 4096 * (o as u32),
        o >= 1024 ==> ((((o as u32) << 21) as i32) >> 9u32) as u32 == 4096 * (o as u32)
            + 0xFF80_0000,
        link_low(o) >> 13 == 7,
        (link_low(o) >> 11) & 3 == 3,
        link_low(o) & 0x7FF == o,
        link_low(o) & (1u16 << 11) != 0,
        (o as u32) << 1 == 2 * (o as u32),
{
}

/// A software interrupt is called by its low byte.
#[verifier::rlimit(60)]
pub proof fn law_thumb_software_interrupt<M: Memory>(cpu: CpuView, s: M::State, comment: u16)
    requires
        cpu.regs.wf(),
        comment < 256,
    ensures
        ({
            let after = cpu.execute_thumb::<M>(s, 0xDF00u16 | comment).0;
            &&& cpu.hle_swi ==> after == (CpuView { pending_swi: Some(comment as u8), ..cpu })
            &&& !cpu.hle_swi ==> after == cpu.enter_exception(
                crate::cpu::Exception::SoftwareInterrupt,
            )
        }),
{
    reveal(CpuView::execute_thumb);
    lemma_branch_halves(0, comment, 0);
}

/// A branch goes to its own address plus four plus twice its signed offset;
/// a conditional one only where the condition holds.
#[verifier::rlimit(60)]
pub proof fn law_thumb_branches<M: Memory>(
    cpu: CpuView,
    s: M::State,
    condition: u16,
    near: int,
    far: int,
)
    requires
        cpu.regs.wf(),
        cpu.thumb(),
        condition < 14,
        cpu.regs.gpr[15] % 2 == 0,
        -128 <= near < 128,
        -1024 <= far < 1024,
    ensures
        ({
            let maybe = cpu.execute_thumb::<M>(
                s,
                conditional_branch(condition, (near % 256) as u16),
            ).0;
            let always = cpu.execute_thumb::<M>(s, short_branch((far % 2048) as u16)).0;
            &&& !condition_holds(cpu.regs.cpsr, condition as u32) ==> maybe == cpu
            &&& condition_holds(cpu.regs.cpsr, condition as u32) ==> maybe.regs.gpr[15] == (
            cpu.next_pc() + 4 + 2 * near) % 0x1_0000_0000 && maybe.flushed
            &&& always.regs.gpr[15] == (cpu.next_pc() + 4 + 2 * far) % 0x1_0000_0000
            &&& always.flushed
        }),
{
    let (k, o) = ((near % 256) as u16, (far % 2048) as u16);
    let pc = cpu.regs.gpr[15];
    let a = if k < 128 {
        (2 * k) as u32
    } else {
        (2 * k + 0xFFFF_FE00) as u32
    };
    let b = if o < 1024 {
        (2 * o) as u32
    } else {
        (2 * o + 0xFFFF_F000) as u32
    };
    lemma_branched::<M>(cpu, s, condition, k, o, a, b);
    lemma_moved_by(pc, a, 2 * near);
    lemma_moved_by(pc, b, 2 * far);
    lemma_aligned_word(pc.wrapping_add(a));
    lemma_aligned_word(pc.wrapping_add(b));
    crate::bits::constant_facts();
}

/// Adding a number modulo 2 to the 32nd.
proof fn lemma_moved_by(pc: u32, a: u32, by: int)
    requires
        a == by || a == by + 0x1_0000_0000,
        pc % 2 == 0,
        by % 2 == 0,
    ensures
        pc.wrapping_add(a) == (pc + by) % 0x1_0000_0000,
        pc.wrapping_add(a) % 2 == 0,
        (pc.wrapping_sub(4) + 4 + by) % 0x1_0000_0000 == (pc + by) % 0x1_0000_0000,
{
}

/// What the short branches come to.
proof fn lemma_branched<M: Memory>(
    cpu: CpuView,
    s: M::State,
    condition: u16,
    k: u16,
    o: u16,
    a: u32,
    b: u32,
)
    requires
        cpu.regs.wf(),
        condition < 14,
        k < 256,
        o < 2048,
        a == if k < 128 {
            2 * k
        } else {
            2 * k + 0xFFFF_FE00
        },
        b == if o < 1024 {
            2 * o
        } else {
            2 * o + 0xFFFF_F000
        },
    ensures
        cpu.execute_thumb::<M>(s, conditional_branch(condition, k)).0 == if condition_holds(
            cpu.regs.cpsr,
            condition as u32,
        ) {
            cpu.set_pc(cpu.regs.gpr[15].wrapping_add(a))
        } else {
            cpu
        },
        cpu.execute_thumb::<M>(s, short_branch(o)).0 == cpu.set_pc(
            cpu.regs.gpr[15].wrapping_add(b),
        ),
{
    reveal(CpuView::execute_thumb);
    lemma_branch_halves(condition, k, o);
}

/// What the halves of a long branch come to.
proof fn lemma_linked<M: Memory>(cpu: CpuView, s: M::State, o: u16, a: u32)
    requires
        cpu.regs.wf(),
        o < 2048,
        a == if o < 1024 {
            4096 * o
        } else {
            4096 * o + 0xFF80_0000
        },
    ensures
        cpu.execute_thumb::<M>(s, link_high(o)).0 == with_register(
            cpu,
            14,
            cpu.regs.gpr[15].wrapping_add(a),
        ),
        cpu.execute_thumb::<M>(s, link_low(o)).0 == with_register(
            cpu,
            14,
            cpu.regs.gpr[15].wrapping_sub(2) | 1,
        ).set_pc(cpu.regs.gpr[14].wrapping_add((2 * o) as u32)),
{
    reveal(CpuView::execute_thumb);
    lemma_branch_halves(0, 0, o);
}

/// A long branch with link goes, over two instructions, to the address of the
/// first plus four plus twice its signed 22-bit offset, and leaves the address
/// behind the second in r14, with the lowest bit set.
#[verifier::rlimit(60)]
pub proof fn law_thumb_long_branch<M: Memory>(
    cpu: CpuView,
    s: M::State,
    between: CpuView,
    t: M::State,
    offset: int,
)
    requires
        cpu.regs.wf(),
        cpu.thumb(),
        between.thumb(),
        between.regs.wf(),
        cpu.regs.gpr[15] % 2 == 0,
        -0x20_0000 <= offset < 0x20_0000,
        between.regs.gpr[14] == cpu.execute_thumb::<M>(
            s,
            link_high(((offset % 0x40_0000) / 2048) as u16),
        ).0.regs.gpr[14],
        between.regs.gpr[15] == (cpu.regs.gpr[15] + 2) % 0x1_0000_0000,
    ensures
        ({
            let after = between.execute_thumb::<M>(t, link_low((offset % 2048) as u16)).0;
            &&& after.regs.gpr[15] == (cpu.next_pc() + 4 + 2 * offset) % 0x1_0000_0000
            &&& after.flushed
            &&& after.regs.gpr[14] == (cpu.next_pc() + 4) % 0x1_0000_0000 + 1
        }),
{
    let high = ((offset % 0x40_0000) / 2048) as u16;
    let low = (offset % 2048) as u16;
    let pc = cpu.regs.gpr[15];
    let up = if high < 1024 {
        (4096 * high) as u32
    } else {
        (4096 * high + 0xFF80_0000) as u32
    };
    lemma_linked::<M>(cpu, s, high, up);
    let other = if low < 1024 {
        (4096 * low) as u32
    } else {
        (4096 * low + 0xFF80_0000) as u32
    };
    lemma_linked::<M>(between, t, low, other);
    let link = pc.wrapping_add(up);
    assert(between.regs.gpr[14] == link);
    let target = link.wrapping_add((2 * low) as u32);
    assert(offset % 0x40_0000 == 2048 * high + low);
    lemma_moved_by(pc, up, if high < 1024 {
        4096 * high
    } else {
        4096 * high - 0x80_0000
    });
    assert(2 * offset == 2 * low + if high < 1024 {
        4096 * high
    } else {
        4096 * high - 0x80_0000
    });
    assert(target == (pc + 2 * offset) % 0x1_0000_0000);
    assert(target % 2 == 0);
    lemma_aligned_word(target);
    let back = between.regs.gpr[15].wrapping_sub(2);
    assert(back == pc);
    lemma_odd(pc);
    crate::bits::constant_facts();
}

proof fn lemma_odd(v: u32)
    requires
        v % 2 == 0,
    ensures
        v | 1 == v + 1,
{
    crate::bits::word_facts(v, 0, 0, 0);
}

/// A block transfer from an aligned base is the ARM one that counts up after
/// each word and writes the base back.
#[verifier::rlimit(60)]
pub proof fn law_thumb_blocks<M: Memory>(cpu: CpuView, s: M::State, l: u16, rb: u16, list: u16)
    requires
        cpu.regs.wf(),
        l < 2,
        rb < 8,
        0 < list < 256,
        cpu.regs.gpr[rb as int] % 4 == 0,
    ensures
        cpu.execute_thumb::<M>(s, low_transfer(l, rb, list)) == cpu.execute_arm::<M>(
            s,
            block_transfer(0, 1, 0, 1, l as u32, rb as u32, list as u32),
        ),
{
    reveal(CpuView::execute_thumb);
    lemma_memory_fields(l, 0, 0, 0, rb, list);
    let base = cpu.regs.gpr[rb as int];
    let b = Block {
        load: l == 1,
        list: list as u32,
        empty: false,
        rn: rb as int,
        writeback: true,
        user: false,
        restore: false,
        start: base,
        last: base.wrapping_add((4 * list_size(list as u32, 8)) as u32),
    };
    crate::cpu::arm::transfer_laws::lemma_low_block::<M>(
        cpu,
        s,
        l as u32,
        rb as u32,
        list as u32,
        b,
    );
}

} // verus!
