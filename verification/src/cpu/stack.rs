//! What is pushed on a stack in plain storage comes back when it is popped.

use vstd::prelude::*;

use crate::cpu::arm::field;
use crate::cpu::arm::mem::{block_of, list_size, listed, slot, Block};
use crate::cpu::registers::RegistersView;
use crate::cpu::thumb::mem::{low_block, low_list, low_span};
use crate::cpu::CpuView;
use crate::memory::plain::plain;
use crate::memory::Memory;

verus! {

/// A list has at most as many registers as it may name, and no fewer than
/// before.
proof fn lemma_list_size(list: u32, a: int, b: int)
    requires
        0 <= a <= b,
    ensures
        0 <= list_size(list, a) <= list_size(list, b) <= list_size(list, a) + (b - a),
        list_size(list, a) <= a,
        a < b && listed(list, a) ==> list_size(list, a) < list_size(list, b),
    decreases b,
{
    if a < b {
        lemma_list_size(list, a, b - 1);
        if a == b - 1 {
            lemma_list_size(list, a, a);
        }
    } else if a > 0 {
        lemma_list_size(list, a - 1, b - 1);
    }
}

/// Different registers of a block have different slots.
proof fn lemma_slots_differ(b: Block, i: int, j: int)
    requires
        0 <= i < j < 16,
        listed(b.list, i),
    ensures
        slot(b, i) != slot(b, j),
{
    lemma_list_size(b.list, i, j);
    lemma_list_size(b.list, j, 16);
}

/// Whether the slots of the registers of `b` lie in `area`.
pub open spec fn slots_in(b: Block, area: spec_fn(u32) -> bool) -> bool {
    forall|reg: int| 0 <= reg < 16 && listed(b.list, reg) ==> area(#[trigger] slot(b, reg))
}

/// Storing registers keeps the words at addresses that are none of their
/// slots.
proof fn lemma_stores_elsewhere<M: Memory>(
    ok: spec_fn(M::State) -> bool,
    area: spec_fn(u32) -> bool,
    cpu: CpuView,
    s: M::State,
    b: Block,
    writeback: bool,
    upto: int,
    at: u32,
)
    requires
        plain::<M>(ok, area),
        ok(s),
        slots_in(b, area),
        0 <= upto <= 16,
        area(at),
        forall|reg: int| 0 <= reg < upto && listed(b.list, reg) ==> #[trigger] slot(b, reg) != at,
    ensures
        ok(cpu.block_stores::<M>(s, b, writeback, upto)),
        M::value32(cpu.block_stores::<M>(s, b, writeback, upto), at) == M::value32(s, at),
    decreases upto,
{
    if upto > 0 {
        lemma_stores_elsewhere::<M>(ok, area, cpu, s, b, writeback, upto - 1, at);
        if listed(b.list, upto - 1) {
            assert(area(slot(b, upto - 1)));
        }
    }
}

/// Storing registers keeps a state `ok`.
proof fn lemma_stores_ok<M: Memory>(
    ok: spec_fn(M::State) -> bool,
    area: spec_fn(u32) -> bool,
    cpu: CpuView,
    s: M::State,
    b: Block,
    writeback: bool,
    upto: int,
)
    requires
        plain::<M>(ok, area),
        ok(s),
        slots_in(b, area),
        0 <= upto <= 16,
    ensures
        ok(cpu.block_stores::<M>(s, b, writeback, upto)),
    decreases upto,
{
    if upto > 0 {
        lemma_stores_ok::<M>(ok, area, cpu, s, b, writeback, upto - 1);
        if listed(b.list, upto - 1) {
            assert(area(slot(b, upto - 1)));
        }
    }
}

/// A block store puts the word of each register into its slot, ascending
/// from the lowest address.
pub proof fn law_block_store<M: Memory>(
    ok: spec_fn(M::State) -> bool,
    area: spec_fn(u32) -> bool,
    cpu: CpuView,
    s: M::State,
    b: Block,
    writeback: bool,
    upto: int,
    reg: int,
)
    requires
        plain::<M>(ok, area),
        ok(s),
        slots_in(b, area),
        0 <= reg < upto <= 16,
        listed(b.list, reg),
    ensures
        M::value32(cpu.block_stores::<M>(s, b, writeback, upto), slot(b, reg))
            == cpu.block_stored_word(b, writeback, reg),
    decreases upto,
{
    let before = cpu.block_stores::<M>(s, b, writeback, upto - 1);
    lemma_stores_ok::<M>(ok, area, cpu, s, b, writeback, upto - 1);
    assert(area(slot(b, reg)));
    if reg < upto - 1 {
        law_block_store::<M>(ok, area, cpu, s, b, writeback, upto - 1, reg);
        lemma_slots_differ(b, reg, upto - 1);
        if listed(b.list, upto - 1) {
            assert(area(slot(b, upto - 1)));
        }
    }
}

/// A block load of registers other than r15, not of the User bank, puts the
/// word in each register's slot into it, and changes nothing else.
pub proof fn law_block_load<M: Memory>(
    ok: spec_fn(M::State) -> bool,
    area: spec_fn(u32) -> bool,
    cpu: CpuView,
    s: M::State,
    b: Block,
    upto: int,
)
    requires
        plain::<M>(ok, area),
        ok(s),
        slots_in(b, area),
        !b.user,
        !listed(b.list, 15),
        cpu.regs.gpr.len() == 16,
        0 <= upto <= 16,
    ensures
        ({
            let (loaded, mem) = cpu.block_loads::<M>(s, b, upto);
            &&& ok(mem)
            &&& forall|at: u32| area(at) ==> #[trigger] M::value32(mem, at) == M::value32(s, at)
            &&& loaded == (CpuView {
                regs: RegistersView { gpr: loaded.regs.gpr, ..cpu.regs },
                ..cpu
            })
            &&& loaded.regs.gpr.len() == 16
            &&& forall|reg: int|
                0 <= reg < 16 ==> #[trigger] loaded.regs.gpr[reg] == if reg < upto && listed(
                    b.list,
                    reg,
                ) {
                    M::value32(s, slot(b, reg))
                } else {
                    cpu.regs.gpr[reg]
                }
        }),
    decreases upto,
{
    if upto > 0 {
        law_block_load::<M>(ok, area, cpu, s, b, upto - 1);
        if listed(b.list, upto - 1) {
            assert(area(slot(b, upto - 1)));
        }
    }
}

/// Whether `b` is `a` but for the general registers in `list`.
pub open spec fn differ_in_list(a: CpuView, b: CpuView, list: u32) -> bool {
    &&& b == (CpuView { regs: RegistersView { gpr: b.regs.gpr, ..a.regs }, ..a })
    &&& b.regs.gpr.len() == 16
    &&& forall|reg: int|
        0 <= reg < 16 && !listed(list, reg) ==> #[trigger] b.regs.gpr[reg] == a.regs.gpr[reg]
}

/// `STMDB rn!, {list}`.
pub open spec fn stmdb(rn: u32, list: u32) -> u32 {
    0xE920_0000 | (rn << 16) | list
}

/// `LDMIA rn!, {list}`.
pub open spec fn ldmia(rn: u32, list: u32) -> u32 {
    0xE8B0_0000 | (rn << 16) | list
}

/// The fields of the two instructions.
proof fn lemma_stack_encodings(rn: u32, list: u32, base: u32)
    by (bit_vector)
    requires
        rn < 15,
        list < 0x8000,
        base % 4 == 0,
    ensures
        (0xE920_0000 | (rn << 16) | list) & (1u32 << 20) == 0,
        (0xE920_0000 | (rn << 16) | list) & (1u32 << 21) != 0,
        (0xE920_0000 | (rn << 16) | list) & (1u32 << 22) == 0,
        (0xE920_0000 | (rn << 16) | list) & (1u32 << 23) == 0,
        (0xE920_0000 | (rn << 16) | list) & (1u32 << 24) != 0,
        (0xE920_0000 | (rn << 16) | list) & 0xFFFF == list,
        ((0xE920_0000 | (rn << 16) | list) >> 16) & 0xF == rn,
        (0xE8B0_0000 | (rn << 16) | list) & (1u32 << 20) != 0,
        (0xE8B0_0000 | (rn << 16) | list) & (1u32 << 21) != 0,
        (0xE8B0_0000 | (rn << 16) | list) & (1u32 << 22) == 0,
        (0xE8B0_0000 | (rn << 16) | list) & (1u32 << 23) != 0,
        (0xE8B0_0000 | (rn << 16) | list) & (1u32 << 24) == 0,
        (0xE8B0_0000 | (rn << 16) | list) & 0xFFFF == list,
        ((0xE8B0_0000 | (rn << 16) | list) >> 16) & 0xF == rn,
        (list >> 15) & 1 == 0,
        base & !3u32 == base,
{
}

/// Pushing registers with `STMDB rn!` and popping them with `LDMIA rn!`:
/// the store moves the base down by a word for each register, changes nothing
/// else of the processor, and leaves the lowest register lowest; and whatever
/// the listed registers come to hold in between, the load brings the processor
/// back to what it was.
pub proof fn law_stm_ldm_round_trip<M: Memory>(
    ok: spec_fn(M::State) -> bool,
    area: spec_fn(u32) -> bool,
    cpu: CpuView,
    s: M::State,
    rn: u32,
    list: u32,
    between: CpuView,
    t: M::State,
)
    requires
        plain::<M>(ok, area),
        ok(s),
        ok(t),
        cpu.regs.wf(),
        rn < 15,
        0 < list < 0x8000,
        !listed(list, rn as int),
        cpu.regs.gpr[rn as int] % 4 == 0,
        slots_in(block_of(stmdb(rn, list), cpu.regs.gpr[rn as int]), area),
        differ_in_list(cpu.arm_block_transfer::<M>(s, stmdb(rn, list)).0, between, list),
        forall|at: u32|
            area(at) ==> #[trigger] M::value32(t, at) == M::value32(
                cpu.arm_block_transfer::<M>(s, stmdb(rn, list)).1,
                at,
            ),
    ensures
        ({
            let (stored, mem, _) = cpu.arm_block_transfer::<M>(s, stmdb(rn, list));
            let bottom = cpu.regs.gpr[rn as int].wrapping_sub((4 * list_size(list, 16)) as u32);
            &&& stored == cpu.set(rn as int, bottom)
            &&& forall|reg: int|
                0 <= reg < 16 && #[trigger] listed(list, reg) ==> M::value32(
                    mem,
                    bottom.wrapping_add((4 * list_size(list, reg)) as u32),
                ) == cpu.regs.gpr[reg]
            &&& between.arm_block_transfer::<M>(t, ldmia(rn, list)).0 == cpu
        }),
{
    let base = cpu.regs.gpr[rn as int];
    lemma_stack_encodings(rn, list, base);
    lemma_list_size(list, 0, 16);
    let b = block_of(stmdb(rn, list), base);
    let (stored, mem, _) = cpu.arm_block_transfer::<M>(s, stmdb(rn, list));
    let bottom = base.wrapping_sub((4 * list_size(list, 16)) as u32);
    assert(b.list == list && b.start == bottom && b.last == bottom && b.rn == rn);
    assert forall|reg: int| 0 <= reg < 16 && listed(list, reg) implies M::value32(
        mem,
        slot(b, reg),
    ) == cpu.regs.gpr[reg] by {
        law_block_store::<M>(ok, area, cpu, s, b, true, 16, reg);
    }
    assert(bottom & !3u32 == bottom) by {
        assert(bottom % 4 == 0);
        lemma_stack_encodings(rn, list, bottom);
    }
    let c = block_of(ldmia(rn, list), between.regs.gpr[rn as int]);
    assert(between.regs.gpr[rn as int] == bottom);
    assert(c.list == list && c.start == bottom && c.last == base);
    assert forall|reg: int| 0 <= reg < 16 implies #[trigger] slot(c, reg) == slot(b, reg) by {}
    law_block_load::<M>(ok, area, between, t, c, 16);
    let loaded = between.arm_block_transfer::<M>(t, ldmia(rn, list)).0;
    assert forall|reg: int| 0 <= reg < 16 implies loaded.regs.gpr[reg] == cpu.regs.gpr[reg] by {
        if listed(list, reg) {
            assert(slot(c, reg) == slot(b, reg));
            assert(area(slot(b, reg)));
        }
    }
    assert(loaded.regs.gpr =~= cpu.regs.gpr);
}

/// `PUSH {list}`, with the link register if `linked`.
pub open spec fn push(list: u16, linked: bool) -> u16 {
    if linked {
        0xB500 | list
    } else {
        0xB400 | list
    }
}

/// `POP {list}`, with the program counter if `linked`.
pub open spec fn pop(list: u16, linked: bool) -> u16 {
    if linked {
        0xBD00 | list
    } else {
        0xBC00 | list
    }
}

/// The fields of the two instructions.
proof fn lemma_push_encodings(list: u16, wide: u32, reg: u32)
    by (bit_vector)
    requires
        list < 0x100,
        wide == list as u32,
        8 <= reg,
        reg < 32,
    ensures
        (0xB500 | list) & (1u16 << 8) != 0,
        (0xB500 | list) & (1u16 << 11) == 0,
        (0xB500 | list) & 0xFF == list,
        (0xB400 | list) & (1u16 << 8) == 0,
        (0xB400 | list) & (1u16 << 11) == 0,
        (0xB400 | list) & 0xFF == list,
        (0xBD00 | list) & (1u16 << 8) != 0,
        (0xBD00 | list) & (1u16 << 11) != 0,
        (0xBD00 | list) & 0xFF == list,
        (0xBC00 | list) & (1u16 << 8) == 0,
        (0xBC00 | list) & (1u16 << 11) != 0,
        (0xBC00 | list) & 0xFF == list,
        (wide >> reg) & 1 == 0,
{
}

/// No register above r7 is in a list of eight.
proof fn lemma_low_list(list: u16, upto: int)
    requires
        list < 0x100,
        8 <= upto <= 16,
    ensures
        list_size(list as u32, upto) == list_size(list as u32, 8),
        forall|reg: int| 8 <= reg < 16 ==> !(#[trigger] listed(list as u32, reg)),
    decreases upto,
{
    assert forall|reg: int| 8 <= reg < 16 implies !(#[trigger] listed(list as u32, reg)) by {
        lemma_push_encodings(list, list as u32, reg as u32);
    }
    if upto > 8 {
        lemma_low_list(list, upto - 1);
    }
}

/// What is left of a processor after `POP`: what it was before the `PUSH`, but
/// for a return to where the link register pointed, which stays in THUMB state
/// whatever its lowest bit.
pub open spec fn returned(cpu: CpuView, linked: bool) -> CpuView {
    if linked {
        CpuView { flushed: true, ..cpu.set(15, cpu.regs.gpr[14] & !1u32) }
    } else {
        cpu
    }
}

/// How many words `PUSH` stores.
pub open spec fn pushed_words(list: u16, linked: bool) -> int {
    list_size(list as u32, 8) + if linked {
        1int
    } else {
        0
    }
}

/// Where the stack pointer is after `PUSH`.
pub open spec fn pushed_to(cpu: CpuView, list: u16, linked: bool) -> u32 {
    cpu.regs.gpr[13].wrapping_sub((4 * pushed_words(list, linked)) as u32)
}

/// `PUSH` and `POP` in THUMB state: the push moves the stack pointer down and
/// changes nothing else of the processor; and whatever the listed registers
/// come to hold in between, the pop brings the processor back to what it was,
/// or returns to where the link register pointed.
pub proof fn law_push_pop_round_trip<M: Memory>(
    ok: spec_fn(M::State) -> bool,
    area: spec_fn(u32) -> bool,
    cpu: CpuView,
    s: M::State,
    list: u16,
    linked: bool,
    between: CpuView,
    t: M::State,
)
    requires
        plain::<M>(ok, area),
        ok(s),
        ok(t),
        cpu.regs.wf(),
        cpu.thumb(),
        list < 0x100,
        forall|i: int|
            0 <= i < pushed_words(list, linked) ==> area(
                #[trigger] pushed_to(cpu, list, linked).wrapping_add((4 * i) as u32),
            ),
        differ_in_list(
            cpu.thumb_push_pop::<M>(s, push(list, linked)).0,
            between,
            list as u32,
        ),
        forall|at: u32|
            area(at) ==> #[trigger] M::value32(t, at) == M::value32(
                cpu.thumb_push_pop::<M>(s, push(list, linked)).1,
                at,
            ),
    ensures
        cpu.thumb_push_pop::<M>(s, push(list, linked)).0 == cpu.set(
            13,
            pushed_to(cpu, list, linked),
        ),
        between.thumb_push_pop::<M>(t, pop(list, linked)).0 == returned(cpu, linked),
{
    let wide = list as u32;
    let bottom = pushed_to(cpu, list, linked);
    lemma_push_encodings(list, wide, 8);
    lemma_low_list(list, 16);
    lemma_list_size(wide, 0, 8);
    let down = push(list, linked);
    let up = pop(list, linked);
    assert(low_list(down) == wide && low_list(up) == wide);
    let span = low_span(down);
    assert(low_span(up) == span);
    let pushed = cpu.set(13, bottom);
    let b = low_block(down, false, 13, bottom, bottom);
    let (stored, mem, _) = cpu.thumb_push_pop::<M>(s, down);
    assert(stored == pushed);
    assert forall|reg: int| 0 <= reg < 16 && listed(b.list, reg) implies area(
        #[trigger] slot(b, reg),
    ) by {
        lemma_list_size(wide, reg, 8);
        assert(area(bottom.wrapping_add((4 * list_size(wide, reg)) as u32)));
    }
    let saved = pushed.block_stores::<M>(s, b, false, 8);
    lemma_stores_ok::<M>(ok, area, pushed, s, b, false, 8);
    let past = bottom.wrapping_add(span);
    assert(linked ==> area(past)) by {
        if linked {
            assert(area(bottom.wrapping_add((4 * list_size(wide, 8)) as u32)));
        }
    }
    assert forall|reg: int| 0 <= reg < 16 && listed(wide, reg) implies M::value32(
        mem,
        slot(b, reg),
    ) == cpu.regs.gpr[reg] by {
        law_block_store::<M>(ok, area, pushed, s, b, false, 8, reg);
        lemma_list_size(wide, reg, 8);
        assert(area(slot(b, reg)));
        assert(slot(b, reg) != past);
    }
    assert(linked ==> M::value32(mem, past) == cpu.regs.gpr[14]);
    assert(between.regs.gpr[13] == bottom);
    let c = low_block(up, true, 13, bottom, past);
    assert forall|reg: int| 0 <= reg < 16 implies #[trigger] slot(c, reg) == slot(b, reg) by {}
    assert(!listed(wide, 15) && !listed(wide, 13) && !listed(wide, 14));
    law_block_load::<M>(ok, area, between, t, c, 8);
    let popped = between.block_loads::<M>(t, c, 8).0;
    assert forall|reg: int| 0 <= reg < 16 && reg != 13 implies popped.regs.gpr[reg]
        == cpu.regs.gpr[reg] by {
        if listed(wide, reg) {
            assert(slot(c, reg) == slot(b, reg));
            assert(area(slot(b, reg)));
        }
    }
    let done = between.thumb_push_pop::<M>(t, up).0;
    assert(done.regs.gpr =~= returned(cpu, linked).regs.gpr);
}

} // verus!
