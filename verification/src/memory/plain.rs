//! Plain storage: memory that gives back what was written to it.

use vstd::prelude::*;

use crate::bytes::{law_word_round_trip, with_word, word_at};
use crate::memory::bus::BusView;
use crate::memory::laws::sized;
use crate::memory::{Bus, Memory, EWRAM_SIZE, IWRAM_SIZE};

verus! {

/// Whether the words of `area` are plain storage in every state that is `ok`:
/// what is stored at one of them is read back there, and neither storing it
/// nor reading changes the others.
pub open spec fn plain<M: Memory>(
    ok: spec_fn(M::State) -> bool,
    area: spec_fn(u32) -> bool,
) -> bool {
    &&& forall|s: M::State, a: u32, v: u32|
        ok(s) && area(a) ==> ok(#[trigger] M::stored32(s, a, v))
    &&& forall|s: M::State, a: u32, v: u32|
        ok(s) && area(a) ==> M::value32(#[trigger] M::stored32(s, a, v), a) == v
    &&& forall|s: M::State, a: u32, v: u32, b: u32|
        ok(s) && area(a) && area(b) && a != b ==> #[trigger] M::value32(
            M::stored32(s, a, v),
            b,
        ) == M::value32(s, b)
    &&& forall|s: M::State, a: u32| ok(s) && area(a) ==> ok(#[trigger] M::loaded32(s, a))
    &&& forall|s: M::State, a: u32, b: u32|
        ok(s) && area(a) && area(b) ==> #[trigger] M::value32(M::loaded32(s, a), b)
            == M::value32(s, b)
}

/// Whether `address` is a word of work memory, leaving mirrors aside.
pub open spec fn work_word(address: u32) -> bool {
    address % 4 == 0 && (0x0200_0000 <= address < 0x0200_0000 + EWRAM_SIZE || 0x0300_0000
        <= address < 0x0300_0000 + IWRAM_SIZE)
}

/// Where the words of work memory lie.
proof fn lemma_work_word(a: u32)
    requires
        a % 4 == 0,
        (0x0200_0000 <= a && a < 0x0204_0000) || (0x0300_0000 <= a && a < 0x0300_8000),
    ensures
        a & !3u32 == a,
        a < 0x0300_0000 ==> a >> 24 == 2 && (a & 0x00FF_FFFF) & 0x3_FFFF == a - 0x0200_0000,
        a >= 0x0300_0000 ==> a >> 24 == 3 && (a & 0x00FF_FFFF) & 0x7FFF == a - 0x0300_0000,
{
    crate::bits::word_facts(a, 0, 0, 0);
}

/// A word that was stored leaves the other words alone.
proof fn lemma_other_word(m: Seq<u8>, i: int, j: int, value: u32)
    requires
        0 <= i,
        i + 4 <= m.len(),
        0 <= j,
        j + 4 <= m.len(),
        i + 4 <= j || j + 4 <= i,
    ensures
        word_at(with_word(m, i, value), j) == word_at(m, j),
{
    law_word_round_trip(m, i, value);
}

/// The work memory of the bus is plain storage.
pub proof fn law_work_memory_is_plain()
    ensures
        plain::<Bus>(|s: BusView| sized(s), |a: u32| work_word(a)),
{
    reveal(BusView::put32);
    reveal(BusView::value32_at);
    reveal(BusView::loaded);
    reveal(BusView::accounted);
    let ok = |s: BusView| sized(s);
    let area = |a: u32| work_word(a);
    assert forall|s: BusView, a: u32, v: u32| ok(s) && area(a) implies ok(
        #[trigger] Bus::stored32(s, a, v),
    ) && Bus::value32(Bus::stored32(s, a, v), a) == v by {
        lemma_work_word(a);
        if a < 0x0300_0000 {
            law_word_round_trip(s.ewram, a - 0x0200_0000, v);
        } else {
            law_word_round_trip(s.iwram, a - 0x0300_0000, v);
        }
    }
    assert forall|s: BusView, a: u32, v: u32, b: u32|
        ok(s) && area(a) && area(b) && a != b implies #[trigger] Bus::value32(
        Bus::stored32(s, a, v),
        b,
    ) == Bus::value32(s, b) by {
        lemma_work_word(a);
        lemma_work_word(b);
        if a < 0x0300_0000 && b < 0x0300_0000 {
            lemma_other_word(s.ewram, a - 0x0200_0000, b - 0x0200_0000, v);
        } else if a >= 0x0300_0000 && b >= 0x0300_0000 {
            lemma_other_word(s.iwram, a - 0x0300_0000, b - 0x0300_0000, v);
        }
    }
    assert forall|s: BusView, a: u32, b: u32| ok(s) && area(a) && area(b) implies ok(
        Bus::loaded32(s, a),
    ) && #[trigger] Bus::value32(Bus::loaded32(s, a), b) == Bus::value32(s, b) by {
        lemma_work_word(a);
        lemma_work_word(b);
    }
    assert forall|s: BusView, a: u32| ok(s) && area(a) implies ok(
        #[trigger] Bus::loaded32(s, a),
    ) by {
        lemma_work_word(a);
    }
}

} // verus!
