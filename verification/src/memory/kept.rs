//! Parts of memory that no access changes.

use vstd::prelude::*;

use crate::memory::dma::{DmaView, Transfer};
use crate::memory::Memory;

verus! {

/// Whether the part of a memory's state that `f` looks at is kept by every
/// access.
pub open spec fn kept<M: Memory, A>(f: spec_fn(M::State) -> A) -> bool {
    &&& forall|s: M::State, a: u32| f(#[trigger] M::loaded8(s, a)) == f(s)
    &&& forall|s: M::State, a: u32| f(#[trigger] M::loaded16(s, a)) == f(s)
    &&& forall|s: M::State, a: u32| f(#[trigger] M::loaded32(s, a)) == f(s)
    &&& forall|s: M::State, a: u32, v: u8| f(#[trigger] M::stored8(s, a, v)) == f(s)
    &&& forall|s: M::State, a: u32, v: u16| f(#[trigger] M::stored16(s, a, v)) == f(s)
    &&& forall|s: M::State, a: u32, v: u32| f(#[trigger] M::stored32(s, a, v)) == f(s)
    &&& forall|s: M::State| f(#[trigger] M::settled(s)) == f(s)
    &&& forall|s: M::State, n: u32| f(#[trigger] M::idled(s, n)) == f(s)
}

proof fn lemma_transfer<M: Memory, A>(
    f: spec_fn(M::State) -> A,
    t: Transfer,
    s: M::State,
    count: int,
)
    requires
        kept::<M, A>(f),
    ensures
        f(t.run::<M>(s, count)) == f(s),
    decreases count,
{
    if count > 0 {
        lemma_transfer::<M, A>(f, t, s, count - 1);
    }
}

/// A DMA channel keeps what every access keeps.
pub(crate) proof fn lemma_channel<M: Memory, A>(
    f: spec_fn(M::State) -> A,
    dma: DmaView,
    n: int,
    s: M::State,
)
    requires
        kept::<M, A>(f),
    ensures
        f(dma.ran_memory::<M>(n, s)) == f(s),
{
    let ch = dma.channels[n];
    lemma_transfer::<M, A>(f, ch.transfer(), s, ch.transfer_units(n) as int);
}

} // verus!
