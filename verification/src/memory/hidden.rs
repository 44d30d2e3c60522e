//! Changes to memory that those who use it cannot see.

use vstd::prelude::*;

use crate::memory::dma::{DmaView, Transfer};
use crate::memory::Memory;

verus! {

/// Whether a change `h` of a memory's state is hidden: no read shows it, and
/// it makes no difference whether it comes before an access or after.
pub open spec fn hidden<M: Memory>(h: spec_fn(M::State) -> M::State) -> bool {
    &&& forall|s: M::State, a: u32| #[trigger] M::value8(h(s), a) == M::value8(s, a)
    &&& forall|s: M::State, a: u32| #[trigger] M::value16(h(s), a) == M::value16(s, a)
    &&& forall|s: M::State, a: u32| #[trigger] M::value32(h(s), a) == M::value32(s, a)
    &&& forall|s: M::State, a: u32| #[trigger] M::loaded8(h(s), a) == h(M::loaded8(s, a))
    &&& forall|s: M::State, a: u32| #[trigger] M::loaded16(h(s), a) == h(M::loaded16(s, a))
    &&& forall|s: M::State, a: u32| #[trigger] M::loaded32(h(s), a) == h(M::loaded32(s, a))
    &&& forall|s: M::State, a: u32, v: u8|
        #[trigger] M::stored8(h(s), a, v) == h(M::stored8(s, a, v))
    &&& forall|s: M::State, a: u32, v: u16|
        #[trigger] M::stored16(h(s), a, v) == h(M::stored16(s, a, v))
    &&& forall|s: M::State, a: u32, v: u32|
        #[trigger] M::stored32(h(s), a, v) == h(M::stored32(s, a, v))
    &&& forall|s: M::State| #[trigger] M::elapsed(h(s)) == M::elapsed(s)
    &&& forall|s: M::State| #[trigger] M::settled(h(s)) == h(M::settled(s))
    &&& forall|s: M::State, n: u32| #[trigger] M::idled(h(s), n) == h(M::idled(s, n))
}

/// A DMA transfer does not see a hidden change.
proof fn lemma_transfer<M: Memory>(
    h: spec_fn(M::State) -> M::State,
    t: Transfer,
    s: M::State,
    count: int,
)
    requires
        hidden::<M>(h),
    ensures
        t.run::<M>(h(s), count) == h(t.run::<M>(s, count)),
    decreases count,
{
    if count > 0 {
        lemma_transfer::<M>(h, t, s, count - 1);
    }
}

/// A DMA channel does not see a hidden change.
pub(crate) proof fn lemma_channel<M: Memory>(
    h: spec_fn(M::State) -> M::State,
    dma: DmaView,
    n: int,
    s: M::State,
)
    requires
        hidden::<M>(h),
    ensures
        dma.ran_memory::<M>(n, h(s)) == h(dma.ran_memory::<M>(n, s)),
{
    let ch = dma.channels[n];
    lemma_transfer::<M>(h, ch.transfer(), s, ch.transfer_units(n) as int);
}

} // verus!
