//! The two "direct sound" FIFOs: 32-byte queues of signed 8-bit samples
//! that a timer overflow advances and a DMA channel keeps topped up.

use vstd::prelude::*;

verus! {

/// Bytes the FIFO holds.
pub const CAPACITY: usize = 32;

/// A FIFO at or below this fill level asks its DMA channel for more data
/// (one transfer brings 16 bytes).
pub const REFILL_THRESHOLD: usize = 16;

/// One direct-sound FIFO, as a ring.
#[derive(Debug, Clone, Copy)]
pub struct Fifo {
    /// The ring.
    pub buffer: [u8; 32],
    /// Where the oldest byte lies.
    pub read: usize,
    /// Bytes queued.
    pub len: usize,
    /// The sample most recently taken out, which is what the mixer hears
    /// until the next timer overflow.
    pub sample: i8,
}

/// A FIFO as a queue, oldest byte first, and the sample it puts out.
#[verifier::ext_equal]
pub struct FifoView {
    /// The bytes waiting, oldest first.
    pub queue: Seq<u8>,
    /// The current output.
    pub sample: i8,
}

impl FifoView {
    /// An empty, silent FIFO.
    pub open spec fn empty() -> FifoView {
        FifoView { queue: Seq::empty(), sample: 0 }
    }

    /// The FIFO after queueing `bytes`, as far as they fit.
    pub open spec fn push(self, bytes: Seq<u8>) -> FifoView {
        let room = CAPACITY - self.queue.len();
        let accepted = if bytes.len() <= room {
            bytes
        } else {
            bytes.take(room)
        };
        FifoView { queue: self.queue + accepted, ..self }
    }

    /// The FIFO after its timer overflows: an empty one repeats its sample.
    pub open spec fn pop(self) -> FifoView {
        if self.queue.len() > 0 {
            FifoView { queue: self.queue.drop_first(), sample: self.queue[0] as i8 }
        } else {
            self
        }
    }

    /// The FIFO after its timer overflows `count` times.
    pub open spec fn pops(self, count: nat) -> FifoView
        decreases count,
    {
        if count == 0 {
            self
        } else {
            self.pops((count - 1) as nat).pop()
        }
    }

    /// Whether the queue is low enough for a DMA refill.
    pub open spec fn wants_refill(self) -> bool {
        self.queue.len() <= REFILL_THRESHOLD
    }
}

impl View for Fifo {
    type V = FifoView;

    open spec fn view(&self) -> FifoView {
        FifoView {
            queue: Seq::new(
                self.len as nat,
                |i: int| self.buffer@[(self.read + i) % 32],
            ),
            sample: self.sample,
        }
    }
}

impl Default for Fifo {
    fn default() -> (fifo: Self)
        ensures
            fifo.wf(),
            fifo@ == FifoView::empty(),
    {
        Self::new()
    }
}

impl Fifo {
    /// The ring positions are in range.
    pub open spec fn wf(&self) -> bool {
        self.read < CAPACITY && self.len <= CAPACITY
    }

    /// An empty FIFO.
    #[must_use]
    pub fn new() -> (fifo: Self)
        ensures
            fifo.wf(),
            fifo@ == FifoView::empty(),
    {
        let fifo = Self { buffer: [0; 32], read: 0, len: 0, sample: 0 };
        assert(fifo@.queue =~= Seq::<u8>::empty());
        fifo
    }

    /// Queues `bytes` in order. Data that does not fit is dropped.
    pub fn push(&mut self, bytes: &[u8])
        requires
            old(self).wf(),
        ensures
            final(self).wf(),
            final(self)@ == old(self)@.push(bytes@),
    {
        let ghost before = self@;
        let mut i: usize = 0;
        while i < bytes.len() && self.len < CAPACITY
            invariant
                self.wf(),
                i <= bytes@.len(),
                before.queue.len() + i == self.len,
                self@.queue =~= before.queue + bytes@.take(i as int),
                self@.sample == before.sample,
            decreases bytes@.len() - i,
        {
            let ghost previous = *self;
            let at: usize = (self.read + self.len) % CAPACITY;
            self.buffer[at] = bytes[i];
            self.len = self.len + 1;
            proof {
                assert forall|k: int| 0 <= k < previous.len implies self@.queue[k]
                    == previous@.queue[k] by {
                    assert((self.read + k) % 32 != at as int) by (nonlinear_arith)
                        requires
                            at == (self.read + previous.len) % 32,
                            0 <= k < previous.len,
                            previous.len < 32,
                            0 <= self.read < 32,
                    ;
                }
                assert(bytes@.take(i + 1) =~= bytes@.take(i as int).push(bytes@[i as int]));
                assert(self@.queue =~= previous@.queue.push(bytes@[i as int]));
            }
            i = i + 1;
        }
        proof {
            if i == bytes@.len() {
                assert(bytes@.take(i as int) =~= bytes@);
            }
            assert(self@.queue =~= before.push(bytes@).queue);
        }
    }

    /// Empties the queue and silences the output (`SOUNDCNT_H` reset bit).
    pub fn reset(&mut self)
        ensures
            final(self).wf(),
            final(self)@ == FifoView::empty(),
    {
        self.read = 0;
        self.len = 0;
        self.sample = 0;
        assert(self@.queue =~= Seq::<u8>::empty());
    }

    /// Takes the next sample, on a timer overflow. An empty FIFO keeps
    /// repeating its last sample. Returns `true` when the queue has run
    /// low enough for a DMA refill.
    pub fn pop(&mut self) -> (refill: bool)
        requires
            old(self).wf(),
        ensures
            final(self).wf(),
            final(self)@ == old(self)@.pop(),
            refill == final(self)@.wants_refill(),
    {
        if self.len > 0 {
            self.sample = self.buffer[self.read] as i8;
            self.read = (self.read + 1) % CAPACITY;
            self.len = self.len - 1;
            proof {
                assert(self@.queue =~= old(self)@.queue.drop_first());
            }
        }
        self.len <= REFILL_THRESHOLD
    }

    /// The current output sample.
    #[must_use]
    pub fn sample(&self) -> (sample: i8)
        ensures
            sample == self@.sample,
    {
        self.sample
    }

    /// Bytes queued.
    #[must_use]
    pub fn len(&self) -> (len: usize)
        ensures
            len == self@.queue.len(),
    {
        self.len
    }

    /// Whether nothing is queued.
    #[must_use]
    pub fn is_empty(&self) -> (empty: bool)
        ensures
            empty == (self@.queue.len() == 0),
    {
        self.len == 0
    }
}

/// Samples come out in the order they went in, and the last one sticks.
pub proof fn law_samples_come_out_in_order(fifo: FifoView, count: nat)
    requires
        fifo.queue.len() > 0,
        count > 0,
    ensures
        ({
            let n = if count < fifo.queue.len() {
                count
            } else {
                fifo.queue.len()
            };
            &&& fifo.pops(count).sample == fifo.queue[n - 1] as i8
            &&& fifo.pops(count).queue == fifo.queue.skip(n as int)
        }),
    decreases count,
{
    let len = fifo.queue.len();
    if count == 1 {
        reveal_with_fuel(FifoView::pops, 2);
        assert(fifo.queue.drop_first() =~= fifo.queue.skip(1));
    } else {
        law_samples_come_out_in_order(fifo, (count - 1) as nat);
        let before = fifo.pops((count - 1) as nat);
        if count <= len {
            assert(before.queue.drop_first() =~= fifo.queue.skip(count as int));
        } else {
            assert(before.queue.len() == 0);
        }
    }
}

} // verus!
