use tuiba_core::apu::reg::FIFO_A;
use tuiba_core::memory::{Memory, base};
use tuiba_core::memory::dma::{Dma, Timing, run};
use tuiba_core::memory::interrupt::Interrupt;

/// Flat 64 KiB RAM for CPU tests; addresses wrap.
struct Ram {
    bytes: Vec<u8>,
    accesses: u32,
}

#[allow(dead_code)]
impl Ram {
    fn new() -> Self {
        Self {
            bytes: vec![0; 0x1_0000],
            accesses: 0,
        }
    }

    fn byte(&self, address: u32) -> u8 {
        self.bytes[self.idx(address)]
    }

    fn set_byte(&mut self, address: u32, value: u8) {
        let i = self.idx(address);
        self.bytes[i] = value;
    }

    /// Assembles pre-encoded ARM words at `base`.
    fn load_arm(&mut self, base: u32, words: &[u32]) {
        for (i, w) in words.iter().enumerate() {
            self.write32(base + 4 * i as u32, *w);
        }
    }

    /// Assembles pre-encoded THUMB halfwords at `base`.
    fn load_thumb(&mut self, base: u32, halves: &[u16]) {
        for (i, h) in halves.iter().enumerate() {
            self.write16(base + 2 * i as u32, *h);
        }
    }

    fn idx(&self, address: u32) -> usize {
        address as usize % self.bytes.len()
    }
}

/// Every access costs one cycle, so instruction timings in tests
/// read as plain S/N/I counts.
impl Memory for Ram {
    type State = ();

    // What the contracts speak of; never called.
    fn wf(&self) -> bool {
        true
    }
    fn state(&self) {}
    fn value8(_: (), _: u32) -> u8 {
        0
    }
    fn value16(_: (), _: u32) -> u16 {
        0
    }
    fn value32(_: (), _: u32) -> u32 {
        0
    }
    fn loaded8(_: (), _: u32) {}
    fn loaded16(_: (), _: u32) {}
    fn loaded32(_: (), _: u32) {}
    fn stored8(_: (), _: u32, _: u8) {}
    fn stored16(_: (), _: u32, _: u16) {}
    fn stored32(_: (), _: u32, _: u32) {}
    fn elapsed(_: ()) -> u32 {
        0
    }
    fn settled(_: ()) {}
    fn idled(_: (), _: u32) {}

    fn read8(&mut self, a: u32) -> u8 {
        self.accesses += 1;
        self.byte(a)
    }
    fn read16(&mut self, a: u32) -> u16 {
        self.accesses += 1;
        u16::from_le_bytes([self.byte(a), self.byte(a + 1)])
    }
    fn read32(&mut self, a: u32) -> u32 {
        self.accesses += 1;
        u32::from_le_bytes([
            self.byte(a),
            self.byte(a + 1),
            self.byte(a + 2),
            self.byte(a + 3),
        ])
    }
    fn write8(&mut self, a: u32, v: u8) {
        self.accesses += 1;
        self.set_byte(a, v);
    }
    fn write16(&mut self, a: u32, v: u16) {
        self.accesses += 1;
        for (i, b) in v.to_le_bytes().into_iter().enumerate() {
            self.set_byte(a + i as u32, b);
        }
    }
    fn write32(&mut self, a: u32, v: u32) {
        self.accesses += 1;
        for (i, b) in v.to_le_bytes().into_iter().enumerate() {
            self.set_byte(a + i as u32, b);
        }
    }
    fn take_access_cycles(&mut self) -> u32 {
        std::mem::take(&mut self.accesses)
    }
    fn idle(&mut self, _cycles: u32) {}
}

fn armed(n: usize, src: u32, dst: u32, count: u16, control: u16) -> Dma {
    let mut dma = Dma::new();
    dma.channels[n].source = src;
    dma.channels[n].dest = dst;
    dma.channels[n].count = count;
    dma.write_control(n, control);
    dma
}

#[test]
fn immediate_halfword_copy() {
    let mut mem = Ram::new();
    for i in 0..4u32 {
        mem.write16(0x1000 + i * 2, 0x1111 * (i as u16 + 1));
    }
    let mut dma = armed(3, 0x1000, 0x2000, 4, 0x8000);
    assert_eq!(dma.take_pending(), 0b1000);
    assert_eq!(run(&mut dma, 3, &mut mem), None);
    assert_eq!(mem.read16(0x2006), 0x4444);
    assert!(!dma.channels[3].enabled(), "cleared when done");
}

#[test]
fn word_fill_with_fixed_source_and_irq() {
    let mut mem = Ram::new();
    mem.write32(0x1000, 0xDEAD_BEEF);
    // word, src fixed (2 << 7), IRQ, enable
    let mut dma = armed(1, 0x1000, 0x2000, 3, 0x8000 | 0x4000 | 0x0400 | (2 << 7));
    assert_eq!(run(&mut dma, 1, &mut mem), Some(Interrupt::Dma1));
    assert_eq!(mem.read32(0x2000), 0xDEAD_BEEF);
    assert_eq!(mem.read32(0x2008), 0xDEAD_BEEF);
    assert_eq!(mem.read32(0x200C), 0);
}

#[test]
fn zero_count_means_maximum() {
    let mut dma = armed(0, 0, 0, 0, 0x8000);
    assert_eq!(dma.channels[0].unit_count(0), 0x4000);
    let dma3 = armed(3, 0, 0, 0, 0x8000);
    assert_eq!(dma3.channels[3].unit_count(3), 0x1_0000);
    let _ = dma.take_pending();
}

#[test]
fn hblank_repeat_reloads_destination() {
    let mut mem = Ram::new();
    mem.write16(0x1000, 0xAAAA);
    mem.write16(0x1002, 0xBBBB);
    // HBlank timing, repeat, dest inc/reload (3 << 5)
    let mut dma = armed(0, 0x1000, 0x2000, 1, 0x8000 | 0x0200 | (2 << 12) | (3 << 5));
    assert_eq!(dma.take_pending(), 0, "not immediate");
    dma.trigger(Timing::HBlank);
    assert_eq!(dma.take_pending(), 0b0001);
    run(&mut dma, 0, &mut mem);
    assert_eq!(mem.read16(0x2000), 0xAAAA);
    assert!(dma.channels[0].enabled(), "repeat keeps it armed");
    dma.trigger(Timing::HBlank);
    let _ = dma.take_pending();
    run(&mut dma, 0, &mut mem);
    assert_eq!(mem.read16(0x2000), 0xBBBB, "dest reloaded, source advanced");
}

#[test]
fn fifo_refill_moves_four_words_to_a_fixed_destination() {
    let mut mem = Ram::new();
    for i in 0..8u32 {
        mem.write32(0x1000 + i * 4, 0x1111_1111 * (i + 1));
    }
    // Special timing, repeat, dest increment (ignored), halfwords
    // (ignored), count 1 (ignored).
    let fifo_a = base::IO + FIFO_A;
    let mut dma = armed(1, 0x1000, fifo_a, 1, 0x8000 | 0x0200 | (3 << 12));
    dma.trigger_fifo(1);
    assert_eq!(dma.take_pending(), 0, "FIFO B is not this channel's target");
    dma.trigger_fifo(0);
    assert_eq!(dma.take_pending(), 0b0010);
    run(&mut dma, 1, &mut mem);
    // Ram is flat, so the fixed destination ends up holding the last
    // word written.
    assert_eq!(mem.read32(fifo_a), 0x4444_4444);
    assert_eq!(mem.read32(fifo_a + 4), 0, "destination did not advance");
    assert!(dma.channels[1].enabled(), "stays armed");
    dma.trigger_fifo(0);
    let _ = dma.take_pending();
    run(&mut dma, 1, &mut mem);
    assert_eq!(mem.read32(fifo_a), 0x8888_8888, "source advanced");
}

#[test]
fn decrementing_addresses() {
    let mut mem = Ram::new();
    mem.write16(0x1000, 1);
    mem.write16(0x1002, 2);
    // src dec (1 << 7), dst dec (1 << 5)
    let mut dma = armed(2, 0x1002, 0x2002, 2, 0x8000 | (1 << 7) | (1 << 5));
    run(&mut dma, 2, &mut mem);
    assert_eq!(mem.read16(0x2002), 2);
    assert_eq!(mem.read16(0x2000), 1);
}
