use tuiba_core::cpu::load::{halfword, signed_byte, signed_halfword, word};
use tuiba_core::memory::Memory;

/// Flat 64 KiB RAM for CPU tests; addresses wrap.
struct Ram {
    bytes: Vec<u8>,
    accesses: u32,
}

#[allow(dead_code)]
impl Ram {
    fn new() -> Self {
        Self {
            bytes: vec![0; 0x1_0000],
            accesses: 0,
        }
    }

    fn byte(&self, address: u32) -> u8 {
        self.bytes[self.idx(address)]
    }

    fn set_byte(&mut self, address: u32, value: u8) {
        let i = self.idx(address);
        self.bytes[i] = value;
    }

    /// Assembles pre-encoded ARM words at `base`.
    fn load_arm(&mut self, base: u32, words: &[u32]) {
        for (i, w) in words.iter().enumerate() {
            self.write32(base + 4 * i as u32, *w);
        }
    }

    /// Assembles pre-encoded THUMB halfwords at `base`.
    fn load_thumb(&mut self, base: u32, halves: &[u16]) {
        for (i, h) in halves.iter().enumerate() {
            self.write16(base + 2 * i as u32, *h);
        }
    }

    fn idx(&self, address: u32) -> usize {
        address as usize % self.bytes.len()
    }
}

/// Every access costs one cycle, so instruction timings in tests
/// read as plain S/N/I counts.
impl Memory for Ram {
    type State = ();

    // What the contracts speak of; never called.
    fn wf(&self) -> bool {
        true
    }
    fn state(&self) {}
    fn value8(_: (), _: u32) -> u8 {
        0
    }
    fn value16(_: (), _: u32) -> u16 {
        0
    }
    fn value32(_: (), _: u32) -> u32 {
        0
    }
    fn loaded8(_: (), _: u32) {}
    fn loaded16(_: (), _: u32) {}
    fn loaded32(_: (), _: u32) {}
    fn stored8(_: (), _: u32, _: u8) {}
    fn stored16(_: (), _: u32, _: u16) {}
    fn stored32(_: (), _: u32, _: u32) {}
    fn elapsed(_: ()) -> u32 {
        0
    }
    fn settled(_: ()) {}
    fn idled(_: (), _: u32) {}

    fn read8(&mut self, a: u32) -> u8 {
        self.accesses += 1;
        self.byte(a)
    }
    fn read16(&mut self, a: u32) -> u16 {
        self.accesses += 1;
        u16::from_le_bytes([self.byte(a), self.byte(a + 1)])
    }
    fn read32(&mut self, a: u32) -> u32 {
        self.accesses += 1;
        u32::from_le_bytes([
            self.byte(a),
            self.byte(a + 1),
            self.byte(a + 2),
            self.byte(a + 3),
        ])
    }
    fn write8(&mut self, a: u32, v: u8) {
        self.accesses += 1;
        self.set_byte(a, v);
    }
    fn write16(&mut self, a: u32, v: u16) {
        self.accesses += 1;
        for (i, b) in v.to_le_bytes().into_iter().enumerate() {
            self.set_byte(a + i as u32, b);
        }
    }
    fn write32(&mut self, a: u32, v: u32) {
        self.accesses += 1;
        for (i, b) in v.to_le_bytes().into_iter().enumerate() {
            self.set_byte(a + i as u32, b);
        }
    }
    fn take_access_cycles(&mut self) -> u32 {
        std::mem::take(&mut self.accesses)
    }
    fn idle(&mut self, _cycles: u32) {}
}

fn ram() -> Ram {
    let mut ram = Ram::new();
    ram.write32(0x100, 0x8877_6655);
    ram
}

#[test]
fn misaligned_word_rotates() {
    let mut ram = ram();
    assert_eq!(word(&mut ram, 0x100), 0x8877_6655);
    assert_eq!(word(&mut ram, 0x101), 0x5588_7766);
    assert_eq!(word(&mut ram, 0x102), 0x6655_8877);
    assert_eq!(word(&mut ram, 0x103), 0x7766_5588);
}

#[test]
fn misaligned_halfword_rotates() {
    let mut ram = ram();
    assert_eq!(halfword(&mut ram, 0x100), 0x6655);
    assert_eq!(halfword(&mut ram, 0x101), 0x5500_0066);
}

#[test]
fn signed_loads_extend() {
    let mut ram = ram();
    assert_eq!(signed_byte(&mut ram, 0x100), 0x55);
    assert_eq!(signed_byte(&mut ram, 0x103), 0xFFFF_FF88);
    assert_eq!(signed_halfword(&mut ram, 0x102), 0xFFFF_8877);
    assert_eq!(
        signed_halfword(&mut ram, 0x103),
        0xFFFF_FF88,
        "odd address -> LDRSB"
    );
}
