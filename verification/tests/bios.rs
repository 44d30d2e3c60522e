use tuiba_core::bios::{INTR_CHECK_FLAGS, Outcome, call, service};
use tuiba_core::cpu::Cpu;
use tuiba_core::memory::{Bus, Cartridge, Memory, base, reg};
use tuiba_core::memory::cartridge::HEADER_END;

/// Flat 64 KiB RAM for CPU tests; addresses wrap.
struct Ram {
    bytes: Vec<u8>,
    accesses: u32,
}

#[allow(dead_code)]
impl Ram {
    fn new() -> Self {
        Self {
            bytes: vec![0; 0x1_0000],
            accesses: 0,
        }
    }

    fn byte(&self, address: u32) -> u8 {
        self.bytes[self.idx(address)]
    }

    fn set_byte(&mut self, address: u32, value: u8) {
        let i = self.idx(address);
        self.bytes[i] = value;
    }

    /// Assembles pre-encoded ARM words at `base`.
    fn load_arm(&mut self, base: u32, words: &[u32]) {
        for (i, w) in words.iter().enumerate() {
            self.write32(base + 4 * i as u32, *w);
        }
    }

    /// Assembles pre-encoded THUMB halfwords at `base`.
    fn load_thumb(&mut self, base: u32, halves: &[u16]) {
        for (i, h) in halves.iter().enumerate() {
            self.write16(base + 2 * i as u32, *h);
        }
    }

    fn idx(&self, address: u32) -> usize {
        address as usize % self.bytes.len()
    }
}

/// Every access costs one cycle, so instruction timings in tests
/// read as plain S/N/I counts.
impl Memory for Ram {
    type State = ();

    // What the contracts speak of; never called.
    fn wf(&self) -> bool {
        true
    }
    fn state(&self) {}
    fn value8(_: (), _: u32) -> u8 {
        0
    }
    fn value16(_: (), _: u32) -> u16 {
        0
    }
    fn value32(_: (), _: u32) -> u32 {
        0
    }
    fn loaded8(_: (), _: u32) {}
    fn loaded16(_: (), _: u32) {}
    fn loaded32(_: (), _: u32) {}
    fn stored8(_: (), _: u32, _: u8) {}
    fn stored16(_: (), _: u32, _: u16) {}
    fn stored32(_: (), _: u32, _: u32) {}
    fn elapsed(_: ()) -> u32 {
        0
    }
    fn settled(_: ()) {}
    fn idled(_: (), _: u32) {}

    fn read8(&mut self, a: u32) -> u8 {
        self.accesses += 1;
        self.byte(a)
    }
    fn read16(&mut self, a: u32) -> u16 {
        self.accesses += 1;
        u16::from_le_bytes([self.byte(a), self.byte(a + 1)])
    }
    fn read32(&mut self, a: u32) -> u32 {
        self.accesses += 1;
        u32::from_le_bytes([
            self.byte(a),
            self.byte(a + 1),
            self.byte(a + 2),
            self.byte(a + 3),
        ])
    }
    fn write8(&mut self, a: u32, v: u8) {
        self.accesses += 1;
        self.set_byte(a, v);
    }
    fn write16(&mut self, a: u32, v: u16) {
        self.accesses += 1;
        for (i, b) in v.to_le_bytes().into_iter().enumerate() {
            self.set_byte(a + i as u32, b);
        }
    }
    fn write32(&mut self, a: u32, v: u32) {
        self.accesses += 1;
        for (i, b) in v.to_le_bytes().into_iter().enumerate() {
            self.set_byte(a + i as u32, b);
        }
    }
    fn take_access_cycles(&mut self) -> u32 {
        std::mem::take(&mut self.accesses)
    }
    fn idle(&mut self, _cycles: u32) {}
}

/// Builds a minimal ROM with a valid header and the given title.
fn rom_with_header(title: &str, len: usize) -> Vec<u8> {
    let mut rom = vec![0u8; len.max(HEADER_END)];
    rom[0xA0..0xA0 + title.len()].copy_from_slice(title.as_bytes());
    rom[0xAC..0xB0].copy_from_slice(b"TEST");
    rom[0xB0..0xB2].copy_from_slice(b"00");
    rom[0xB2] = 0x96;
    rom[0xBC] = 1;
    let checksum = rom[0xA0..=0xBC]
        .iter()
        .fold(0u8, |acc, &b| acc.wrapping_sub(b))
        .wrapping_sub(0x19);
    rom[0xBD] = checksum;
    rom
}

fn cpu_with(regs: &[(usize, u32)]) -> Cpu {
    let mut cpu = Cpu::new();
    for &(i, v) in regs {
        cpu.regs.set(i, v);
    }
    cpu
}

#[test]
fn div_and_div_arm() {
    let mut mem = Ram::new();
    let mut cpu = cpu_with(&[(0, (-7i32) as u32), (1, 2)]);
    assert_eq!(service(call::DIV, &mut cpu, &mut mem), Outcome::Done);
    assert_eq!(cpu.regs.get(0), (-3i32) as u32);
    assert_eq!(cpu.regs.get(1), (-1i32) as u32);
    assert_eq!(cpu.regs.get(3), 3);

    let mut cpu = cpu_with(&[(0, 2), (1, 7)]);
    service(call::DIV_ARM, &mut cpu, &mut mem);
    assert_eq!(cpu.regs.get(0), 3);

    let mut cpu = cpu_with(&[(0, 9), (1, 0)]);
    service(call::DIV, &mut cpu, &mut mem);
    assert_eq!((cpu.regs.get(0), cpu.regs.get(1)), (1, 9), "divide by zero");
}

#[test]
fn sqrt_and_arctan2() {
    let mut mem = Ram::new();
    let mut cpu = cpu_with(&[(0, 1_000_000)]);
    service(call::SQRT, &mut cpu, &mut mem);
    assert_eq!(cpu.regs.get(0), 1000);

    let mut cpu = cpu_with(&[(0, 0), (1, 0x100)]); // straight up
    service(call::ARCTAN2, &mut cpu, &mut mem);
    assert_eq!(cpu.regs.get(0), 0x4000);
    let mut cpu = cpu_with(&[(0, 0xFF00), (1, 0)]); // x = -0x100: left
    service(call::ARCTAN2, &mut cpu, &mut mem);
    assert_eq!(cpu.regs.get(0), 0x8000);
}

#[test]
fn cpu_set_copies_and_fills() {
    let mut mem = Ram::new();
    mem.write32(0x1000, 0xAABB_CCDD);
    mem.write32(0x1004, 0x1122_3344);
    // 16-bit copy of 4 halfwords
    let mut cpu = cpu_with(&[(0, 0x1000), (1, 0x2000), (2, 4)]);
    service(call::CPU_SET, &mut cpu, &mut mem);
    assert_eq!(mem.read32(0x2000), 0xAABB_CCDD);
    assert_eq!(mem.read32(0x2004), 0x1122_3344);
    // 32-bit fill of 3 words
    let mut cpu = cpu_with(&[(0, 0x1000), (1, 0x3000), (2, 3 | (1 << 24) | (1 << 26))]);
    service(call::CPU_SET, &mut cpu, &mut mem);
    assert_eq!(mem.read32(0x3000), 0xAABB_CCDD);
    assert_eq!(mem.read32(0x3008), 0xAABB_CCDD);
    assert_eq!(mem.read32(0x300C), 0);
}

#[test]
fn cpu_fast_set_rounds_to_blocks() {
    let mut mem = Ram::new();
    mem.write32(0x1000, 0x5555_5555);
    let mut cpu = cpu_with(&[(0, 0x1000), (1, 0x2000), (2, 9 | (1 << 24))]);
    service(call::CPU_FAST_SET, &mut cpu, &mut mem);
    assert_eq!(
        mem.read32(0x2000 + 15 * 4),
        0x5555_5555,
        "rounded up to 16 words"
    );
    assert_eq!(mem.read32(0x2000 + 16 * 4), 0);
}

#[test]
fn vblank_intr_wait_halts_and_clears_flag() {
    let mut mem = Ram::new();
    mem.write16(INTR_CHECK_FLAGS, 0b11);
    let mut cpu = Cpu::new();
    let out = service(call::VBLANK_INTR_WAIT, &mut cpu, &mut mem);
    assert_eq!(out, Outcome::WaitForInterrupt { mask: 1 });
    assert!(cpu.halted);
    assert_eq!(mem.read16(INTR_CHECK_FLAGS), 0b10);
    assert_eq!(mem.read16(0x0400_0208), 1, "IME forced on");
}

#[test]
fn intr_wait_keeps_old_flags_when_r0_is_zero() {
    let mut mem = Ram::new();
    mem.write16(INTR_CHECK_FLAGS, 0b1000);
    let mut cpu = cpu_with(&[(0, 0), (1, 0b1000)]);
    assert_eq!(
        service(call::INTR_WAIT, &mut cpu, &mut mem),
        Outcome::WaitForInterrupt { mask: 0b1000 }
    );
    assert_eq!(mem.read16(INTR_CHECK_FLAGS), 0b1000);
}

#[test]
fn register_ram_reset_clears_selected_memories() {
    let mut bus = Bus::new(Cartridge::from_bytes(rom_with_header("R", 0x100)).unwrap());
    bus.write32(base::EWRAM, 1);
    bus.write32(base::IWRAM, 2);
    bus.write32(base::IWRAM + 0x7FF0, 3);
    bus.write32(base::VRAM, 4);
    let mut cpu = cpu_with(&[(0, 0x01 | 0x02 | 0x80)]);
    service(call::REGISTER_RAM_RESET, &mut cpu, &mut bus);
    assert_eq!(bus.read32(base::EWRAM), 0);
    assert_eq!(bus.read32(base::IWRAM), 0);
    assert_eq!(
        bus.read32(base::IWRAM + 0x7FF0),
        3,
        "top of IWRAM preserved"
    );
    assert_eq!(bus.read32(base::VRAM), 4, "VRAM not selected");
    assert_eq!(bus.io.read16(reg::DISPCNT), 0x0080, "display blanked");
}

#[test]
fn lz77_decompresses_literals_and_references() {
    let mut mem = Ram::new();
    // "ABCABCABCD": literals A B C, then a 7-byte back-reference of
    // distance 3, then literal D.  Header: type 0x10, size 11.
    let compressed: [u8; 12] = [
        0x10,
        11,
        0,
        0, // header
        0b0001_0000,
        b'A',
        b'B',
        b'C',
        0x40,
        0x02,
        b'D', // flags, tokens
        0x00, // padding
    ];
    // token 4 is a reference: 0x40 -> length 4+3 = 7, distance 2+1 = 3
    for (i, b) in compressed.iter().enumerate() {
        mem.write8(0x1000 + i as u32, *b);
    }
    let mut cpu = cpu_with(&[(0, 0x1000), (1, 0x2000)]);
    service(call::LZ77_UNCOMP_WRAM, &mut cpu, &mut mem);
    let out: Vec<u8> = (0..11).map(|i| mem.read8(0x2000 + i)).collect();
    assert_eq!(&out, b"ABCABCABCAD");

    let mut cpu = cpu_with(&[(0, 0x1000), (1, 0x3000)]);
    service(call::LZ77_UNCOMP_VRAM, &mut cpu, &mut mem);
    assert_eq!(mem.read16(0x3000), u16::from_le_bytes(*b"AB"));
    assert_eq!(mem.read8(0x300A), b'D');
}

#[test]
fn rl_decompresses_runs_and_literals() {
    let mut mem = Ram::new();
    // header 0x30, size 7 ; run of 4 'A' ; literal "BCD"
    let data: [u8; 10] = [0x30, 7, 0, 0, 0x81, b'A', 0x02, b'B', b'C', b'D'];
    for (i, b) in data.iter().enumerate() {
        mem.write8(0x1000 + i as u32, *b);
    }
    let mut cpu = cpu_with(&[(0, 0x1000), (1, 0x2000)]);
    service(call::RL_UNCOMP_WRAM, &mut cpu, &mut mem);
    let out: Vec<u8> = (0..7).map(|i| mem.read8(0x2000 + i)).collect();
    assert_eq!(&out, b"AAAABCD");
}

#[test]
fn bit_unpack_widens_units() {
    let mut mem = Ram::new();
    // Two bytes of 1-bit units -> 4-bit units with offset 5 for non-zero.
    mem.write8(0x1000, 0b0000_0101);
    mem.write8(0x1001, 0b0000_0001);
    mem.write16(0x1100, 2); // length
    mem.write8(0x1102, 1); // src bits
    mem.write8(0x1103, 4); // dst bits
    mem.write32(0x1104, 5); // offset
    let mut cpu = cpu_with(&[(0, 0x1000), (1, 0x2000), (2, 0x1100)]);
    service(call::BIT_UNPACK, &mut cpu, &mut mem);
    assert_eq!(
        mem.read32(0x2000),
        0x0000_0606,
        "bits 0 and 2 of byte 0, plus offset"
    );
    assert_eq!(mem.read32(0x2004), 0x0000_0006, "bit 0 of byte 1");
}

#[test]
fn affine_set_identity_and_rotation() {
    let mut mem = Ram::new();
    // ObjAffineSet: scale 1.0, theta 0 -> identity; stride 8 (OAM layout).
    mem.write16(0x1000, 0x100);
    mem.write16(0x1002, 0x100);
    mem.write16(0x1004, 0);
    let mut cpu = cpu_with(&[(0, 0x1000), (1, 0x2006), (2, 1), (3, 8)]);
    service(call::OBJ_AFFINE_SET, &mut cpu, &mut mem);
    assert_eq!(mem.read16(0x2006), 0x100);
    assert_eq!(mem.read16(0x200E), 0);
    assert_eq!(mem.read16(0x2016), 0);
    assert_eq!(mem.read16(0x201E), 0x100);

    // 90 degrees (theta 0x4000): pa = 0, pb = -1.0, pc = 1.0, pd = 0.
    mem.write16(0x1004, 0x4000);
    let mut cpu = cpu_with(&[(0, 0x1000), (1, 0x3000), (2, 1), (3, 2)]);
    service(call::OBJ_AFFINE_SET, &mut cpu, &mut mem);
    assert_eq!(mem.read16(0x3000), 0);
    assert_eq!(mem.read16(0x3002) as i16, -0x100);
    assert_eq!(mem.read16(0x3004), 0x100);
    assert_eq!(mem.read16(0x3006), 0);

    // BgAffineSet: origin (10, 20), centre (120, 80), identity.
    mem.write32(0x4000, 10 << 8);
    mem.write32(0x4004, 20 << 8);
    mem.write16(0x4008, 120);
    mem.write16(0x400A, 80);
    mem.write16(0x400C, 0x100);
    mem.write16(0x400E, 0x100);
    mem.write16(0x4010, 0);
    let mut cpu = cpu_with(&[(0, 0x4000), (1, 0x5000), (2, 1)]);
    service(call::BG_AFFINE_SET, &mut cpu, &mut mem);
    assert_eq!(mem.read16(0x5000), 0x100);
    assert_eq!(mem.read32(0x5008) as i32, (10 << 8) - 120 * 0x100);
    assert_eq!(mem.read32(0x500C) as i32, (20 << 8) - 80 * 0x100);
}

#[test]
fn unknown_calls_are_reported() {
    let mut mem = Ram::new();
    let mut cpu = Cpu::new();
    assert_eq!(service(0x2A, &mut cpu, &mut mem), Outcome::Unsupported);
}

#[test]
fn cpu_fast_set_rounds_the_largest_counts_up_too() {
    let mut mem = Ram::new();
    mem.write32(0x1000, 0x5555_5555);
    let before = mem.accesses;
    let mut cpu = cpu_with(&[(0, 0x1000), (1, 0x2000), (2, 0x1F_FFFF | (1 << 24))]);
    service(call::CPU_FAST_SET, &mut cpu, &mut mem);
    assert_eq!(mem.read32(0x2000), 0x5555_5555);
    // One read, the words, and the read above.
    assert_eq!(mem.accesses - before, 1 + 0x20_0000 + 1);
}
