use tuiba_core::cpu::{Cpu, Mode};
use tuiba_core::cpu::registers::{LR, SP};
use tuiba_core::memory::Memory;

/// Flat 64 KiB RAM for CPU tests; addresses wrap.
struct Ram {
    bytes: Vec<u8>,
    accesses: u32,
}

#[allow(dead_code)]
impl Ram {
    fn new() -> Self {
        Self {
            bytes: vec![0; 0x1_0000],
            accesses: 0,
        }
    }

    fn byte(&self, address: u32) -> u8 {
        self.bytes[self.idx(address)]
    }

    fn set_byte(&mut self, address: u32, value: u8) {
        let i = self.idx(address);
        self.bytes[i] = value;
    }

    /// Assembles pre-encoded ARM words at `base`.
    fn load_arm(&mut self, base: u32, words: &[u32]) {
        for (i, w) in words.iter().enumerate() {
            self.write32(base + 4 * i as u32, *w);
        }
    }

    /// Assembles pre-encoded THUMB halfwords at `base`.
    fn load_thumb(&mut self, base: u32, halves: &[u16]) {
        for (i, h) in halves.iter().enumerate() {
            self.write16(base + 2 * i as u32, *h);
        }
    }

    fn idx(&self, address: u32) -> usize {
        address as usize % self.bytes.len()
    }
}

/// Every access costs one cycle, so instruction timings in tests
/// read as plain S/N/I counts.
impl Memory for Ram {
    type State = ();

    // What the contracts speak of; never called.
    fn wf(&self) -> bool {
        true
    }
    fn state(&self) {}
    fn value8(_: (), _: u32) -> u8 {
        0
    }
    fn value16(_: (), _: u32) -> u16 {
        0
    }
    fn value32(_: (), _: u32) -> u32 {
        0
    }
    fn loaded8(_: (), _: u32) {}
    fn loaded16(_: (), _: u32) {}
    fn loaded32(_: (), _: u32) {}
    fn stored8(_: (), _: u32, _: u8) {}
    fn stored16(_: (), _: u32, _: u16) {}
    fn stored32(_: (), _: u32, _: u32) {}
    fn elapsed(_: ()) -> u32 {
        0
    }
    fn settled(_: ()) {}
    fn idled(_: (), _: u32) {}

    fn read8(&mut self, a: u32) -> u8 {
        self.accesses += 1;
        self.byte(a)
    }
    fn read16(&mut self, a: u32) -> u16 {
        self.accesses += 1;
        u16::from_le_bytes([self.byte(a), self.byte(a + 1)])
    }
    fn read32(&mut self, a: u32) -> u32 {
        self.accesses += 1;
        u32::from_le_bytes([
            self.byte(a),
            self.byte(a + 1),
            self.byte(a + 2),
            self.byte(a + 3),
        ])
    }
    fn write8(&mut self, a: u32, v: u8) {
        self.accesses += 1;
        self.set_byte(a, v);
    }
    fn write16(&mut self, a: u32, v: u16) {
        self.accesses += 1;
        for (i, b) in v.to_le_bytes().into_iter().enumerate() {
            self.set_byte(a + i as u32, b);
        }
    }
    fn write32(&mut self, a: u32, v: u32) {
        self.accesses += 1;
        for (i, b) in v.to_le_bytes().into_iter().enumerate() {
            self.set_byte(a + i as u32, b);
        }
    }
    fn take_access_cycles(&mut self) -> u32 {
        std::mem::take(&mut self.accesses)
    }
    fn idle(&mut self, _cycles: u32) {}
}

/// A CPU in System mode, ARM state, about to execute the word at `pc`.
fn arm_at(mem: &mut Ram, pc: u32) -> Cpu {
    let mut cpu = Cpu::new();
    cpu.reset(mem);
    cpu.regs.switch_mode(Mode::System);
    cpu.flush_pipeline(mem, pc);
    // Setup accesses must not count against the first instruction.
    mem.take_access_cycles();
    cpu
}

/// A CPU in System mode, THUMB state, about to execute the halfword at `pc`.
fn thumb_at(mem: &mut Ram, pc: u32) -> Cpu {
    let mut cpu = arm_at(mem, pc);
    cpu.regs.cpsr.set_thumb(true);
    cpu.flush_pipeline(mem, pc);
    mem.take_access_cycles();
    cpu
}

fn run(
    mem: &mut Ram,
    ops: &[u16],
    setup: impl FnOnce(&mut Cpu),
) -> Cpu {
    mem.load_thumb(0x200, ops);
    let mut cpu = thumb_at(mem, 0x200);
    setup(&mut cpu);
    for _ in 0..ops.len() {
        cpu.step(mem);
    }
    cpu
}

#[test]
fn ldr_pc_relative_is_word_aligned() {
    let mut mem = Ram::new();
    mem.write32(0x208, 0xCAFE_BABE);
    // at 0x202: ldr r0, [pc, #4] -> (0x206 & !2) + 4 = 0x208
    mem.load_thumb(0x202, &[0x4801]);
    let mut cpu = thumb_at(&mut mem, 0x202);
    cpu.step(&mut mem);
    assert_eq!(cpu.regs.get(0), 0xCAFE_BABE);
}

#[test]
fn register_offset_transfers() {
    let mut mem = Ram::new();
    // str r0, [r1, r2] ; strb r0, [r1, r3] ; ldr r4, [r1, r2] ; ldrb r5, [r1, r3]
    let cpu = run(&mut mem, &[0x5088, 0x54C8, 0x588C, 0x5CCD], |c| {
        c.regs.set(0, 0x1122_3344);
        c.regs.set(1, 0x1000);
        c.regs.set(2, 4);
        c.regs.set(3, 9);
    });
    assert_eq!(mem.read32(0x1004), 0x1122_3344);
    assert_eq!(mem.read8(0x1009), 0x44);
    assert_eq!(cpu.regs.get(4), 0x1122_3344);
    assert_eq!(cpu.regs.get(5), 0x44);
}

#[test]
fn sign_extending_transfers() {
    let mut mem = Ram::new();
    // strh r0, [r1, r2] ; ldrsb r3, [r1, r2] ; ldrh r4, [r1, r2] ; ldrsh r5, [r1, r2]
    let cpu = run(&mut mem, &[0x5288, 0x568B, 0x5A8C, 0x5E8D], |c| {
        c.regs.set(0, 0x1234_8180);
        c.regs.set(1, 0x1000);
        c.regs.set(2, 2);
    });
    assert_eq!(mem.read16(0x1002), 0x8180);
    assert_eq!(cpu.regs.get(3), 0xFFFF_FF80);
    assert_eq!(cpu.regs.get(4), 0x8180);
    assert_eq!(cpu.regs.get(5), 0xFFFF_8180);
}

#[test]
fn immediate_offset_transfers() {
    let mut mem = Ram::new();
    // str r0, [r1, #8] ; ldr r2, [r1, #8] ; strb r0, [r1, #3] ; ldrb r3, [r1, #3]
    // strh r0, [r1, #6] ; ldrh r4, [r1, #6]
    let cpu = run(
        &mut mem,
        &[0x6088, 0x688A, 0x70C8, 0x78CB, 0x80C8, 0x88CC],
        |c| {
            c.regs.set(0, 0xAABB_CCDD);
            c.regs.set(1, 0x1000);
        },
    );
    assert_eq!(cpu.regs.get(2), 0xAABB_CCDD);
    assert_eq!(cpu.regs.get(3), 0xDD);
    assert_eq!(cpu.regs.get(4), 0xCCDD);
    assert_eq!(mem.read8(0x1003), 0xDD);
    assert_eq!(mem.read16(0x1006), 0xCCDD);
}

#[test]
fn sp_relative_transfers() {
    let mut mem = Ram::new();
    // str r0, [sp, #4] ; ldr r1, [sp, #4]
    let cpu = run(&mut mem, &[0x9001, 0x9901], |c| {
        c.regs.set(0, 0x55);
        c.regs.set(SP, 0x1000);
    });
    assert_eq!(mem.read32(0x1004), 0x55);
    assert_eq!(cpu.regs.get(1), 0x55);
}

#[test]
fn push_pop_round_trip_with_lr_pc() {
    let mut mem = Ram::new();
    // push {r0, r1, lr} ; pop {r2, r3, pc}
    let cpu = run(&mut mem, &[0xB503, 0xBD0C], |c| {
        c.regs.set(0, 10);
        c.regs.set(1, 11);
        c.regs.set(LR, 0x301);
        c.regs.set(SP, 0x1000);
    });
    assert_eq!(mem.read32(0xFF4), 10);
    assert_eq!(mem.read32(0xFF8), 11);
    assert_eq!(mem.read32(0xFFC), 0x301);
    assert_eq!(cpu.regs.get(SP), 0x1000);
    assert_eq!((cpu.regs.get(2), cpu.regs.get(3)), (10, 11));
    assert_eq!(cpu.next_pc(), 0x300);
    assert!(cpu.thumb(), "POP pc keeps THUMB on ARMv4T");
}

#[test]
fn stmia_ldmia_with_writeback() {
    let mut mem = Ram::new();
    // stmia r0!, {r1, r2} ; ldmia r3!, {r4, r5}
    let cpu = run(&mut mem, &[0xC006, 0xCB30], |c| {
        c.regs.set(0, 0x1000);
        c.regs.set(1, 1);
        c.regs.set(2, 2);
        c.regs.set(3, 0x1000);
    });
    assert_eq!(cpu.regs.get(0), 0x1008);
    assert_eq!(cpu.regs.get(3), 0x1008);
    assert_eq!((cpu.regs.get(4), cpu.regs.get(5)), (1, 2));
}

#[test]
fn ldmia_base_in_list_keeps_loaded_value() {
    let mut mem = Ram::new();
    mem.write32(0x1000, 0x77);
    let cpu = run(&mut mem, &[0xC801], |c| c.regs.set(0, 0x1000)); // ldmia r0!, {r0}
    assert_eq!(cpu.regs.get(0), 0x77);
}

#[test]
fn stmia_empty_list_quirk() {
    let mut mem = Ram::new();
    let cpu = run(&mut mem, &[0xC000], |c| c.regs.set(0, 0x1000)); // stmia r0!, {}
    assert_eq!(mem.read32(0x1000), 0x206);
    assert_eq!(cpu.regs.get(0), 0x1040);
}
