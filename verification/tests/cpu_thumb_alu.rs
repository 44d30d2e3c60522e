use tuiba_core::cpu::{Cpu, Mode};
use tuiba_core::cpu::registers::{LR, SP};
use tuiba_core::memory::Memory;

/// Flat 64 KiB RAM for CPU tests; addresses wrap.
struct Ram {
    bytes: Vec<u8>,
    accesses: u32,
}

#[allow(dead_code)]
impl Ram {
    fn new() -> Self {
        Self {
            bytes: vec![0; 0x1_0000],
            accesses: 0,
        }
    }

    fn byte(&self, address: u32) -> u8 {
        self.bytes[self.idx(address)]
    }

    fn set_byte(&mut self, address: u32, value: u8) {
        let i = self.idx(address);
        self.bytes[i] = value;
    }

    /// Assembles pre-encoded ARM words at `base`.
    fn load_arm(&mut self, base: u32, words: &[u32]) {
        for (i, w) in words.iter().enumerate() {
            self.write32(base + 4 * i as u32, *w);
        }
    }

    /// Assembles pre-encoded THUMB halfwords at `base`.
    fn load_thumb(&mut self, base: u32, halves: &[u16]) {
        for (i, h) in halves.iter().enumerate() {
            self.write16(base + 2 * i as u32, *h);
        }
    }

    fn idx(&self, address: u32) -> usize {
        address as usize % self.bytes.len()
    }
}

/// Every access costs one cycle, so instruction timings in tests
/// read as plain S/N/I counts.
impl Memory for Ram {
    type State = ();

    // What the contracts speak of; never called.
    fn wf(&self) -> bool {
        true
    }
    fn state(&self) {}
    fn value8(_: (), _: u32) -> u8 {
        0
    }
    fn value16(_: (), _: u32) -> u16 {
        0
    }
    fn value32(_: (), _: u32) -> u32 {
        0
    }
    fn loaded8(_: (), _: u32) {}
    fn loaded16(_: (), _: u32) {}
    fn loaded32(_: (), _: u32) {}
    fn stored8(_: (), _: u32, _: u8) {}
    fn stored16(_: (), _: u32, _: u16) {}
    fn stored32(_: (), _: u32, _: u32) {}
    fn elapsed(_: ()) -> u32 {
        0
    }
    fn settled(_: ()) {}
    fn idled(_: (), _: u32) {}

    fn read8(&mut self, a: u32) -> u8 {
        self.accesses += 1;
        self.byte(a)
    }
    fn read16(&mut self, a: u32) -> u16 {
        self.accesses += 1;
        u16::from_le_bytes([self.byte(a), self.byte(a + 1)])
    }
    fn read32(&mut self, a: u32) -> u32 {
        self.accesses += 1;
        u32::from_le_bytes([
            self.byte(a),
            self.byte(a + 1),
            self.byte(a + 2),
            self.byte(a + 3),
        ])
    }
    fn write8(&mut self, a: u32, v: u8) {
        self.accesses += 1;
        self.set_byte(a, v);
    }
    fn write16(&mut self, a: u32, v: u16) {
        self.accesses += 1;
        for (i, b) in v.to_le_bytes().into_iter().enumerate() {
            self.set_byte(a + i as u32, b);
        }
    }
    fn write32(&mut self, a: u32, v: u32) {
        self.accesses += 1;
        for (i, b) in v.to_le_bytes().into_iter().enumerate() {
            self.set_byte(a + i as u32, b);
        }
    }
    fn take_access_cycles(&mut self) -> u32 {
        std::mem::take(&mut self.accesses)
    }
    fn idle(&mut self, _cycles: u32) {}
}

/// A CPU in System mode, ARM state, about to execute the word at `pc`.
fn arm_at(mem: &mut Ram, pc: u32) -> Cpu {
    let mut cpu = Cpu::new();
    cpu.reset(mem);
    cpu.regs.switch_mode(Mode::System);
    cpu.flush_pipeline(mem, pc);
    // Setup accesses must not count against the first instruction.
    mem.take_access_cycles();
    cpu
}

/// A CPU in System mode, THUMB state, about to execute the halfword at `pc`.
fn thumb_at(mem: &mut Ram, pc: u32) -> Cpu {
    let mut cpu = arm_at(mem, pc);
    cpu.regs.cpsr.set_thumb(true);
    cpu.flush_pipeline(mem, pc);
    mem.take_access_cycles();
    cpu
}

fn run(
    mem: &mut Ram,
    ops: &[u16],
    setup: impl FnOnce(&mut Cpu),
) -> Cpu {
    mem.load_thumb(0x200, ops);
    let mut cpu = thumb_at(mem, 0x200);
    setup(&mut cpu);
    for _ in 0..ops.len() {
        cpu.step(mem);
    }
    cpu
}

#[test]
fn move_shifted() {
    let mut mem = Ram::new();
    // lsl r0, r1, #4 ; lsr r2, r1, #0 (=32) ; asr r3, r1, #1
    let cpu = run(&mut mem, &[0x0108, 0x080A, 0x104B], |c| {
        c.regs.set(1, 0x8000_0001);
    });
    assert_eq!(cpu.regs.get(0), 0x10);
    assert_eq!(cpu.regs.get(2), 0);
    assert_eq!(cpu.regs.get(3), 0xC000_0000);
    assert!(cpu.regs.cpsr.c() && cpu.regs.cpsr.n());
}

#[test]
fn add_sub_register_and_imm3() {
    let mut mem = Ram::new();
    // add r0, r1, r2 ; sub r3, r1, #1 ; sub r4, r1, r1
    let cpu = run(&mut mem, &[0x1888, 0x1E4B, 0x1A4C], |c| {
        c.regs.set(1, 5);
        c.regs.set(2, 7);
    });
    assert_eq!(cpu.regs.get(0), 12);
    assert_eq!(cpu.regs.get(3), 4);
    assert_eq!(cpu.regs.get(4), 0);
    assert!(cpu.regs.cpsr.z() && cpu.regs.cpsr.c());
}

#[test]
fn immediate_ops() {
    let mut mem = Ram::new();
    // mov r0, #200 ; add r0, #100 ; sub r0, #44 ; cmp r0, #0
    let cpu = run(&mut mem, &[0x20C8, 0x3064, 0x382C, 0x2800], |_| {});
    assert_eq!(cpu.regs.get(0), 256);
    assert!(!cpu.regs.cpsr.z() && cpu.regs.cpsr.c());
}

#[test]
fn alu_register_ops() {
    let mut mem = Ram::new();
    // and r0, r1 ; lsl r2, r3 ; neg r4, r1 ; mul r5, r1 ; tst r1, r1 ; mvn r6, r1
    let cpu = run(
        &mut mem,
        &[0x4008, 0x409A, 0x424C, 0x434D, 0x4209, 0x43CE],
        |c| {
            c.regs.set(0, 0xFF);
            c.regs.set(1, 0x0F);
            c.regs.set(2, 1);
            c.regs.set(3, 33);
            c.regs.set(5, 3);
        },
    );
    assert_eq!(cpu.regs.get(0), 0x0F);
    assert_eq!(cpu.regs.get(2), 0, "lsl by 33 clears");
    assert_eq!(cpu.regs.get(4), 0xFFFF_FFF1);
    assert_eq!(cpu.regs.get(5), 45);
    assert_eq!(cpu.regs.get(6), 0xFFFF_FFF0);
    assert!(cpu.regs.cpsr.n());
}

#[test]
fn adc_sbc_use_carry() {
    let mut mem = Ram::new();
    // adc r0, r1 ; sbc r2, r1
    let cpu = run(&mut mem, &[0x4148, 0x418A], |c| {
        c.regs.set(0, 1);
        c.regs.set(1, 1);
        c.regs.set(2, 5);
        c.regs.cpsr.set_c(true);
    });
    assert_eq!(cpu.regs.get(0), 3);
    assert_eq!(cpu.regs.get(2), 3, "sbc subtracts the borrow left by adc");
}

#[test]
fn hi_register_ops() {
    let mut mem = Ram::new();
    // add r0, r8 ; mov r9, r0 ; cmp r9, r0 ; mov r1, pc
    let cpu = run(&mut mem, &[0x4440, 0x4681, 0x4581, 0x4679], |c| {
        c.regs.set(8, 0x100);
    });
    assert_eq!(cpu.regs.get(0), 0x100);
    assert_eq!(cpu.regs.get(9), 0x100);
    assert!(cpu.regs.cpsr.z());
    assert_eq!(cpu.regs.get(1), 0x20A, "PC+4 of the instruction at 0x206");
}

#[test]
fn hi_register_add_to_pc_branches() {
    let mut mem = Ram::new();
    mem.load_thumb(0x200, &[0x4487]); // add pc, r0
    let mut cpu = thumb_at(&mut mem, 0x200);
    cpu.regs.set(0, 0x101);
    cpu.step(&mut mem);
    assert_eq!(cpu.next_pc(), 0x304, "0x204 + 0x101, bit 0 dropped");
    assert!(cpu.thumb());
}

#[test]
fn bx_lr_returns_to_arm() {
    let mut mem = Ram::new();
    mem.load_thumb(0x200, &[0x4770]); // bx lr
    let mut cpu = thumb_at(&mut mem, 0x200);
    cpu.regs.set(LR, 0x400);
    cpu.step(&mut mem);
    assert!(!cpu.thumb());
    assert_eq!(cpu.next_pc(), 0x400);
}

#[test]
fn load_address_and_add_sp() {
    let mut mem = Ram::new();
    // add r0, pc, #8 ; add r1, sp, #16 ; add sp, #-8 ; add sp, #4
    let cpu = run(&mut mem, &[0xA002, 0xA904, 0xB082, 0xB001], |c| {
        c.regs.set(SP, 0x1000);
    });
    assert_eq!(cpu.regs.get(0), 0x20C);
    assert_eq!(cpu.regs.get(1), 0x1010);
    assert_eq!(cpu.regs.get(SP), 0xFFC);
}

#[test]
fn load_address_from_pc_clears_bit1() {
    let mut mem = Ram::new();
    mem.load_thumb(0x202, &[0xA000]); // add r0, pc, #0 at 0x202 -> (0x206 & !2)
    let mut cpu = thumb_at(&mut mem, 0x202);
    cpu.step(&mut mem);
    assert_eq!(cpu.regs.get(0), 0x204);
}
