use tuiba_core::cpu::{Cpu, Mode};
use tuiba_core::cpu::registers::{LR, PC, SP};
use tuiba_core::memory::Memory;

/// Flat 64 KiB RAM for CPU tests; addresses wrap.
struct Ram {
    bytes: Vec<u8>,
    accesses: u32,
}

#[allow(dead_code)]
impl Ram {
    fn new() -> Self {
        Self {
            bytes: vec![0; 0x1_0000],
            accesses: 0,
        }
    }

    fn byte(&self, address: u32) -> u8 {
        self.bytes[self.idx(address)]
    }

    fn set_byte(&mut self, address: u32, value: u8) {
        let i = self.idx(address);
        self.bytes[i] = value;
    }

    /// Assembles pre-encoded ARM words at `base`.
    fn load_arm(&mut self, base: u32, words: &[u32]) {
        for (i, w) in words.iter().enumerate() {
            self.write32(base + 4 * i as u32, *w);
        }
    }

    /// Assembles pre-encoded THUMB halfwords at `base`.
    fn load_thumb(&mut self, base: u32, halves: &[u16]) {
        for (i, h) in halves.iter().enumerate() {
            self.write16(base + 2 * i as u32, *h);
        }
    }

    fn idx(&self, address: u32) -> usize {
        address as usize % self.bytes.len()
    }
}

/// Every access costs one cycle, so instruction timings in tests
/// read as plain S/N/I counts.
impl Memory for Ram {
    type State = ();

    // What the contracts speak of; never called.
    fn wf(&self) -> bool {
        true
    }
    fn state(&self) {}
    fn value8(_: (), _: u32) -> u8 {
        0
    }
    fn value16(_: (), _: u32) -> u16 {
        0
    }
    fn value32(_: (), _: u32) -> u32 {
        0
    }
    fn loaded8(_: (), _: u32) {}
    fn loaded16(_: (), _: u32) {}
    fn loaded32(_: (), _: u32) {}
    fn stored8(_: (), _: u32, _: u8) {}
    fn stored16(_: (), _: u32, _: u16) {}
    fn stored32(_: (), _: u32, _: u32) {}
    fn elapsed(_: ()) -> u32 {
        0
    }
    fn settled(_: ()) {}
    fn idled(_: (), _: u32) {}

    fn read8(&mut self, a: u32) -> u8 {
        self.accesses += 1;
        self.byte(a)
    }
    fn read16(&mut self, a: u32) -> u16 {
        self.accesses += 1;
        u16::from_le_bytes([self.byte(a), self.byte(a + 1)])
    }
    fn read32(&mut self, a: u32) -> u32 {
        self.accesses += 1;
        u32::from_le_bytes([
            self.byte(a),
            self.byte(a + 1),
            self.byte(a + 2),
            self.byte(a + 3),
        ])
    }
    fn write8(&mut self, a: u32, v: u8) {
        self.accesses += 1;
        self.set_byte(a, v);
    }
    fn write16(&mut self, a: u32, v: u16) {
        self.accesses += 1;
        for (i, b) in v.to_le_bytes().into_iter().enumerate() {
            self.set_byte(a + i as u32, b);
        }
    }
    fn write32(&mut self, a: u32, v: u32) {
        self.accesses += 1;
        for (i, b) in v.to_le_bytes().into_iter().enumerate() {
            self.set_byte(a + i as u32, b);
        }
    }
    fn take_access_cycles(&mut self) -> u32 {
        std::mem::take(&mut self.accesses)
    }
    fn idle(&mut self, _cycles: u32) {}
}

/// A CPU in System mode, ARM state, about to execute the word at `pc`.
fn arm_at(mem: &mut Ram, pc: u32) -> Cpu {
    let mut cpu = Cpu::new();
    cpu.reset(mem);
    cpu.regs.switch_mode(Mode::System);
    cpu.flush_pipeline(mem, pc);
    // Setup accesses must not count against the first instruction.
    mem.take_access_cycles();
    cpu
}

/// A CPU in System mode, THUMB state, about to execute the halfword at `pc`.
fn thumb_at(mem: &mut Ram, pc: u32) -> Cpu {
    let mut cpu = arm_at(mem, pc);
    cpu.regs.cpsr.set_thumb(true);
    cpu.flush_pipeline(mem, pc);
    mem.take_access_cycles();
    cpu
}

#[test]
fn reset_starts_at_vector_zero_with_prefetch() {
    let mut mem = Ram::new();
    mem.load_arm(0, &[0xEA00_0000, 0xEA00_0001]);
    let mut cpu = Cpu::new();
    cpu.reset(&mut mem);
    assert_eq!(cpu.regs.get(PC), 8);
    assert_eq!(cpu.next_pc(), 0);
    assert_eq!(cpu.pipeline, [0xEA00_0000, 0xEA00_0001]);
}

#[test]
fn skip_bios_sets_up_stacks_and_entry_point() {
    let mut mem = Ram::new();
    let mut cpu = Cpu::new();
    cpu.skip_bios(&mut mem);
    assert_eq!(cpu.regs.mode(), Mode::System);
    assert_eq!(cpu.regs.get(SP), 0x0300_7F00);
    assert_eq!(cpu.next_pc(), 0x0800_0000);
    assert!(!cpu.regs.cpsr.irq_disabled());
    cpu.regs.switch_mode(Mode::Irq);
    assert_eq!(cpu.regs.get(SP), 0x0300_7FA0);
    cpu.regs.switch_mode(Mode::Supervisor);
    assert_eq!(cpu.regs.get(SP), 0x0300_7FE0);
}

#[test]
fn arm_branch_forward_and_backward() {
    let mut mem = Ram::new();
    // 0x100: b 0x110 ; offset = (0x110 - 0x108) / 4 = 2
    mem.load_arm(0x100, &[0xEA00_0002]);
    // 0x110: b 0x100 ; offset = (0x100 - 0x118) / 4 = -6
    mem.load_arm(0x110, &[0xEAFF_FFFA]);
    let mut cpu = arm_at(&mut mem, 0x100);
    assert_eq!(cpu.step(&mut mem), 3, "2S + 1N");
    assert_eq!(cpu.next_pc(), 0x110);
    cpu.step(&mut mem);
    assert_eq!(cpu.next_pc(), 0x100);
}

#[test]
fn arm_branch_with_link_sets_return_address() {
    let mut mem = Ram::new();
    mem.load_arm(0x100, &[0xEB00_0010]); // bl 0x148
    let mut cpu = arm_at(&mut mem, 0x100);
    cpu.step(&mut mem);
    assert_eq!(cpu.regs.get(LR), 0x104);
    assert_eq!(cpu.next_pc(), 0x148);
}

#[test]
fn failed_condition_skips_instruction() {
    let mut mem = Ram::new();
    mem.load_arm(0x100, &[0x0A00_0010, 0xEA00_0000]); // beq +; b +0
    let mut cpu = arm_at(&mut mem, 0x100);
    assert_eq!(cpu.step(&mut mem), 1);
    assert_eq!(cpu.next_pc(), 0x104);
    cpu.regs.cpsr.set_z(true);
    cpu.flush_pipeline(&mut mem, 0x100);
    cpu.step(&mut mem);
    assert_eq!(cpu.next_pc(), 0x148);
}

#[test]
fn bx_switches_to_thumb_and_back() {
    let mut mem = Ram::new();
    mem.load_arm(0x100, &[0xE12F_FF10]); // bx r0
    mem.load_thumb(0x200, &[0x4708]); // bx r1
    let mut cpu = arm_at(&mut mem, 0x100);
    cpu.regs.set(0, 0x201);
    cpu.regs.set(1, 0x300);
    cpu.step(&mut mem);
    assert!(cpu.thumb());
    assert_eq!(cpu.next_pc(), 0x200);
    assert_eq!(cpu.regs.get(PC), 0x204, "THUMB r15 reads PC+4");
    cpu.step(&mut mem);
    assert!(!cpu.thumb());
    assert_eq!(cpu.next_pc(), 0x300);
    assert_eq!(cpu.regs.get(PC), 0x308, "ARM r15 reads PC+8");
}

/// With one cycle per access, the totals are the S/N/I sums from the
/// ARM7TDMI data sheet.
#[test]
fn instruction_timings() {
    let cases: &[(u32, u32, &str)] = &[
        (0xE3A0_0001, 1, "mov r0, #1: 1S"),
        (0xE1A0_0211, 2, "mov r0, r1, lsl r2: 1S + 1I"),
        (0xE591_0000, 3, "ldr r0, [r1]: 1S + 1N + 1I"),
        (0xE581_0000, 2, "str r0, [r1]: 2N"),
        (0xE1D1_00B0, 3, "ldrh r0, [r1]: 1S + 1N + 1I"),
        (0xE891_001E, 6, "ldmia r1, {r1-r4}: 4S + 1N + 1I"),
        (0xE881_001E, 5, "stmia r1, {r1-r4}: 3S + 2N"),
        (0xE001_0290, 2, "mul r1, r0, r2 (small r2): 1S + 1I"),
        (0xE101_0092, 4, "swp r0, r2, [r1]: 1S + 2N + 1I"),
        (0xEA00_0000, 3, "b: 2S + 1N"),
        (0xE591_F000, 5, "ldr pc, [r1]: 1S + 1N + 1I + refill"),
        (0xE1A0_F00E, 3, "mov pc, lr: 2S + 1N"),
    ];
    for &(word, expected, name) in cases {
        let mut mem = Ram::new();
        mem.load_arm(0x100, &[word]);
        let mut cpu = arm_at(&mut mem, 0x100);
        cpu.regs.set(1, 0x2000);
        cpu.regs.set(2, 3);
        cpu.regs.set(LR, 0x300);
        assert_eq!(cpu.step(&mut mem), expected, "{name}");
    }

    // A large multiplier costs more internal cycles.
    let mut mem = Ram::new();
    mem.load_arm(0x100, &[0xE001_0290]);
    let mut cpu = arm_at(&mut mem, 0x100);
    cpu.regs.set(2, 0x1234_5678);
    assert_eq!(
        cpu.step(&mut mem),
        5,
        "mul with a 4-byte multiplier: 1S + 4I"
    );

    let thumb: &[(u16, u32, &str)] = &[
        (0x2001, 1, "movs r0, #1: 1S"),
        (0x4090, 2, "lsl r0, r2: 1S + 1I"),
        (0x6808, 3, "ldr r0, [r1]: 1S + 1N + 1I"),
        (0x6008, 2, "str r0, [r1]: 2N"),
        (0xBC0E, 5, "pop {r1-r3}: 3S + 1N + 1I"),
        (0xB40E, 4, "push {r1-r3}: 2S + 2N"),
        (0xE000, 3, "b: 2S + 1N"),
    ];
    for &(half, expected, name) in thumb {
        let mut mem = Ram::new();
        mem.load_thumb(0x200, &[half]);
        let mut cpu = thumb_at(&mut mem, 0x200);
        cpu.regs.set(1, 0x2000);
        cpu.regs.set(2, 3);
        cpu.regs.set(SP, 0x3000);
        assert_eq!(cpu.step(&mut mem), expected, "{name}");
    }
}

#[test]
fn thumb_branches() {
    let mut mem = Ram::new();
    // 0x200: b +4 (offset 2 halfwords -> target 0x204+4 = 0x208)
    mem.load_thumb(0x200, &[0xE002]);
    // 0x208: bne -6 -> 0x20C - 6 = 0x206 ; then beq
    mem.load_thumb(0x208, &[0xD1FD]);
    let mut cpu = arm_at(&mut mem, 0x200);
    cpu.regs.cpsr.set_thumb(true);
    cpu.flush_pipeline(&mut mem, 0x200);
    cpu.step(&mut mem);
    assert_eq!(cpu.next_pc(), 0x208);
    cpu.step(&mut mem);
    assert_eq!(cpu.next_pc(), 0x206);
    cpu.regs.cpsr.set_z(true);
    cpu.flush_pipeline(&mut mem, 0x208);
    mem.take_access_cycles();
    assert_eq!(cpu.step(&mut mem), 1, "failed condition: 1S");
    assert_eq!(cpu.next_pc(), 0x20A);
}

#[test]
fn thumb_long_branch_link() {
    let mut mem = Ram::new();
    // bl 0x400 from 0x200: pc = 0x204, offset = 0x1FC
    // hi = F000 | (0x1FC >> 12) = F000 ; lo = F800 | ((0x1FC >> 1) & 0x7FF) = F8FE
    mem.load_thumb(0x200, &[0xF000, 0xF8FE]);
    let mut cpu = arm_at(&mut mem, 0x200);
    cpu.regs.cpsr.set_thumb(true);
    cpu.flush_pipeline(&mut mem, 0x200);
    cpu.step(&mut mem);
    cpu.step(&mut mem);
    assert_eq!(cpu.next_pc(), 0x400);
    assert_eq!(cpu.regs.get(LR), 0x205);
}

#[test]
fn swi_enters_supervisor_mode() {
    let mut mem = Ram::new();
    mem.load_arm(0x100, &[0xEF00_0001]); // swi 1
    let mut cpu = arm_at(&mut mem, 0x100);
    cpu.regs.cpsr.set_c(true);
    cpu.step(&mut mem);
    assert_eq!(cpu.regs.mode(), Mode::Supervisor);
    assert_eq!(cpu.next_pc(), 0x08);
    assert_eq!(cpu.regs.get(LR), 0x104);
    assert!(cpu.regs.cpsr.irq_disabled());
    let spsr = cpu.regs.spsr().unwrap();
    assert!(spsr.c());
    assert_eq!(spsr.mode(), Some(Mode::System));
}

#[test]
fn thumb_swi_returns_to_arm_state_handler() {
    let mut mem = Ram::new();
    mem.load_thumb(0x200, &[0xDF02]);
    let mut cpu = arm_at(&mut mem, 0x200);
    cpu.regs.cpsr.set_thumb(true);
    cpu.flush_pipeline(&mut mem, 0x200);
    cpu.step(&mut mem);
    assert!(!cpu.thumb());
    assert_eq!(cpu.next_pc(), 0x08);
    assert_eq!(cpu.regs.get(LR), 0x202);
    assert!(cpu.regs.spsr().unwrap().thumb());
}

#[test]
fn irq_return_address_is_next_plus_four_in_both_states() {
    let mut mem = Ram::new();
    mem.load_arm(0x100, &[0xE1A0_0000; 4]);
    let mut cpu = arm_at(&mut mem, 0x100);
    cpu.step(&mut mem);
    cpu.raise_irq(&mut mem);
    assert_eq!(cpu.regs.mode(), Mode::Irq);
    assert_eq!(cpu.regs.get(LR), 0x108, "next instruction 0x104 + 4");
    assert_eq!(cpu.next_pc(), 0x18);
    assert!(cpu.regs.cpsr.irq_disabled());

    mem.load_thumb(0x200, &[0x46C0; 4]); // nop
    let mut cpu = arm_at(&mut mem, 0x200);
    cpu.regs.cpsr.set_thumb(true);
    cpu.flush_pipeline(&mut mem, 0x200);
    cpu.step(&mut mem);
    cpu.raise_irq(&mut mem);
    assert!(!cpu.thumb());
    assert_eq!(cpu.regs.get(LR), 0x206, "next instruction 0x202 + 4");
    assert!(cpu.regs.spsr().unwrap().thumb());
}

#[test]
fn hle_swi_is_recorded_instead_of_taken() {
    let mut mem = Ram::new();
    mem.load_arm(0x100, &[0xEF05_0000]); // swi 0x50000: ARM form of call 5
    let mut cpu = arm_at(&mut mem, 0x100);
    cpu.hle_swi = true;
    cpu.step(&mut mem);
    assert_eq!(cpu.take_swi(), Some(5));
    assert_eq!(cpu.take_swi(), None);
    assert_eq!(cpu.regs.mode(), Mode::System);
    assert_eq!(cpu.next_pc(), 0x104);
}

#[test]
fn undefined_instruction_traps() {
    let mut mem = Ram::new();
    mem.load_arm(0x100, &[0xE780_1012]);
    let mut cpu = arm_at(&mut mem, 0x100);
    cpu.step(&mut mem);
    assert_eq!(cpu.regs.mode(), Mode::Undefined);
    assert_eq!(cpu.next_pc(), 0x04);
}
