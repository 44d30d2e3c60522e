use tuiba_core::cpu::{Cpu, Mode};
use tuiba_core::cpu::registers::{Cpsr, LR};
use tuiba_core::memory::Memory;

/// Flat 64 KiB RAM for CPU tests; addresses wrap.
struct Ram {
    bytes: Vec<u8>,
    accesses: u32,
}

#[allow(dead_code)]
impl Ram {
    fn new() -> Self {
        Self {
            bytes: vec![0; 0x1_0000],
            accesses: 0,
        }
    }

    fn byte(&self, address: u32) -> u8 {
        self.bytes[self.idx(address)]
    }

    fn set_byte(&mut self, address: u32, value: u8) {
        let i = self.idx(address);
        self.bytes[i] = value;
    }

    /// Assembles pre-encoded ARM words at `base`.
    fn load_arm(&mut self, base: u32, words: &[u32]) {
        for (i, w) in words.iter().enumerate() {
            self.write32(base + 4 * i as u32, *w);
        }
    }

    /// Assembles pre-encoded THUMB halfwords at `base`.
    fn load_thumb(&mut self, base: u32, halves: &[u16]) {
        for (i, h) in halves.iter().enumerate() {
            self.write16(base + 2 * i as u32, *h);
        }
    }

    fn idx(&self, address: u32) -> usize {
        address as usize % self.bytes.len()
    }
}

/// Every access costs one cycle, so instruction timings in tests
/// read as plain S/N/I counts.
impl Memory for Ram {
    type State = ();

    // What the contracts speak of; never called.
    fn wf(&self) -> bool {
        true
    }
    fn state(&self) {}
    fn value8(_: (), _: u32) -> u8 {
        0
    }
    fn value16(_: (), _: u32) -> u16 {
        0
    }
    fn value32(_: (), _: u32) -> u32 {
        0
    }
    fn loaded8(_: (), _: u32) {}
    fn loaded16(_: (), _: u32) {}
    fn loaded32(_: (), _: u32) {}
    fn stored8(_: (), _: u32, _: u8) {}
    fn stored16(_: (), _: u32, _: u16) {}
    fn stored32(_: (), _: u32, _: u32) {}
    fn elapsed(_: ()) -> u32 {
        0
    }
    fn settled(_: ()) {}
    fn idled(_: (), _: u32) {}

    fn read8(&mut self, a: u32) -> u8 {
        self.accesses += 1;
        self.byte(a)
    }
    fn read16(&mut self, a: u32) -> u16 {
        self.accesses += 1;
        u16::from_le_bytes([self.byte(a), self.byte(a + 1)])
    }
    fn read32(&mut self, a: u32) -> u32 {
        self.accesses += 1;
        u32::from_le_bytes([
            self.byte(a),
            self.byte(a + 1),
            self.byte(a + 2),
            self.byte(a + 3),
        ])
    }
    fn write8(&mut self, a: u32, v: u8) {
        self.accesses += 1;
        self.set_byte(a, v);
    }
    fn write16(&mut self, a: u32, v: u16) {
        self.accesses += 1;
        for (i, b) in v.to_le_bytes().into_iter().enumerate() {
            self.set_byte(a + i as u32, b);
        }
    }
    fn write32(&mut self, a: u32, v: u32) {
        self.accesses += 1;
        for (i, b) in v.to_le_bytes().into_iter().enumerate() {
            self.set_byte(a + i as u32, b);
        }
    }
    fn take_access_cycles(&mut self) -> u32 {
        std::mem::take(&mut self.accesses)
    }
    fn idle(&mut self, _cycles: u32) {}
}

/// A CPU in System mode, ARM state, about to execute the word at `pc`.
fn arm_at(mem: &mut Ram, pc: u32) -> Cpu {
    let mut cpu = Cpu::new();
    cpu.reset(mem);
    cpu.regs.switch_mode(Mode::System);
    cpu.flush_pipeline(mem, pc);
    // Setup accesses must not count against the first instruction.
    mem.take_access_cycles();
    cpu
}

/// ARM data processing with a rotated 8-bit immediate (`AL` condition).
fn dp_imm(opcode: u32, s: bool, rn: u32, rd: u32, imm8: u32, rot4: u32) -> u32 {
    0xE200_0000
        | (opcode << 21)
        | (u32::from(s) << 20)
        | (rn << 16)
        | (rd << 12)
        | (rot4 << 8)
        | imm8
}

#[test]
fn mov_and_add_immediate() {
    let mut mem = Ram::new();
    // mov r0, #1 ; add r1, r0, #0xFF000000 (0xFF ror 8) ; add r2, r1, r0
    mem.load_arm(
        0x100,
        &[
            dp_imm(0xD, false, 0, 0, 1, 0),
            dp_imm(0x4, false, 0, 1, 0xFF, 4),
            0xE081_2000,
        ],
    );
    let mut cpu = arm_at(&mut mem, 0x100);
    for _ in 0..3 {
        cpu.step(&mut mem);
    }
    assert_eq!(cpu.regs.get(0), 1);
    assert_eq!(cpu.regs.get(1), 0xFF00_0001);
    assert_eq!(cpu.regs.get(2), 0xFF00_0002);
}

#[test]
fn subs_sets_flags() {
    let mut mem = Ram::new();
    mem.load_arm(0x100, &[dp_imm(0x2, true, 0, 0, 1, 0)]); // subs r0, r0, #1
    let mut cpu = arm_at(&mut mem, 0x100);
    cpu.regs.set(0, 1);
    cpu.step(&mut mem);
    assert_eq!(cpu.regs.get(0), 0);
    assert!(cpu.regs.cpsr.z() && cpu.regs.cpsr.c() && !cpu.regs.cpsr.n() && !cpu.regs.cpsr.v());

    cpu.flush_pipeline(&mut mem, 0x100);
    cpu.step(&mut mem); // 0 - 1
    assert_eq!(cpu.regs.get(0), 0xFFFF_FFFF);
    assert!(!cpu.regs.cpsr.z() && !cpu.regs.cpsr.c() && cpu.regs.cpsr.n());
}

#[test]
fn adds_overflow() {
    let mut mem = Ram::new();
    mem.load_arm(0x100, &[0xE090_0001]); // adds r0, r0, r1
    let mut cpu = arm_at(&mut mem, 0x100);
    cpu.regs.set(0, 0x7FFF_FFFF);
    cpu.regs.set(1, 1);
    cpu.step(&mut mem);
    assert_eq!(cpu.regs.get(0), 0x8000_0000);
    assert!(cpu.regs.cpsr.v() && cpu.regs.cpsr.n() && !cpu.regs.cpsr.c());
}

#[test]
fn cmp_does_not_write_rd() {
    let mut mem = Ram::new();
    mem.load_arm(0x100, &[0xE150_0001]); // cmp r0, r1
    let mut cpu = arm_at(&mut mem, 0x100);
    cpu.regs.set(0, 5);
    cpu.regs.set(1, 5);
    cpu.step(&mut mem);
    assert_eq!(cpu.regs.get(0), 5);
    assert!(cpu.regs.cpsr.z() && cpu.regs.cpsr.c());
}

#[test]
fn logical_ops_use_shifter_carry() {
    let mut mem = Ram::new();
    // movs r0, r1, lsl #1 ; ands r2, r0, r1, lsr #4 ; tst r0, #0
    mem.load_arm(0x100, &[0xE1B0_0081, 0xE010_2221, 0xE310_0000]);
    let mut cpu = arm_at(&mut mem, 0x100);
    cpu.regs.set(1, 0x8000_0018);
    cpu.step(&mut mem);
    assert_eq!(cpu.regs.get(0), 0x30);
    assert!(cpu.regs.cpsr.c(), "carry out of LSL");
    cpu.step(&mut mem);
    assert_eq!(cpu.regs.get(2), 0x30 & 0x0800_0001);
    assert!(cpu.regs.cpsr.c(), "carry out of LSR #4 of ...0x18 is bit 3");
    cpu.step(&mut mem);
    assert!(cpu.regs.cpsr.z());
    assert!(cpu.regs.cpsr.c(), "rotate 0 keeps carry");
}

#[test]
fn register_shift_reads_pc_plus_12() {
    let mut mem = Ram::new();
    mem.load_arm(0x100, &[0xE1A0_000F, 0xE1A0_121F]); // mov r0, pc ; mov r1, pc, lsl r2
    let mut cpu = arm_at(&mut mem, 0x100);
    cpu.regs.set(2, 0);
    cpu.step(&mut mem);
    cpu.step(&mut mem);
    assert_eq!(cpu.regs.get(0), 0x108);
    assert_eq!(cpu.regs.get(1), 0x110);
}

#[test]
fn writing_pc_flushes_pipeline() {
    let mut mem = Ram::new();
    mem.load_arm(0x100, &[0xE1A0_F000]); // mov pc, r0
    let mut cpu = arm_at(&mut mem, 0x100);
    cpu.regs.set(0, 0x203); // misaligned bits dropped
    cpu.step(&mut mem);
    assert_eq!(cpu.next_pc(), 0x200);
}

#[test]
fn movs_pc_lr_restores_spsr() {
    let mut mem = Ram::new();
    mem.load_arm(0x100, &[0xE1B0_F00E]); // movs pc, lr
    let mut cpu = arm_at(&mut mem, 0x100);
    cpu.regs.switch_mode(Mode::Supervisor);
    cpu.regs.set(LR, 0x300);
    cpu.regs.set_spsr(Cpsr(0x2000_0010)); // C set, User mode
    cpu.step(&mut mem);
    assert_eq!(cpu.regs.mode(), Mode::User);
    assert!(cpu.regs.cpsr.c());
    assert_eq!(cpu.next_pc(), 0x300);
}

#[test]
fn mrs_msr_round_trip() {
    let mut mem = Ram::new();
    // mrs r0, cpsr ; orr r0, r0, #0x80000000 ; msr cpsr_f, r0 ; msr cpsr_c, #0x12
    mem.load_arm(0x100, &[0xE10F_0000, 0xE380_0102, 0xE128_F000, 0xE321_F012]);
    let mut cpu = arm_at(&mut mem, 0x100);
    cpu.step(&mut mem);
    assert_eq!(cpu.regs.get(0), cpu.regs.cpsr.0);
    cpu.step(&mut mem);
    cpu.step(&mut mem);
    assert!(cpu.regs.cpsr.n());
    assert_eq!(cpu.regs.mode(), Mode::System);
    cpu.step(&mut mem);
    assert_eq!(
        cpu.regs.mode(),
        Mode::Irq,
        "msr control field switches mode"
    );
    assert!(cpu.regs.cpsr.n(), "flag field untouched");
}

#[test]
fn user_mode_msr_cannot_change_mode() {
    let mut mem = Ram::new();
    mem.load_arm(0x100, &[0xE321_F013]); // msr cpsr_c, #0x13
    let mut cpu = arm_at(&mut mem, 0x100);
    cpu.regs.switch_mode(Mode::User);
    cpu.step(&mut mem);
    assert_eq!(cpu.regs.mode(), Mode::User);
}

#[test]
fn multiply_variants() {
    let mut mem = Ram::new();
    // mul r0, r1, r2 ; mla r3, r1, r2, r0 ; umull r4, r5, r1, r2 ; smull r6, r7, r1, r2
    mem.load_arm(0x100, &[0xE000_0291, 0xE023_0291, 0xE085_4291, 0xE0C7_6291]);
    let mut cpu = arm_at(&mut mem, 0x100);
    cpu.regs.set(1, 0xFFFF_FFFF); // -1
    cpu.regs.set(2, 3);
    for _ in 0..4 {
        cpu.step(&mut mem);
    }
    assert_eq!(cpu.regs.get(0), 0xFFFF_FFFD);
    assert_eq!(cpu.regs.get(3), 0xFFFF_FFFA);
    assert_eq!((cpu.regs.get(5), cpu.regs.get(4)), (2, 0xFFFF_FFFD));
    assert_eq!(
        (cpu.regs.get(7), cpu.regs.get(6)),
        (0xFFFF_FFFF, 0xFFFF_FFFD)
    );
}

#[test]
fn umlal_accumulates_and_sets_flags() {
    let mut mem = Ram::new();
    mem.load_arm(0x100, &[0xE0F1_0392]); // umlals r0, r1, r2, r3
    let mut cpu = arm_at(&mut mem, 0x100);
    cpu.regs.set(0, 1);
    cpu.regs.set(1, 0x8000_0000);
    cpu.regs.set(2, 2);
    cpu.regs.set(3, 3);
    cpu.step(&mut mem);
    assert_eq!((cpu.regs.get(1), cpu.regs.get(0)), (0x8000_0000, 7));
    assert!(cpu.regs.cpsr.n() && !cpu.regs.cpsr.z());
}
