use tuiba_core::cpu::{Cpu, Mode};
use tuiba_core::cpu::registers::{Cpsr, LR, PC, SP};
use tuiba_core::memory::Memory;

/// Flat 64 KiB RAM for CPU tests; addresses wrap.
struct Ram {
    bytes: Vec<u8>,
    accesses: u32,
}

#[allow(dead_code)]
impl Ram {
    fn new() -> Self {
        Self {
            bytes: vec![0; 0x1_0000],
            accesses: 0,
        }
    }

    fn byte(&self, address: u32) -> u8 {
        self.bytes[self.idx(address)]
    }

    fn set_byte(&mut self, address: u32, value: u8) {
        let i = self.idx(address);
        self.bytes[i] = value;
    }

    /// Assembles pre-encoded ARM words at `base`.
    fn load_arm(&mut self, base: u32, words: &[u32]) {
        for (i, w) in words.iter().enumerate() {
            self.write32(base + 4 * i as u32, *w);
        }
    }

    /// Assembles pre-encoded THUMB halfwords at `base`.
    fn load_thumb(&mut self, base: u32, halves: &[u16]) {
        for (i, h) in halves.iter().enumerate() {
            self.write16(base + 2 * i as u32, *h);
        }
    }

    fn idx(&self, address: u32) -> usize {
        address as usize % self.bytes.len()
    }
}

/// Every access costs one cycle, so instruction timings in tests
/// read as plain S/N/I counts.
impl Memory for Ram {
    type State = ();

    // What the contracts speak of; never called.
    fn wf(&self) -> bool {
        true
    }
    fn state(&self) {}
    fn value8(_: (), _: u32) -> u8 {
        0
    }
    fn value16(_: (), _: u32) -> u16 {
        0
    }
    fn value32(_: (), _: u32) -> u32 {
        0
    }
    fn loaded8(_: (), _: u32) {}
    fn loaded16(_: (), _: u32) {}
    fn loaded32(_: (), _: u32) {}
    fn stored8(_: (), _: u32, _: u8) {}
    fn stored16(_: (), _: u32, _: u16) {}
    fn stored32(_: (), _: u32, _: u32) {}
    fn elapsed(_: ()) -> u32 {
        0
    }
    fn settled(_: ()) {}
    fn idled(_: (), _: u32) {}

    fn read8(&mut self, a: u32) -> u8 {
        self.accesses += 1;
        self.byte(a)
    }
    fn read16(&mut self, a: u32) -> u16 {
        self.accesses += 1;
        u16::from_le_bytes([self.byte(a), self.byte(a + 1)])
    }
    fn read32(&mut self, a: u32) -> u32 {
        self.accesses += 1;
        u32::from_le_bytes([
            self.byte(a),
            self.byte(a + 1),
            self.byte(a + 2),
            self.byte(a + 3),
        ])
    }
    fn write8(&mut self, a: u32, v: u8) {
        self.accesses += 1;
        self.set_byte(a, v);
    }
    fn write16(&mut self, a: u32, v: u16) {
        self.accesses += 1;
        for (i, b) in v.to_le_bytes().into_iter().enumerate() {
            self.set_byte(a + i as u32, b);
        }
    }
    fn write32(&mut self, a: u32, v: u32) {
        self.accesses += 1;
        for (i, b) in v.to_le_bytes().into_iter().enumerate() {
            self.set_byte(a + i as u32, b);
        }
    }
    fn take_access_cycles(&mut self) -> u32 {
        std::mem::take(&mut self.accesses)
    }
    fn idle(&mut self, _cycles: u32) {}
}

/// A CPU in System mode, ARM state, about to execute the word at `pc`.
fn arm_at(mem: &mut Ram, pc: u32) -> Cpu {
    let mut cpu = Cpu::new();
    cpu.reset(mem);
    cpu.regs.switch_mode(Mode::System);
    cpu.flush_pipeline(mem, pc);
    // Setup accesses must not count against the first instruction.
    mem.take_access_cycles();
    cpu
}

#[test]
fn ldr_str_immediate_offsets() {
    let mut mem = Ram::new();
    // str r1, [r0, #4] ; ldr r2, [r0, #4] ; ldrb r3, [r0, #5] ; strb r1, [r0, #8]
    mem.load_arm(0x100, &[0xE580_1004, 0xE590_2004, 0xE5D0_3005, 0xE5C0_1008]);
    let mut cpu = arm_at(&mut mem, 0x100);
    cpu.regs.set(0, 0x1000);
    cpu.regs.set(1, 0xAABB_CCDD);
    for _ in 0..4 {
        cpu.step(&mut mem);
    }
    assert_eq!(mem.read32(0x1004), 0xAABB_CCDD);
    assert_eq!(cpu.regs.get(2), 0xAABB_CCDD);
    assert_eq!(cpu.regs.get(3), 0xCC);
    assert_eq!(mem.read32(0x1008), 0xDD);
    assert_eq!(cpu.regs.get(0), 0x1000, "no writeback without W");
}

#[test]
fn pre_and_post_indexing_with_writeback() {
    let mut mem = Ram::new();
    // str r1, [r0, #4]! ; str r1, [r0], #-4 ; ldr r2, [r0, -r3, lsl #2]!
    mem.load_arm(0x100, &[0xE5A0_1004, 0xE400_1004, 0xE730_2103]);
    let mut cpu = arm_at(&mut mem, 0x100);
    cpu.regs.set(0, 0x1000);
    cpu.regs.set(1, 1);
    cpu.regs.set(3, 1);
    cpu.step(&mut mem);
    assert_eq!(cpu.regs.get(0), 0x1004);
    assert_eq!(mem.read32(0x1004), 1);
    cpu.step(&mut mem);
    assert_eq!(cpu.regs.get(0), 0x1000);
    assert_eq!(mem.read32(0x1004), 1);
    mem.write32(0xFFC, 0x77);
    cpu.step(&mut mem);
    assert_eq!(cpu.regs.get(0), 0xFFC);
    assert_eq!(cpu.regs.get(2), 0x77);
}

#[test]
fn ldr_misaligned_rotates_and_pc_relative() {
    let mut mem = Ram::new();
    mem.load_arm(0x100, &[0xE59F_0000, 0xE1A0_0000, 0x1234_5678, 0xE590_1001]);
    // ldr r0, [pc] -> loads word at 0x108 ; nop ; literal ; ldr r1, [r0, #1]
    let mut cpu = arm_at(&mut mem, 0x100);
    cpu.step(&mut mem);
    assert_eq!(cpu.regs.get(0), 0x1234_5678);
    cpu.regs.set(0, 0x108);
    cpu.flush_pipeline(&mut mem, 0x10C);
    cpu.step(&mut mem);
    assert_eq!(cpu.regs.get(1), 0x7812_3456);
}

#[test]
fn str_pc_stores_plus_12_and_ldr_pc_branches() {
    let mut mem = Ram::new();
    mem.load_arm(0x100, &[0xE580_F000, 0xE590_F000]); // str pc, [r0] ; ldr pc, [r0]
    let mut cpu = arm_at(&mut mem, 0x100);
    cpu.regs.set(0, 0x1000);
    cpu.step(&mut mem);
    assert_eq!(mem.read32(0x1000), 0x10C);
    mem.write32(0x1000, 0x203);
    cpu.step(&mut mem);
    assert_eq!(cpu.next_pc(), 0x200);
    assert!(!cpu.thumb(), "ARMv4 LDR pc does not switch state");
}

#[test]
fn halfword_and_signed_transfers() {
    let mut mem = Ram::new();
    // strh r1, [r0] ; ldrh r2, [r0] ; ldrsh r3, [r0] ; ldrsb r4, [r0, #1] ; ldrh r5, [r0, r6]
    mem.load_arm(
        0x100,
        &[
            0xE1C0_10B0,
            0xE1D0_20B0,
            0xE1D0_30F0,
            0xE1D0_40D1,
            0xE190_50B6,
        ],
    );
    let mut mem_cpu = arm_at(&mut mem, 0x100);
    let cpu = &mut mem_cpu;
    cpu.regs.set(0, 0x1000);
    cpu.regs.set(1, 0xFFFF_8001);
    cpu.regs.set(6, 1);
    for _ in 0..5 {
        cpu.step(&mut mem);
    }
    assert_eq!(mem.read16(0x1000), 0x8001);
    assert_eq!(cpu.regs.get(2), 0x8001);
    assert_eq!(cpu.regs.get(3), 0xFFFF_8001);
    assert_eq!(cpu.regs.get(4), 0xFFFF_FF80);
    assert_eq!(cpu.regs.get(5), 0x0100_0080, "misaligned LDRH rotates");
}

#[test]
fn push_pop_via_stmfd_ldmfd() {
    let mut mem = Ram::new();
    // stmfd sp!, {r0-r2, lr} ; ldmfd sp!, {r4-r6, pc}
    mem.load_arm(0x100, &[0xE92D_4007, 0xE8BD_8070]);
    let mut cpu = arm_at(&mut mem, 0x100);
    cpu.regs.set(SP, 0x2000);
    cpu.regs.set(0, 10);
    cpu.regs.set(1, 11);
    cpu.regs.set(2, 12);
    cpu.regs.set(LR, 0x300);
    cpu.step(&mut mem);
    assert_eq!(cpu.regs.get(SP), 0x1FF0);
    assert_eq!(mem.read32(0x1FF0), 10);
    assert_eq!(mem.read32(0x1FF4), 11);
    assert_eq!(mem.read32(0x1FF8), 12);
    assert_eq!(mem.read32(0x1FFC), 0x300);
    cpu.step(&mut mem);
    assert_eq!(cpu.regs.get(SP), 0x2000);
    assert_eq!(
        (cpu.regs.get(4), cpu.regs.get(5), cpu.regs.get(6)),
        (10, 11, 12)
    );
    assert_eq!(cpu.next_pc(), 0x300);
}

#[test]
fn all_four_addressing_modes_store_ascending() {
    let mut mem = Ram::new();
    // stmia r0, {r1,r2} ; stmib r0, {r1,r2} ; stmda r0, {r1,r2} ; stmdb r0, {r1,r2}
    mem.load_arm(0x100, &[0xE880_0006, 0xE980_0006, 0xE800_0006, 0xE900_0006]);
    let mut cpu = arm_at(&mut mem, 0x100);
    cpu.regs.set(1, 1);
    cpu.regs.set(2, 2);
    let expected = [
        (0x1000, 0x1004),
        (0x1004, 0x1008),
        (0xFFC, 0x1000),
        (0xFF8, 0xFFC),
    ];
    for (lo, hi) in expected {
        cpu.regs.set(0, 0x1000);
        mem.bytes[0xFF0..0x1010].fill(0);
        cpu.step(&mut mem);
        assert_eq!(mem.read32(lo), 1, "lo @ {lo:#x}");
        assert_eq!(mem.read32(hi), 2, "hi @ {hi:#x}");
    }
}

#[test]
fn stm_with_base_in_list_writeback_rules() {
    let mut mem = Ram::new();
    // stmia r0!, {r0, r1} ; stmia r1!, {r0, r1}
    mem.load_arm(0x100, &[0xE8A0_0003, 0xE8A1_0003]);
    let mut cpu = arm_at(&mut mem, 0x100);
    cpu.regs.set(0, 0x1000);
    cpu.regs.set(1, 0x2000);
    cpu.step(&mut mem);
    assert_eq!(
        mem.read32(0x1000),
        0x1000,
        "base first in list: original value"
    );
    assert_eq!(cpu.regs.get(0), 0x1008);
    cpu.step(&mut mem);
    assert_eq!(
        mem.read32(0x2004),
        0x2008,
        "base not first: written-back value"
    );
}

#[test]
fn ldm_with_base_in_list_loads_over_writeback() {
    let mut mem = Ram::new();
    mem.load_arm(0x100, &[0xE8B0_0003]); // ldmia r0!, {r0, r1}
    mem.write32(0x1000, 0x55);
    mem.write32(0x1004, 0x66);
    let mut cpu = arm_at(&mut mem, 0x100);
    cpu.regs.set(0, 0x1000);
    cpu.step(&mut mem);
    assert_eq!(cpu.regs.get(0), 0x55);
    assert_eq!(cpu.regs.get(1), 0x66);
}

#[test]
fn empty_list_quirk() {
    let mut mem = Ram::new();
    mem.load_arm(0x100, &[0xE8A0_0000]); // stmia r0!, {}
    let mut cpu = arm_at(&mut mem, 0x100);
    cpu.regs.set(0, 0x1000);
    cpu.step(&mut mem);
    assert_eq!(mem.read32(0x1000), 0x10C);
    assert_eq!(cpu.regs.get(0), 0x1040);
}

#[test]
fn s_bit_transfers_user_bank_and_restores_cpsr() {
    let mut mem = Ram::new();
    // stmia r0, {sp, lr}^ ; ldmia r0, {pc}^
    mem.load_arm(0x100, &[0xE8C0_6000, 0xE8D0_8000]);
    let mut cpu = arm_at(&mut mem, 0x100);
    cpu.regs.set(SP, 0xAAAA);
    cpu.regs.switch_mode(Mode::Irq);
    cpu.regs.set(SP, 0xBBBB);
    cpu.regs.set(0, 0x1000);
    cpu.regs.set_spsr(Cpsr(0x0000_001F));
    cpu.step(&mut mem);
    assert_eq!(mem.read32(0x1000), 0xAAAA, "User-bank sp stored");
    cpu.step(&mut mem);
    assert_eq!(cpu.regs.mode(), Mode::System);
    assert_eq!(cpu.next_pc(), 0xAAA8);
    let _ = PC;
}

#[test]
fn swap_word_and_byte() {
    let mut mem = Ram::new();
    mem.load_arm(0x100, &[0xE100_0091, 0xE142_3091]); // swp r0, r1, [r0] ; swpb r3, r1, [r2]
    mem.write32(0x1000, 0xDEAD_BEEF);
    mem.write8(0x2001, 0x42);
    let mut cpu = arm_at(&mut mem, 0x100);
    cpu.regs.set(0, 0x1000);
    cpu.regs.set(1, 0x1122_3344);
    cpu.regs.set(2, 0x2001);
    cpu.step(&mut mem);
    assert_eq!(cpu.regs.get(0), 0xDEAD_BEEF);
    assert_eq!(mem.read32(0x1000), 0x1122_3344);
    cpu.step(&mut mem);
    assert_eq!(cpu.regs.get(3), 0x42);
    assert_eq!(mem.read8(0x2001), 0x44);
}
