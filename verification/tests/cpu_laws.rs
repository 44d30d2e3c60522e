use tuiba_core::cpu::alu::add_with_carry;
use tuiba_core::cpu::registers::{Cpsr, Registers, LR, PC, SP};
use tuiba_core::cpu::{Exception, Mode};
use tuiba_core::memory::{base, Bus, Cartridge, Memory};
use tuiba_core::Cpu;

const MODES: [Mode; 7] = [
    Mode::User,
    Mode::Fiq,
    Mode::Irq,
    Mode::Supervisor,
    Mode::Abort,
    Mode::Undefined,
    Mode::System,
];

/// A bus whose IWRAM holds `words` from its start.
fn bus_with(words: &[u32]) -> Bus {
    let mut bus = Bus::new(Cartridge::from_bytes(vec![0; 0xC0]).unwrap());
    for (i, &word) in words.iter().enumerate() {
        bus.write32(base::IWRAM + 4 * i as u32, word);
    }
    bus
}

/// A System-mode CPU about to run the start of IWRAM.
fn cpu_in(bus: &mut Bus) -> Cpu {
    let mut cpu = Cpu::new();
    cpu.reset(bus);
    cpu.regs.switch_mode(Mode::System);
    cpu.flush_pipeline(bus, base::IWRAM);
    cpu
}

fn visible(regs: &Registers) -> Vec<u32> {
    (0..16).map(|i| regs.get(i)).collect()
}

#[test]
fn every_mode_switch_can_be_undone() {
    for from in MODES {
        for to in MODES {
            let mut regs = Registers::new();
            regs.switch_mode(from);
            for i in 0..16 {
                regs.set(i, 0x100 + i as u32);
            }
            let before = (visible(&regs), regs.cpsr);
            regs.switch_mode(to);
            regs.switch_mode(from);
            assert_eq!((visible(&regs), regs.cpsr), before, "{from:?} -> {to:?}");
        }
    }
}

#[test]
fn user_registers_are_reached_from_every_mode() {
    for mode in MODES {
        for i in 0..15 {
            let mut regs = Registers::new();
            regs.switch_mode(mode);
            regs.set_user(i, 0xABCD);
            assert_eq!(regs.get_user(i), 0xABCD);
            regs.switch_mode(Mode::User);
            assert_eq!(regs.get(i), 0xABCD, "r{i} from {mode:?}");
        }
    }
}

#[test]
fn modes_round_trip_through_their_bits() {
    for mode in MODES {
        assert_eq!(Mode::from_bits(mode.bits()), Some(mode));
    }
    assert_eq!(Mode::from_bits(0x14), None);
}

#[test]
fn a_valid_status_is_installed_exactly() {
    let mut regs = Registers::new();
    regs.set_cpsr(Cpsr(0xA000_0031));
    assert_eq!(regs.cpsr, Cpsr(0xA000_0031));
    assert_eq!(regs.mode(), Mode::Fiq);
    assert!(regs.cpsr.thumb());
}

#[test]
fn exceptions_save_what_their_return_restores() {
    // swi 0 ; then, at the vector, movs pc, lr.
    let mut bus = bus_with(&[0xEF00_0000, 0xE1A0_0000]);
    bus.poke_bios(0x08, 0xE1B0_F00E);
    let mut cpu = cpu_in(&mut bus);
    cpu.regs.set(SP, 0x1234);
    cpu.regs.set(LR, 0x5678);
    cpu.regs.cpsr.set_c(true);
    cpu.regs.cpsr.set_v(true);
    let (registers, status) = (visible(&cpu.regs), cpu.regs.cpsr);
    cpu.step(&mut bus);
    assert_eq!(cpu.next_pc(), Exception::SoftwareInterrupt.vector());
    assert_eq!(cpu.regs.mode(), Exception::SoftwareInterrupt.mode());
    assert_eq!(cpu.regs.spsr(), Some(status));
    assert!(cpu.regs.cpsr.irq_disabled());
    cpu.step(&mut bus);
    assert_eq!(cpu.regs.cpsr, status);
    assert_eq!(visible(&cpu.regs)[..15], registers[..15]);
    assert_eq!(cpu.next_pc(), base::IWRAM + 4);
}

#[test]
fn vectors_and_modes_of_exceptions() {
    let cases = [
        (Exception::Reset, 0x00, Mode::Supervisor),
        (Exception::Undefined, 0x04, Mode::Undefined),
        (Exception::SoftwareInterrupt, 0x08, Mode::Supervisor),
        (Exception::PrefetchAbort, 0x0C, Mode::Abort),
        (Exception::DataAbort, 0x10, Mode::Abort),
        (Exception::Irq, 0x18, Mode::Irq),
        (Exception::Fiq, 0x1C, Mode::Fiq),
    ];
    for (exception, vector, mode) in cases {
        assert_eq!(exception.vector(), vector);
        assert_eq!(exception.mode(), mode);
    }
}

#[test]
fn a_refill_aligns_and_reads_ahead() {
    let mut bus = bus_with(&[0; 8]);
    let mut cpu = cpu_in(&mut bus);
    cpu.flush_pipeline(&mut bus, base::IWRAM + 7);
    assert_eq!(cpu.next_pc(), base::IWRAM + 4);
    assert_eq!(cpu.regs.get(PC), base::IWRAM + 12);
    cpu.regs.cpsr.set_thumb(true);
    cpu.flush_pipeline(&mut bus, base::IWRAM + 7);
    assert_eq!(cpu.next_pc(), base::IWRAM + 6);
    assert_eq!(cpu.regs.get(PC), base::IWRAM + 10);
}

#[test]
fn conditions_come_in_opposite_pairs() {
    for flags in 0..16u32 {
        let cpsr = Cpsr(flags << 28);
        for code in (0..14).step_by(2) {
            assert_ne!(cpsr.condition(code), cpsr.condition(code + 1), "{code} of {flags:#b}");
        }
        assert!(cpsr.condition(14));
        assert!(!cpsr.condition(15));
    }
}

#[test]
fn subtraction_is_addition_of_the_complement() {
    for (a, b) in [(5u32, 3u32), (3, 5), (0, 0), (0x8000_0000, 1), (1, 0x8000_0000)] {
        let (difference, carry, overflow) = add_with_carry(a, !b, true);
        assert_eq!(difference, a.wrapping_sub(b));
        assert_eq!(carry, a >= b);
        assert_eq!(overflow, (a as i32).checked_sub(b as i32).is_none());
    }
}

#[test]
fn pushed_registers_are_popped_again() {
    // stmfd sp!, {r0-r7} ; ldmfd sp!, {r0-r7}
    let mut bus = bus_with(&[0xE92D_00FF, 0xE8BD_00FF]);
    let mut cpu = cpu_in(&mut bus);
    cpu.regs.set(SP, base::EWRAM + 0x100);
    for i in 0..8 {
        cpu.regs.set(i, 0x1000 + i as u32);
    }
    cpu.step(&mut bus);
    assert_eq!(bus.read32(base::EWRAM + 0xE0), 0x1000);
    for i in 0..8 {
        cpu.regs.set(i, 0);
    }
    cpu.step(&mut bus);
    for i in 0..8 {
        assert_eq!(cpu.regs.get(i), 0x1000 + i as u32);
    }
    assert_eq!(cpu.regs.get(SP), base::EWRAM + 0x100);
}

#[test]
fn thumb_pop_returns_to_the_pushed_link_and_stays_in_thumb() {
    // push {r0, r3, lr} ; pop {r0, r3, pc}
    let mut bus = bus_with(&[0xBD09_B509]);
    let mut cpu = cpu_in(&mut bus);
    cpu.regs.cpsr.set_thumb(true);
    cpu.flush_pipeline(&mut bus, base::IWRAM);
    cpu.regs.set(SP, base::EWRAM + 0x40);
    cpu.regs.set(0, 0xAAAA);
    cpu.regs.set(3, 0xBBBB);
    for link in [base::IWRAM + 0x100, base::IWRAM + 0x101] {
        cpu.regs.set(LR, link);
        cpu.flush_pipeline(&mut bus, base::IWRAM);
        cpu.step(&mut bus);
        assert_eq!(cpu.regs.get(SP), base::EWRAM + 0x34);
        assert_eq!(bus.read32(base::EWRAM + 0x34), 0xAAAA, "lowest register lowest");
        cpu.regs.set(0, 1);
        cpu.regs.set(3, 2);
        cpu.step(&mut bus);
        assert_eq!(cpu.regs.get(SP), base::EWRAM + 0x40);
        assert_eq!((cpu.regs.get(0), cpu.regs.get(3)), (0xAAAA, 0xBBBB));
        assert_eq!(cpu.next_pc(), base::IWRAM + 0x100);
        assert!(cpu.thumb());
    }
}

#[test]
fn any_write_to_r15_is_a_jump() {
    let target = base::IWRAM + 0x200;
    // mul pc, r1, r2 ; umull pc, r3, r1, r2 ; swp pc, r1, [r4] ; ldr r5, [pc, #0x1F8]!
    for op in [0xE00F_0291, 0xE083_F291, 0xE104_F091, 0xE5BF_51F8] {
        let mut bus = bus_with(&[op]);
        bus.write32(base::EWRAM, target);
        let mut cpu = cpu_in(&mut bus);
        cpu.regs.set(1, target);
        cpu.regs.set(2, 1);
        cpu.regs.set(4, base::EWRAM);
        bus.write32(target, 0xE3A0_0001);
        cpu.step(&mut bus);
        assert_eq!(cpu.next_pc(), target, "{op:#X}");
        // mov r0, #1
        cpu.step(&mut bus);
        assert_eq!(cpu.regs.get(0), 1);
        assert_eq!(cpu.next_pc(), target + 4);
    }
}
