use tuiba_core::cpu::Mode;
use tuiba_core::cpu::registers::{Cpsr, LR, Registers, SP};

#[test]
fn reset_state() {
    let r = Registers::new();
    assert_eq!(r.mode(), Mode::Supervisor);
    assert!(r.cpsr.irq_disabled());
    assert!(r.cpsr.fiq_disabled());
    assert!(!r.cpsr.thumb());
}

#[test]
fn condition_codes() {
    let mut c = Cpsr(0);
    assert!(c.condition(0xE));
    assert!(!c.condition(0xF));
    assert!(c.condition(0x1)); // NE
    c.set_z(true);
    assert!(c.condition(0x0)); // EQ
    assert!(c.condition(0x9)); // LS
    assert!(!c.condition(0x8)); // HI
    assert!(c.condition(0xD)); // LE
    c.set_z(false);
    c.set_n(true);
    c.set_v(false);
    assert!(c.condition(0xB)); // LT
    assert!(!c.condition(0xA)); // GE
    c.set_v(true);
    assert!(c.condition(0xC)); // GT
}

#[test]
fn set_nz_from_result() {
    let mut c = Cpsr(0);
    c.set_nz(0);
    assert!(c.z() && !c.n());
    c.set_nz(0x8000_0000);
    assert!(!c.z() && c.n());
}

#[test]
fn sp_lr_are_banked_per_mode() {
    let mut r = Registers::new();
    r.set(SP, 0x1000);
    r.set(LR, 0x1004);
    r.switch_mode(Mode::Irq);
    assert_eq!(r.get(SP), 0);
    r.set(SP, 0x2000);
    r.switch_mode(Mode::Supervisor);
    assert_eq!(r.get(SP), 0x1000);
    assert_eq!(r.get(LR), 0x1004);
    r.switch_mode(Mode::Irq);
    assert_eq!(r.get(SP), 0x2000);
    assert_eq!(r.mode(), Mode::Irq);
}

#[test]
fn user_and_system_share_a_bank() {
    let mut r = Registers::new();
    r.switch_mode(Mode::System);
    r.set(SP, 0x3000);
    r.switch_mode(Mode::User);
    assert_eq!(r.get(SP), 0x3000);
}

#[test]
fn fiq_banks_r8_to_r12() {
    let mut r = Registers::new();
    for i in 8..13 {
        r.set(i, i as u32);
    }
    r.switch_mode(Mode::Fiq);
    for i in 8..13 {
        assert_eq!(r.get(i), 0);
        r.set(i, 0xF0 + i as u32);
    }
    assert_eq!(r.get_user(10), 10);
    r.switch_mode(Mode::User);
    for i in 8..13 {
        assert_eq!(r.get(i), i as u32);
    }
    r.switch_mode(Mode::Fiq);
    assert_eq!(r.get(10), 0xFA);
}

#[test]
fn user_accessors_reach_through_bank() {
    let mut r = Registers::new();
    r.switch_mode(Mode::System);
    r.set(SP, 0xAAAA);
    r.switch_mode(Mode::Irq);
    r.set(SP, 0xBBBB);
    assert_eq!(r.get_user(SP), 0xAAAA);
    r.set_user(SP, 0xCCCC);
    assert_eq!(r.get(SP), 0xBBBB);
    r.switch_mode(Mode::User);
    assert_eq!(r.get(SP), 0xCCCC);
}

#[test]
fn spsr_only_in_exception_modes() {
    let mut r = Registers::new();
    r.set_spsr(Cpsr(0x1234_0010));
    assert_eq!(r.spsr(), Some(Cpsr(0x1234_0010)));
    r.switch_mode(Mode::User);
    assert_eq!(r.spsr(), None);
    r.set_spsr(Cpsr(1));
    r.switch_mode(Mode::Supervisor);
    assert_eq!(r.spsr(), Some(Cpsr(0x1234_0010)));
}

#[test]
fn set_cpsr_switches_mode_and_keeps_flags() {
    let mut r = Registers::new();
    r.set(SP, 0x10);
    r.set_cpsr(Cpsr(0x8000_0012));
    assert_eq!(r.mode(), Mode::Irq);
    assert!(r.cpsr.n());
    assert_eq!(r.get(SP), 0);
    // Reserved mode bits: flags applied, mode retained.
    r.set_cpsr(Cpsr(0x4000_0000));
    assert_eq!(r.mode(), Mode::Irq);
    assert!(r.cpsr.z() && !r.cpsr.n());
}
