use tuiba_core::bios::call;
use tuiba_core::bios::service;
use tuiba_core::bios::trig::{affine_matrix, arctan2, sin_cos};
use tuiba_core::memory::{Bus, Cartridge};
use tuiba_core::Cpu;

#[test]
fn sines_are_the_rounded_real_ones() {
    for theta in 0..256u16 {
        let angle = f64::from(theta) / 256.0 * std::f64::consts::TAU;
        let expected = (
            (angle.sin() * 256.0).round() as i32,
            (angle.cos() * 256.0).round() as i32,
        );
        assert_eq!(sin_cos(theta), expected, "{theta}");
    }
    assert_eq!(sin_cos(0x140), sin_cos(0x40), "angles wrap");
}

#[test]
fn angles_are_the_rounded_real_ones() {
    for x in (-32768i32..=32767).step_by(523) {
        for y in (-32768i32..=32767).step_by(617) {
            let angle = f64::from(y).atan2(f64::from(x)) / std::f64::consts::TAU;
            let expected = ((angle * 65536.0).round() as i32 as u32) & 0xFFFF;
            assert_eq!(arctan2(x as u16, y as u16), expected, "({x}, {y})");
        }
    }
    assert_eq!(arctan2(0, 0), 0);
}

#[test]
fn a_quarter_turn_matrix() {
    assert_eq!(affine_matrix(0x100, 0x100, 0), [0x100, 0, 0, 0x100]);
    assert_eq!(affine_matrix(0x100, 0x80, 64), [0, -0x100, 0x80, 0]);
}

#[test]
fn square_roots_are_exact_from_below() {
    let mut bus = Bus::new(Cartridge::from_bytes(vec![0; 0xC0]).unwrap());
    for n in [0u32, 1, 2, 3, 4, 15, 16, 17, 999_999, u32::MAX] {
        let mut cpu = Cpu::new();
        cpu.regs.set(0, n);
        service(call::SQRT, &mut cpu, &mut bus);
        let root = u64::from(cpu.regs.get(0));
        assert!(root * root <= u64::from(n) && u64::from(n) < (root + 1) * (root + 1), "{n}");
    }
}

#[test]
fn axes_and_diagonals_are_exact() {
    for n in [1i16, 2, 77, 0x7FFF] {
        let angle = |x: i16, y: i16| arctan2(x as u16, y as u16);
        assert_eq!(angle(n, 0), 0);
        assert_eq!(angle(n, n), 0x2000);
        assert_eq!(angle(0, n), 0x4000);
        assert_eq!(angle(-n, n), 0x6000);
        assert_eq!(angle(-n, 0), 0x8000);
        assert_eq!(angle(-n, -n), 0xA000);
        assert_eq!(angle(0, -n), 0xC000);
        assert_eq!(angle(n, -n), 0xE000);
    }
}

#[test]
fn both_divisions_agree_and_the_one_overflow_wraps() {
    let mut bus = Bus::new(Cartridge::from_bytes(vec![0; 0xC0]).unwrap());
    for (num, den) in [(7, 2), (-7, 2), (7, -2), (i32::MIN, -1), (i32::MIN, 1), (-5, 0)] {
        let (mut div, mut arm) = (Cpu::new(), Cpu::new());
        div.regs.set(0, num as u32);
        div.regs.set(1, den as u32);
        arm.regs.set(0, den as u32);
        arm.regs.set(1, num as u32);
        service(call::DIV, &mut div, &mut bus);
        service(call::DIV_ARM, &mut arm, &mut bus);
        for i in [0, 1, 3] {
            assert_eq!(div.regs.get(i), arm.regs.get(i), "r{i} of {num} / {den}");
        }
        let (q, r) = (div.regs.get(0) as i32, div.regs.get(1) as i32);
        if den != 0 {
            assert_eq!(q.wrapping_mul(den).wrapping_add(r), num);
        } else {
            assert_eq!((q, r), (-1, -5));
        }
        assert_eq!(div.regs.get(3), q.unsigned_abs());
    }
}
