use tuiba_core::cpu::alu::{ShiftType, add_with_carry, shift_imm, shift_reg};

#[test]
fn lsl_immediate() {
    assert_eq!(
        shift_imm(ShiftType::Lsl, 0x8000_0001, 0, false),
        (0x8000_0001, false)
    );
    assert_eq!(
        shift_imm(ShiftType::Lsl, 0x8000_0001, 1, false),
        (0x2, true)
    );
    assert_eq!(
        shift_imm(ShiftType::Lsl, 0x1, 31, false),
        (0x8000_0000, false)
    );
}

#[test]
fn lsr_and_asr_zero_means_32() {
    assert_eq!(shift_imm(ShiftType::Lsr, 0x8000_0000, 0, false), (0, true));
    assert_eq!(
        shift_imm(ShiftType::Asr, 0x8000_0000, 0, false),
        (0xFFFF_FFFF, true)
    );
    assert_eq!(shift_imm(ShiftType::Asr, 0x4000_0000, 0, true), (0, false));
    assert_eq!(shift_imm(ShiftType::Lsr, 0xF0, 4, false), (0xF, false));
    assert_eq!(shift_imm(ShiftType::Lsr, 0xF8, 4, false), (0xF, true));
    assert_eq!(
        shift_imm(ShiftType::Asr, 0x8000_0000, 4, false),
        (0xF800_0000, false)
    );
}

#[test]
fn ror_zero_is_rrx() {
    assert_eq!(shift_imm(ShiftType::Ror, 0x3, 0, true), (0x8000_0001, true));
    assert_eq!(shift_imm(ShiftType::Ror, 0x2, 0, false), (0x1, false));
    assert_eq!(
        shift_imm(ShiftType::Ror, 0x1, 1, false),
        (0x8000_0000, true)
    );
}

#[test]
fn register_shift_edge_cases() {
    assert_eq!(shift_reg(ShiftType::Lsl, 0xFF, 0, true), (0xFF, true));
    assert_eq!(shift_reg(ShiftType::Lsl, 0x1, 32, false), (0, true));
    assert_eq!(shift_reg(ShiftType::Lsl, 0x1, 33, true), (0, false));
    assert_eq!(shift_reg(ShiftType::Lsr, 0x8000_0000, 32, false), (0, true));
    assert_eq!(
        shift_reg(ShiftType::Lsr, 0x8000_0000, 40, false),
        (0, false)
    );
    assert_eq!(
        shift_reg(ShiftType::Asr, 0x8000_0000, 40, false),
        (0xFFFF_FFFF, true)
    );
    assert_eq!(
        shift_reg(ShiftType::Ror, 0x8000_0001, 32, false),
        (0x8000_0001, true)
    );
    assert_eq!(
        shift_reg(ShiftType::Ror, 0x1, 33, false),
        (0x8000_0000, true)
    );
    assert_eq!(shift_reg(ShiftType::Ror, 0xF0, 0x104, false), (0xF, false));
}

#[test]
fn add_flags() {
    assert_eq!(add_with_carry(1, 2, false), (3, false, false));
    assert_eq!(add_with_carry(0xFFFF_FFFF, 1, false), (0, true, false));
    assert_eq!(
        add_with_carry(0x7FFF_FFFF, 1, false),
        (0x8000_0000, false, true)
    );
    assert_eq!(
        add_with_carry(0x8000_0000, 0x8000_0000, false),
        (0, true, true)
    );
    assert_eq!(add_with_carry(0xFFFF_FFFF, 0, true), (0, true, false));
}

#[test]
fn sub_via_add_not_b() {
    // 5 - 3 = 2, no borrow -> C set
    assert_eq!(add_with_carry(5, !3, true), (2, true, false));
    // 3 - 5 = -2, borrow -> C clear
    assert_eq!(add_with_carry(3, !5, true), (0xFFFF_FFFE, false, false));
    // 0x80000000 - 1 overflows
    assert_eq!(
        add_with_carry(0x8000_0000, !1, true),
        (0x7FFF_FFFF, true, true)
    );
    // SBC with borrow: 5 - 3 - 1 = 1
    assert_eq!(add_with_carry(5, !3, false), (1, true, false));
}
