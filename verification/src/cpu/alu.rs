//! Arithmetic helpers shared by the ARM and THUMB executors: the barrel
//! shifter and flag-producing add/subtract.

use vstd::prelude::*;

verus! {

broadcast use crate::bits::group_mask_bounds;

/// Barrel shifter operation (ARM bits 6:5, THUMB format 1/4 opcodes).
#[derive(Debug, Clone, Copy, PartialEq, Eq, Structural)]
pub enum ShiftType {
    /// Logical shift left.
    Lsl,
    /// Logical shift right.
    Lsr,
    /// Arithmetic shift right.
    Asr,
    /// Rotate right.
    Ror,
}

/// The shift that a two-bit field selects.
pub open spec fn shift_of(bits: u32) -> ShiftType {
    let field = bits & 0b11;
    if field == 0 {
        ShiftType::Lsl
    } else if field == 1 {
        ShiftType::Lsr
    } else if field == 2 {
        ShiftType::Asr
    } else {
        ShiftType::Ror
    }
}

impl ShiftType {
    /// Decodes a two-bit shift type field.
    #[must_use]
    pub fn from_bits(bits: u32) -> (kind: Self)
        ensures
            kind == shift_of(bits),
    {
        let field: u32 = bits & 0b11;
        match field {
            0b00 => Self::Lsl,
            0b01 => Self::Lsr,
            0b10 => Self::Asr,
            _ => Self::Ror,
        }
    }
}

/// `value` rotated right by `amount` (0–31) bits.
pub open spec fn rotated_right(value: u32, amount: u32) -> u32 {
    if amount == 0 {
        value
    } else {
        (value >> amount) | (value << ((32 - amount) as u32))
    }
}

/// Rotates `value` right by `amount` bits.
#[must_use]
pub fn rotate_right(value: u32, amount: u32) -> (rotated: u32)
    requires
        amount < 32,
    ensures
        rotated == rotated_right(value, amount),
{
    if amount == 0 {
        value
    } else {
        (value >> amount) | (value << (32 - amount))
    }
}

/// Bit `index` of `value`.
pub open spec fn bit(value: u32, index: u32) -> bool {
    (value >> index) & 1 != 0
}

/// What a shift by 1–31 yields: the result, and the last bit shifted out.
pub open spec fn shifted(kind: ShiftType, value: u32, amount: u32) -> (u32, bool) {
    match kind {
        ShiftType::Lsl => (value << amount, bit(value, (32 - amount) as u32)),
        ShiftType::Lsr => (value >> amount, bit(value, (amount - 1) as u32)),
        ShiftType::Asr => (((value as i32) >> amount) as u32, bit(value, (amount - 1) as u32)),
        ShiftType::Ror => (rotated_right(value, amount), bit(value, (amount - 1) as u32)),
    }
}

/// What an arithmetic shift right by 32 or more yields: the sign everywhere.
pub open spec fn sign_filled(value: u32) -> (u32, bool) {
    (((value as i32) >> 31u32) as u32, value >> 31 != 0)
}

/// What a shift by an immediate amount yields.
pub open spec fn shifted_imm(kind: ShiftType, value: u32, amount: u32, carry_in: bool) -> (
    u32,
    bool,
) {
    if amount != 0 {
        shifted(kind, value, amount)
    } else {
        match kind {
            ShiftType::Lsl => (value, carry_in),
            ShiftType::Lsr => (0, value >> 31 != 0),
            ShiftType::Asr => sign_filled(value),
            ShiftType::Ror => (((carry_in as u32) << 31) | (value >> 1), value & 1 != 0),
        }
    }
}

/// What a shift by a register amount (0–255) yields.
pub open spec fn shifted_by_byte(kind: ShiftType, value: u32, amount: u32, carry_in: bool) -> (
    u32,
    bool,
) {
    if amount == 0 {
        (value, carry_in)
    } else {
        match kind {
            ShiftType::Ror => if amount & 0x1F == 0 {
                (value, value >> 31 != 0)
            } else {
                shifted(kind, value, amount & 0x1F)
            },
            ShiftType::Lsl => if amount < 32 {
                shifted(kind, value, amount)
            } else {
                (0, amount == 32 && value & 1 != 0)
            },
            ShiftType::Lsr => if amount < 32 {
                shifted(kind, value, amount)
            } else {
                (0, amount == 32 && value >> 31 != 0)
            },
            ShiftType::Asr => if amount < 32 {
                shifted(kind, value, amount)
            } else {
                sign_filled(value)
            },
        }
    }
}

/// What a shift by the low byte of a register yields.
pub open spec fn shifted_reg(kind: ShiftType, value: u32, amount: u32, carry_in: bool) -> (
    u32,
    bool,
) {
    shifted_by_byte(kind, value, amount & 0xFF, carry_in)
}

/// Shift `value` by an *immediate* amount. Returns `(result, carry_out)`.
///
/// An immediate amount of `0` is special-cased per the ARM ARM: `LSL #0`
/// is a no-op that passes the carry through, while `LSR #0`/`ASR #0` mean
/// a 32-bit shift and `ROR #0` is `RRX` (rotate through carry).
#[must_use]
pub fn shift_imm(kind: ShiftType, value: u32, amount: u32, carry_in: bool) -> (out: (u32, bool))
    requires
        amount < 32,
    ensures
        out == shifted_imm(kind, value, amount, carry_in),
{
    if amount != 0 {
        return shift_nonzero(kind, value, amount);
    }
    match kind {
        ShiftType::Lsl => (value, carry_in),
        ShiftType::Lsr => (0, value >> 31 != 0),
        ShiftType::Asr => (((value as i32) >> 31u32) as u32, value >> 31 != 0),
        ShiftType::Ror => (((carry_in as u32) << 31) | (value >> 1), value & 1 != 0),
    }
}

/// Shift `value` by a *register-specified* amount (low 8 bits of Rs).
///
/// Unlike the immediate form, an amount of `0` leaves the value and carry
/// untouched, and amounts of 32 and above are meaningful.
#[must_use]
pub fn shift_reg(kind: ShiftType, value: u32, amount: u32, carry_in: bool) -> (out: (u32, bool))
    ensures
        out == shifted_reg(kind, value, amount, carry_in),
{
    let amount: u32 = amount & 0xFF;
    if amount == 0 {
        return (value, carry_in);
    }
    match kind {
        ShiftType::Ror => {
            let rot: u32 = amount & 0x1F;
            if rot == 0 {
                (value, value >> 31 != 0)
            } else {
                shift_nonzero(kind, value, rot)
            }
        },
        _ if amount < 32 => shift_nonzero(kind, value, amount),
        ShiftType::Lsl => (0, amount == 32 && value & 1 != 0),
        ShiftType::Lsr => (0, amount == 32 && value >> 31 != 0),
        ShiftType::Asr => (((value as i32) >> 31u32) as u32, value >> 31 != 0),
    }
}

/// Shift by `1..=31` (or `1..=31` rotate); the common non-degenerate case.
fn shift_nonzero(kind: ShiftType, value: u32, amount: u32) -> (out: (u32, bool))
    requires
        1 <= amount <= 31,
    ensures
        out == shifted(kind, value, amount),
{
    match kind {
        ShiftType::Lsl => (value << amount, (value >> (32 - amount)) & 1 != 0),
        ShiftType::Lsr => (value >> amount, (value >> (amount - 1)) & 1 != 0),
        ShiftType::Asr => (((value as i32) >> amount) as u32, (value >> (amount - 1)) & 1 != 0),
        ShiftType::Ror => (rotate_right(value, amount), (value >> (amount - 1)) & 1 != 0),
    }
}

/// The number that a carry flag adds.
pub open spec fn carry_value(carry: bool) -> int {
    if carry {
        1
    } else {
        0
    }
}

/// `a + b + carry_in` modulo 2^32, whether the unsigned sum leaves 32 bits,
/// and whether the signed sum does.
pub open spec fn sum_with_flags(a: u32, b: u32, carry_in: bool) -> (u32, bool, bool) {
    let unsigned_sum = a + b + carry_value(carry_in);
    let signed_sum = (a as i32) + (b as i32) + carry_value(carry_in);
    (
        (unsigned_sum % 0x1_0000_0000) as u32,
        unsigned_sum > u32::MAX,
        signed_sum < i32::MIN || signed_sum > i32::MAX,
    )
}

/// The sign rule for overflow: the operands agree in sign and the result
/// disagrees.
proof fn lemma_overflow_rule(a: u32, b: u32, c: u32, r: u32)
    by (bit_vector)
    requires
        c <= 1,
        r == (a + b + c) as u32,
    ensures
        r == (a + b + c) % 0x1_0000_0000,
        (((a ^ r) & (b ^ r)) >> 31 != 0) == ({
            let s = (a as i32) + (b as i32) + c;
            s < -0x8000_0000 || s > 0x7FFF_FFFF
        }),
{
}

/// `a + b + carry_in`, returning `(result, carry_out, overflow)`.
///
/// Subtraction is `add_with_carry(a, !b, carry)`: `SUB` uses `carry = true`,
/// `SBC` uses the C flag. This gives the ARM's "C = NOT borrow" convention
/// for free.
#[must_use]
pub fn add_with_carry(a: u32, b: u32, carry_in: bool) -> (out: (u32, bool, bool))
    ensures
        out == sum_with_flags(a, b, carry_in),
{
    let c: u32 = if carry_in {
        1
    } else {
        0
    };
    let sum: u64 = a as u64 + b as u64 + c as u64;
    let result: u32 = a.wrapping_add(b).wrapping_add(c);
    // Signed overflow: operands agree in sign and result disagrees.
    let overflow = ((a ^ result) & (b ^ result)) >> 31 != 0;
    proof {
        let wide = a + b + c;
        assert(wide as u32 == wide % 0x1_0000_0000 && result == wide % 0x1_0000_0000) by {
            assert(wide % 0x1_0000_0000 == if wide > u32::MAX {
                wide - 0x1_0000_0000
            } else {
                wide
            });
            lemma_overflow_rule(a, b, c, (a + b + c) as u32);
        }
        lemma_overflow_rule(a, b, c, result);
    }
    (result, sum > 0xFFFF_FFFF, overflow)
}

/// Whether the bits of `rs` from `shift` up are redundant: all zero or, for
/// a signed multiply, all one.
pub open spec fn redundant_above(rs: u32, shift: u32, signed: bool) -> bool {
    rs >> shift == 0 || (signed && rs >> shift == 0xFFFF_FFFFu32 >> shift)
}

/// The number of significant bytes of the multiplier operand.
pub open spec fn multiplier_bytes(rs: u32, signed: bool) -> u32 {
    if redundant_above(rs, 8, signed) {
        1
    } else if redundant_above(rs, 16, signed) {
        2
    } else if redundant_above(rs, 24, signed) {
        3
    } else {
        4
    }
}

/// Internal cycles of the multiplier: 1–4 depending on how many
/// significant bytes the multiplier operand has. For signed multiplies,
/// leading all-ones bytes are just as cheap as leading zeros.
#[must_use]
pub fn multiply_cycles(rs: u32, signed: bool) -> (cycles: u32)
    ensures
        cycles == multiplier_bytes(rs, signed),
        1 <= cycles <= 4,
{
    let mut cycles: u32 = 1;
    let mut shift: u32 = 8;
    while shift < 32
        invariant
            8 <= shift <= 32,
            shift == 8 * cycles,
            shift > 8 ==> !redundant_above(rs, 8, signed),
            shift > 16 ==> !redundant_above(rs, 16, signed),
            shift > 24 ==> !redundant_above(rs, 24, signed),
        decreases 32 - shift,
    {
        let top: u32 = rs >> shift;
        if top == 0 || (signed && top == 0xFFFF_FFFFu32 >> shift) {
            return cycles;
        }
        cycles = cycles + 1;
        shift = shift + 8;
    }
    4
}

} // verus!
