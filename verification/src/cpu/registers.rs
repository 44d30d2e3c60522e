//! ARM7TDMI register file: general-purpose registers with per-mode banking,
//! the CPSR and the banked SPSRs.

use vstd::prelude::*;

use crate::bits::mode_field_facts;

verus! {

broadcast use crate::bits::group_mask_bounds;

/// Program counter register index.
pub const PC: usize = 15;
/// Link register index.
pub const LR: usize = 14;
/// Stack pointer register index.
pub const SP: usize = 13;

/// Processor operating mode (CPSR bits 4:0).
#[derive(Debug, Clone, Copy, PartialEq, Eq, Hash, Structural)]
pub enum Mode {
    /// Unprivileged mode games normally run in.
    User,
    /// Fast interrupt; has its own r8–r14.
    Fiq,
    /// Normal interrupt.
    Irq,
    /// Entered by `SWI` and at reset.
    Supervisor,
    /// Memory abort (not raised by GBA hardware).
    Abort,
    /// Undefined instruction trap.
    Undefined,
    /// Privileged mode sharing User's registers.
    System,
}

/// The CPSR encoding of `mode`.
pub open spec fn mode_bits(mode: Mode) -> u32 {
    match mode {
        Mode::User => 0x10,
        Mode::Fiq => 0x11,
        Mode::Irq => 0x12,
        Mode::Supervisor => 0x13,
        Mode::Abort => 0x17,
        Mode::Undefined => 0x1B,
        Mode::System => 0x1F,
    }
}

/// The mode that the low five bits of `bits` encode, if any.
pub open spec fn mode_of(bits: u32) -> Option<Mode> {
    let field = bits & 0x1F;
    if field == 0x10 {
        Some(Mode::User)
    } else if field == 0x11 {
        Some(Mode::Fiq)
    } else if field == 0x12 {
        Some(Mode::Irq)
    } else if field == 0x13 {
        Some(Mode::Supervisor)
    } else if field == 0x17 {
        Some(Mode::Abort)
    } else if field == 0x1B {
        Some(Mode::Undefined)
    } else if field == 0x1F {
        Some(Mode::System)
    } else {
        None
    }
}

/// The register bank that `mode` uses.
pub open spec fn bank_of(mode: Mode) -> int {
    match mode {
        Mode::User | Mode::System => 0,
        Mode::Fiq => 1,
        Mode::Irq => 2,
        Mode::Supervisor => 3,
        Mode::Abort => 4,
        Mode::Undefined => 5,
    }
}

impl Mode {
    /// Decodes the mode bits, returning `None` for reserved encodings.
    #[must_use]
    pub fn from_bits(bits: u32) -> (mode: Option<Self>)
        ensures
            mode == mode_of(bits),
    {
        let field: u32 = bits & 0x1F;
        match field {
            0x10 => Some(Self::User),
            0x11 => Some(Self::Fiq),
            0x12 => Some(Self::Irq),
            0x13 => Some(Self::Supervisor),
            0x17 => Some(Self::Abort),
            0x1B => Some(Self::Undefined),
            0x1F => Some(Self::System),
            _ => None,
        }
    }

    /// The CPSR encoding of this mode.
    #[must_use]
    pub fn bits(self) -> (bits: u32)
        ensures
            bits == mode_bits(self),
            mode_of(bits) == Some(self),
    {
        proof {
            law_mode_bits_round_trip(self);
        }
        match self {
            Self::User => 0x10,
            Self::Fiq => 0x11,
            Self::Irq => 0x12,
            Self::Supervisor => 0x13,
            Self::Abort => 0x17,
            Self::Undefined => 0x1B,
            Self::System => 0x1F,
        }
    }

    /// Index into the banked-register arrays.
    ///
    /// User and System share a bank; the privileged exception modes each
    /// get their own.
    #[must_use]
    pub fn bank(self) -> (bank: usize)
        ensures
            bank == bank_of(self),
            bank < 6,
    {
        match self {
            Self::User | Self::System => 0,
            Self::Fiq => 1,
            Self::Irq => 2,
            Self::Supervisor => 3,
            Self::Abort => 4,
            Self::Undefined => 5,
        }
    }

    /// Whether this mode has an SPSR (all but User/System).
    #[verifier::allow_in_spec]
    #[must_use]
    pub fn has_spsr(self) -> bool
        returns
            !(self is User || self is System),
    {
        !matches!(self, Self::User | Self::System)
    }
}

/// Every mode is the mode that its encoding decodes to.
pub proof fn law_mode_bits_round_trip(mode: Mode)
    ensures
        mode_of(mode_bits(mode)) == Some(mode),
        mode_bits(mode) <= 0x1F,
{
    mode_field_facts();
    let b = mode_bits(mode);
    assert((0u32 & !0x1Fu32 | b) & 0x1F == b);
    crate::bits::small_facts(0, 0, b, 0);
}

/// `v` with the bits of `bit` set or cleared.
pub open spec fn with_bit(v: u32, bit: u32, on: bool) -> u32 {
    if on {
        v | bit
    } else {
        v & !bit
    }
}

/// Negative flag.
pub const FLAG_N: u32 = 1 << 31;
/// Zero flag.
pub const FLAG_Z: u32 = 1 << 30;
/// Carry flag.
pub const FLAG_C: u32 = 1 << 29;
/// Overflow flag.
pub const FLAG_V: u32 = 1 << 28;
/// IRQ disable.
pub const FLAG_I: u32 = 1 << 7;
/// FIQ disable.
pub const FLAG_F: u32 = 1 << 6;
/// THUMB state.
pub const FLAG_T: u32 = 1 << 5;

/// The Current Program Status Register.
#[derive(Debug, Clone, Copy, PartialEq, Eq, Structural)]
pub struct Cpsr(pub u32);

impl Default for Cpsr {
    fn default() -> (cpsr: Self)
        ensures
            cpsr == Cpsr(0),
    {
        Cpsr(0)
    }
}

impl Cpsr {
    /// Negative flag.
    #[verifier::allow_in_spec]
    #[must_use]
    pub fn n(self) -> bool
        returns
            self.0 & FLAG_N != 0,
    {
        self.0 & FLAG_N != 0
    }

    /// Zero flag.
    #[verifier::allow_in_spec]
    #[must_use]
    pub fn z(self) -> bool
        returns
            self.0 & FLAG_Z != 0,
    {
        self.0 & FLAG_Z != 0
    }

    /// Carry flag.
    #[verifier::allow_in_spec]
    #[must_use]
    pub fn c(self) -> bool
        returns
            self.0 & FLAG_C != 0,
    {
        self.0 & FLAG_C != 0
    }

    /// Overflow flag.
    #[verifier::allow_in_spec]
    #[must_use]
    pub fn v(self) -> bool
        returns
            self.0 & FLAG_V != 0,
    {
        self.0 & FLAG_V != 0
    }

    /// IRQ disable.
    #[verifier::allow_in_spec]
    #[must_use]
    pub fn irq_disabled(self) -> bool
        returns
            self.0 & FLAG_I != 0,
    {
        self.0 & FLAG_I != 0
    }

    /// FIQ disable.
    #[verifier::allow_in_spec]
    #[must_use]
    pub fn fiq_disabled(self) -> bool
        returns
            self.0 & FLAG_F != 0,
    {
        self.0 & FLAG_F != 0
    }

    /// THUMB state.
    #[verifier::allow_in_spec]
    #[must_use]
    pub fn thumb(self) -> bool
        returns
            self.0 & FLAG_T != 0,
    {
        self.0 & FLAG_T != 0
    }

    /// Current mode, or `None` if the mode bits hold a reserved value.
    #[verifier::allow_in_spec]
    #[must_use]
    pub fn mode(self) -> Option<Mode>
        returns
            mode_of(self.0),
    {
        Mode::from_bits(self.0)
    }

    /// Whether the mode bits hold a mode.
    pub open spec fn wf(self) -> bool {
        mode_of(self.0) is Some
    }

    /// This status with the bits of `bit` set or cleared.
    pub open spec fn with(self, bit: u32, on: bool) -> Cpsr {
        Cpsr(with_bit(self.0, bit, on))
    }

    /// This status with N and Z describing `result`.
    pub open spec fn with_nz(self, result: u32) -> Cpsr {
        self.with(FLAG_N, result & FLAG_N != 0).with(FLAG_Z, result == 0)
    }

    /// This status with the mode bits of `mode`.
    pub open spec fn with_mode(self, mode: Mode) -> Cpsr {
        Cpsr((self.0 & !0x1Fu32) | mode_bits(mode))
    }

    fn set_bit(&mut self, bit: u32, on: bool)
        requires
            bit & 0x1F == 0,
        ensures
            *final(self) == old(self).with(bit, on),
            mode_of(final(self).0) == mode_of(old(self).0),
    {
        proof {
            mode_field_facts();
        }
        if on {
            self.0 = self.0 | bit;
        } else {
            self.0 = self.0 & !bit;
        }
    }

    /// Sets the negative flag.
    pub fn set_n(&mut self, on: bool)
        ensures
            *final(self) == old(self).with(FLAG_N, on),
            mode_of(final(self).0) == mode_of(old(self).0),
    {
        proof {
            lemma_flags_miss_mode();
        }
        self.set_bit(FLAG_N, on);
    }

    /// Sets the zero flag.
    pub fn set_z(&mut self, on: bool)
        ensures
            *final(self) == old(self).with(FLAG_Z, on),
            mode_of(final(self).0) == mode_of(old(self).0),
    {
        proof {
            lemma_flags_miss_mode();
        }
        self.set_bit(FLAG_Z, on);
    }

    /// Sets the carry flag.
    pub fn set_c(&mut self, on: bool)
        ensures
            *final(self) == old(self).with(FLAG_C, on),
            mode_of(final(self).0) == mode_of(old(self).0),
    {
        proof {
            lemma_flags_miss_mode();
        }
        self.set_bit(FLAG_C, on);
    }

    /// Sets the overflow flag.
    pub fn set_v(&mut self, on: bool)
        ensures
            *final(self) == old(self).with(FLAG_V, on),
            mode_of(final(self).0) == mode_of(old(self).0),
    {
        proof {
            lemma_flags_miss_mode();
        }
        self.set_bit(FLAG_V, on);
    }

    /// Sets N and Z from a result, the common case for logical ops.
    pub fn set_nz(&mut self, result: u32)
        ensures
            *final(self) == old(self).with_nz(result),
            mode_of(final(self).0) == mode_of(old(self).0),
    {
        self.set_n(result & FLAG_N != 0);
        self.set_z(result == 0);
    }

    /// Sets the IRQ disable bit.
    pub fn set_irq_disabled(&mut self, on: bool)
        ensures
            *final(self) == old(self).with(FLAG_I, on),
            mode_of(final(self).0) == mode_of(old(self).0),
    {
        proof {
            lemma_flags_miss_mode();
        }
        self.set_bit(FLAG_I, on);
    }

    /// Sets the FIQ disable bit.
    pub fn set_fiq_disabled(&mut self, on: bool)
        ensures
            *final(self) == old(self).with(FLAG_F, on),
            mode_of(final(self).0) == mode_of(old(self).0),
    {
        proof {
            lemma_flags_miss_mode();
        }
        self.set_bit(FLAG_F, on);
    }

    /// Sets the THUMB bit. Callers must also flush the pipeline.
    pub fn set_thumb(&mut self, on: bool)
        ensures
            *final(self) == old(self).with(FLAG_T, on),
            mode_of(final(self).0) == mode_of(old(self).0),
    {
        proof {
            lemma_flags_miss_mode();
        }
        self.set_bit(FLAG_T, on);
    }

    /// Sets the mode bits. Callers must bank registers via
    /// [`Registers::switch_mode`] rather than calling this directly.
    pub(crate) fn set_mode_bits(&mut self, mode: Mode)
        ensures
            *final(self) == old(self).with_mode(mode),
            mode_of(final(self).0) == Some(mode),
    {
        proof {
            mode_field_facts();
            law_mode_bits_round_trip(mode);
        }
        self.0 = (self.0 & !0x1Fu32) | mode.bits();
    }

    /// Evaluates an ARM condition code (bits 31:28 of an ARM opcode, or the
    /// THUMB conditional-branch field) against the flags.
    #[must_use]
    pub fn condition(self, cond: u32) -> (holds: bool)
        ensures
            holds == condition_holds(self, cond & 0xF),
    {
        let (n, z, c, v) = (self.n(), self.z(), self.c(), self.v());
        let code: u32 = cond & 0xF;
        match code {
            0x0 => z,  // EQ
            0x1 => !z,  // NE
            0x2 => c,  // CS/HS
            0x3 => !c,  // CC/LO
            0x4 => n,  // MI
            0x5 => !n,  // PL
            0x6 => v,  // VS
            0x7 => !v,  // VC
            0x8 => c && !z,  // HI
            0x9 => !c || z,  // LS
            0xA => n == v,  // GE
            0xB => n != v,  // LT
            0xC => !z && n == v,  // GT
            0xD => z || n != v,  // LE
            0xE => true,  // AL
            // NV: never on ARMv3, but ARM7TDMI treats it as unconditional
            // for the few v5 encodings that use it. We follow "never".
            _ => false,
        }
    }
}

/// Whether condition `code` (0–15) holds of the flags in `cpsr`: each odd
/// code negates the even one below it.
pub open spec fn condition_holds(cpsr: Cpsr, code: u32) -> bool {
    let even = if code / 2 == 0 {
        cpsr.z()
    } else if code / 2 == 1 {
        cpsr.c()
    } else if code / 2 == 2 {
        cpsr.n()
    } else if code / 2 == 3 {
        cpsr.v()
    } else if code / 2 == 4 {
        cpsr.c() && !cpsr.z()
    } else if code / 2 == 5 {
        cpsr.n() == cpsr.v()
    } else if code / 2 == 6 {
        !cpsr.z() && cpsr.n() == cpsr.v()
    } else {
        true
    };
    if code % 2 == 0 {
        even
    } else {
        !even
    }
}

proof fn lemma_flags_miss_mode()
    by (bit_vector)
    ensures
        FLAG_N & 0x1F == 0,
        FLAG_Z & 0x1F == 0,
        FLAG_C & 0x1F == 0,
        FLAG_V & 0x1F == 0,
        FLAG_I & 0x1F == 0,
        FLAG_F & 0x1F == 0,
        FLAG_T & 0x1F == 0,
{
}

/// Number of register banks (see [`Mode::bank`]).
pub const BANKS: usize = 6;

/// The complete visible register state.
#[derive(Debug)]
pub struct Registers {
    /// r0–r15 as seen in the current mode.
    pub gpr: [u32; 16],
    /// The CPSR.
    pub cpsr: Cpsr,
    /// r8–r12 for every mode except FIQ, saved while FIQ is active.
    pub usr_r8_r12: [u32; 5],
    /// FIQ's private r8–r12, saved while any other mode is active.
    pub fiq_r8_r12: [u32; 5],
    /// r13 (SP) per bank.
    pub banked_sp: [u32; 6],
    /// r14 (LR) per bank.
    pub banked_lr: [u32; 6],
    /// SPSR per bank. Bank 0 (User/System) is unused.
    pub banked_spsr: [Cpsr; 6],
}

/// The mathematical register file.
#[verifier::ext_equal]
pub struct RegistersView {
    /// r0–r15 as seen in the current mode.
    pub gpr: Seq<u32>,
    /// The CPSR.
    pub cpsr: Cpsr,
    /// r8–r12 outside FIQ, while FIQ is active.
    pub usr_r8_r12: Seq<u32>,
    /// r8–r12 of FIQ, while it is not active.
    pub fiq_r8_r12: Seq<u32>,
    /// r13 of each bank that is not active.
    pub banked_sp: Seq<u32>,
    /// r14 of each bank that is not active.
    pub banked_lr: Seq<u32>,
    /// The saved status of each bank.
    pub banked_spsr: Seq<Cpsr>,
}

impl RegistersView {
    /// The arrays have their sizes and the status holds a mode.
    pub open spec fn wf(self) -> bool {
        &&& self.gpr.len() == 16
        &&& self.usr_r8_r12.len() == 5
        &&& self.fiq_r8_r12.len() == 5
        &&& self.banked_sp.len() == 6
        &&& self.banked_lr.len() == 6
        &&& self.banked_spsr.len() == 6
        &&& self.cpsr.wf()
    }

    /// The reset state.
    pub open spec fn reset() -> RegistersView {
        RegistersView {
            gpr: Seq::new(16, |i: int| 0u32),
            cpsr: Cpsr(0xD3),
            usr_r8_r12: Seq::new(5, |i: int| 0u32),
            fiq_r8_r12: Seq::new(5, |i: int| 0u32),
            banked_sp: Seq::new(6, |i: int| 0u32),
            banked_lr: Seq::new(6, |i: int| 0u32),
            banked_spsr: Seq::new(6, |i: int| Cpsr(0)),
        }
    }

    /// Register `i` in the current mode.
    pub open spec fn get(self, i: int) -> u32 {
        self.gpr[i]
    }

    /// The file with register `i` replaced.
    pub open spec fn set(self, i: int, value: u32) -> RegistersView {
        RegistersView { gpr: self.gpr.update(i, value), ..self }
    }

    /// The file with the status replaced and no banking done.
    pub open spec fn put_cpsr(self, cpsr: Cpsr) -> RegistersView {
        RegistersView { cpsr, ..self }
    }

    /// The current mode.
    pub open spec fn mode(self) -> Mode {
        mode_of(self.cpsr.0)->0
    }

    /// The saved status of the current mode, if it has one.
    pub open spec fn spsr(self) -> Option<Cpsr> {
        if self.mode().has_spsr() {
            Some(self.banked_spsr[bank_of(self.mode())])
        } else {
            None
        }
    }

    /// The file with the current mode's saved status replaced.
    pub open spec fn set_spsr(self, value: Cpsr) -> RegistersView {
        if self.mode().has_spsr() {
            RegistersView {
                banked_spsr: self.banked_spsr.update(bank_of(self.mode()), value),
                ..self
            }
        } else {
            self
        }
    }

    /// Register `i` as User mode sees it.
    pub open spec fn get_user(self, i: int) -> u32 {
        if 8 <= i <= 12 && self.mode() is Fiq {
            self.usr_r8_r12[i - 8]
        } else if i == 13 && bank_of(self.mode()) != 0 {
            self.banked_sp[0]
        } else if i == 14 && bank_of(self.mode()) != 0 {
            self.banked_lr[0]
        } else {
            self.gpr[i]
        }
    }

    /// The file with register `i` of User mode replaced.
    pub open spec fn set_user(self, i: int, value: u32) -> RegistersView {
        if 8 <= i <= 12 && self.mode() is Fiq {
            RegistersView { usr_r8_r12: self.usr_r8_r12.update(i - 8, value), ..self }
        } else if i == 13 && bank_of(self.mode()) != 0 {
            RegistersView { banked_sp: self.banked_sp.update(0, value), ..self }
        } else if i == 14 && bank_of(self.mode()) != 0 {
            RegistersView { banked_lr: self.banked_lr.update(0, value), ..self }
        } else {
            self.set(i, value)
        }
    }

    /// Register `i` as it becomes visible on entering `new`.
    pub open spec fn visible_after(self, new: Mode, i: int) -> u32 {
        let rebanked = bank_of(self.mode()) != bank_of(new);
        if i == 13 && rebanked {
            self.banked_sp[bank_of(new)]
        } else if i == 14 && rebanked {
            self.banked_lr[bank_of(new)]
        } else if 8 <= i <= 12 && new is Fiq && !(self.mode() is Fiq) {
            self.fiq_r8_r12[i - 8]
        } else if 8 <= i <= 12 && self.mode() is Fiq && !(new is Fiq) {
            self.usr_r8_r12[i - 8]
        } else {
            self.gpr[i]
        }
    }

    /// The file after switching to `new`: what the old mode had visible is
    /// saved in its bank, and the new mode's bank becomes visible.
    pub open spec fn switch_mode(self, new: Mode) -> RegistersView {
        let previous = self.mode();
        let bank = bank_of(previous);
        let rebanked = bank != bank_of(new);
        let high = self.gpr.subrange(8, 13);
        if previous == new {
            self
        } else {
            RegistersView {
                gpr: Seq::new(16, |i: int| self.visible_after(new, i)),
                cpsr: self.cpsr.with_mode(new),
                usr_r8_r12: if new is Fiq {
                    high
                } else {
                    self.usr_r8_r12
                },
                fiq_r8_r12: if previous is Fiq {
                    high
                } else {
                    self.fiq_r8_r12
                },
                banked_sp: if rebanked {
                    self.banked_sp.update(bank, self.gpr[13])
                } else {
                    self.banked_sp
                },
                banked_lr: if rebanked {
                    self.banked_lr.update(bank, self.gpr[14])
                } else {
                    self.banked_lr
                },
                banked_spsr: self.banked_spsr,
            }
        }
    }

    /// The file after replacing the whole status: a valid mode field
    /// switches modes, a reserved one keeps the mode.
    pub open spec fn set_cpsr(self, value: Cpsr) -> RegistersView {
        let target = match mode_of(value.0) {
            Some(mode) => mode,
            None => self.mode(),
        };
        let banked = self.switch_mode(target);
        banked.put_cpsr(Cpsr((value.0 & !0x1Fu32) | (banked.cpsr.0 & 0x1F)))
    }
}

impl View for Registers {
    type V = RegistersView;

    open spec fn view(&self) -> RegistersView {
        RegistersView {
            gpr: self.gpr@,
            cpsr: self.cpsr,
            usr_r8_r12: self.usr_r8_r12@,
            fiq_r8_r12: self.fiq_r8_r12@,
            banked_sp: self.banked_sp@,
            banked_lr: self.banked_lr@,
            banked_spsr: self.banked_spsr@,
        }
    }
}

impl Clone for Registers {
    fn clone(&self) -> (copy: Self)
        ensures
            copy@ == self@,
    {
        Self {
            gpr: self.gpr,
            cpsr: self.cpsr,
            usr_r8_r12: self.usr_r8_r12,
            fiq_r8_r12: self.fiq_r8_r12,
            banked_sp: self.banked_sp,
            banked_lr: self.banked_lr,
            banked_spsr: self.banked_spsr,
        }
    }
}

impl Default for Registers {
    fn default() -> (regs: Self)
        ensures
            regs@ == RegistersView::reset(),
            regs.wf(),
    {
        Self::new()
    }
}

impl Registers {
    /// The status holds a mode.
    pub open spec fn wf(&self) -> bool {
        self.cpsr.wf()
    }

    /// Registers in the reset state: Supervisor mode, ARM, interrupts off.
    #[must_use]
    pub fn new() -> (regs: Self)
        ensures
            regs@ == RegistersView::reset(),
            regs.wf(),
            regs@.mode() == Mode::Supervisor,
    {
        let regs = Self {
            gpr: [0; 16],
            cpsr: Cpsr(0xD3),
            usr_r8_r12: [0; 5],
            fiq_r8_r12: [0; 5],
            banked_sp: [0; 6],
            banked_lr: [0; 6],
            banked_spsr: [Cpsr(0);6],
        };
        proof {
            crate::bits::constant_facts();
            assert(regs@ =~= RegistersView::reset());
        }
        regs
    }

    /// Reads register `index` (0–15) in the current mode.
    #[inline]
    #[must_use]
    pub fn get(&self, index: usize) -> (value: u32)
        requires
            index < 16,
        ensures
            value == self@.get(index as int),
    {
        self.gpr[index]
    }

    /// Writes register `index` (0–15) in the current mode.
    ///
    /// Writing r15 here does **not** flush the pipeline; the CPU core
    /// handles that.
    #[inline]
    pub fn set(&mut self, index: usize, value: u32)
        requires
            index < 16,
        ensures
            final(self)@ == old(self)@.set(index as int, value),
    {
        self.gpr[index] = value;
    }

    /// Current mode.
    #[must_use]
    pub fn mode(&self) -> (mode: Mode)
        requires
            self.wf(),
        ensures
            mode == self@.mode(),
    {
        match self.cpsr.mode() {
            Some(mode) => mode,
            None => Mode::System,
        }
    }

    /// The SPSR of the current mode, or `None` in User/System.
    #[must_use]
    pub fn spsr(&self) -> (spsr: Option<Cpsr>)
        requires
            self.wf(),
        ensures
            spsr == self@.spsr(),
    {
        let mode = self.mode();
        if mode.has_spsr() {
            Some(self.banked_spsr[mode.bank()])
        } else {
            None
        }
    }

    /// Writes the SPSR of the current mode. No-op in User/System.
    pub fn set_spsr(&mut self, value: Cpsr)
        requires
            old(self).wf(),
        ensures
            final(self)@ == old(self)@.set_spsr(value),
            final(self).wf(),
    {
        let mode = self.mode();
        if mode.has_spsr() {
            let bank: usize = mode.bank();
            self.banked_spsr[bank] = value;
        }
    }

    /// Reads a User-mode register regardless of the current mode
    /// (for `LDM`/`STM` with the `^` suffix).
    #[must_use]
    pub fn get_user(&self, index: usize) -> (value: u32)
        requires
            self.wf(),
            index < 16,
        ensures
            value == self@.get_user(index as int),
    {
        let mode = self.mode();
        if index >= 8 && index <= 12 && mode == Mode::Fiq {
            self.usr_r8_r12[index - 8]
        } else if index == SP && mode.bank() != 0 {
            self.banked_sp[0]
        } else if index == LR && mode.bank() != 0 {
            self.banked_lr[0]
        } else {
            self.gpr[index]
        }
    }

    /// Writes a User-mode register regardless of the current mode.
    pub fn set_user(&mut self, index: usize, value: u32)
        requires
            old(self).wf(),
            index < 16,
        ensures
            final(self)@ == old(self)@.set_user(index as int, value),
            final(self).wf(),
    {
        let mode = self.mode();
        if index >= 8 && index <= 12 && mode == Mode::Fiq {
            self.usr_r8_r12[index - 8] = value;
        } else if index == SP && mode.bank() != 0 {
            self.banked_sp[0] = value;
        } else if index == LR && mode.bank() != 0 {
            self.banked_lr[0] = value;
        } else {
            self.gpr[index] = value;
        }
    }

    /// Switches to `new`, banking r13/r14 (and r8–r12 for FIQ) so that the
    /// visible `gpr` array reflects the new mode.
    pub fn switch_mode(&mut self, new: Mode)
        requires
            old(self).wf(),
        ensures
            final(self)@ == old(self)@.switch_mode(new),
            final(self).wf(),
            final(self)@.mode() == new,
    {
        let previous = self.mode();
        if previous == new {
            return;
        }
        let (ob, nb) = (previous.bank(), new.bank());
        if ob != nb {
            self.banked_sp[ob] = self.gpr[SP];
            self.banked_lr[ob] = self.gpr[LR];
            self.gpr[SP] = self.banked_sp[nb];
            self.gpr[LR] = self.banked_lr[nb];
        }
        if new == Mode::Fiq {
            self.usr_r8_r12 = self.high();
            let fiq = self.fiq_r8_r12;
            self.set_high(fiq);
        } else if previous == Mode::Fiq {
            self.fiq_r8_r12 = self.high();
            let usr = self.usr_r8_r12;
            self.set_high(usr);
        }
        self.cpsr.set_mode_bits(new);
        proof {
            assert(self@.usr_r8_r12 =~= old(self)@.switch_mode(new).usr_r8_r12);
            assert(self@.fiq_r8_r12 =~= old(self)@.switch_mode(new).fiq_r8_r12);
            assert(self@ =~= old(self)@.switch_mode(new));
        }
    }

    /// The visible r8–r12.
    fn high(&self) -> (high: [u32; 5])
        ensures
            high@ == self@.gpr.subrange(8, 13),
    {
        let high = [self.gpr[8], self.gpr[9], self.gpr[10], self.gpr[11], self.gpr[12]];
        assert(high@ =~= self@.gpr.subrange(8, 13));
        high
    }

    /// Replaces the visible r8–r12.
    fn set_high(&mut self, high: [u32; 5])
        ensures
            final(self)@ == (RegistersView {
                gpr: Seq::new(
                    16,
                    |i: int|
                        if 8 <= i <= 12 {
                            high@[i - 8]
                        } else {
                            old(self)@.gpr[i]
                        },
                ),
                ..old(self)@
            }),
    {
        self.gpr[8] = high[0];
        self.gpr[9] = high[1];
        self.gpr[10] = high[2];
        self.gpr[11] = high[3];
        self.gpr[12] = high[4];
    }

    /// Replaces the whole CPSR, switching modes if the mode bits changed.
    ///
    /// Reserved mode encodings leave the mode unchanged, matching the
    /// "unpredictable" hardware behaviour in the least surprising way.
    pub fn set_cpsr(&mut self, value: Cpsr)
        requires
            old(self).wf(),
        ensures
            final(self)@ == old(self)@.set_cpsr(value),
            final(self).wf(),
    {
        let target = match value.mode() {
            Some(mode) => mode,
            None => self.mode(),
        };
        self.switch_mode(target);
        proof {
            mode_field_facts();
        }
        self.cpsr.0 = (value.0 & !0x1Fu32) | (self.cpsr.0 & 0x1F);
    }
}

} // verus!
