//! The cartridge GPIO port and the real-time clock behind it.
//!
//! Some cartridges wire a Seiko S-3511 clock chip to four general-purpose
//! pins exposed as three halfword registers in the ROM area:
//!
//! | Offset  | Register  | Bits                                            |
//! | ------- | --------- | ----------------------------------------------- |
//! | `0xC4`  | data      | 0 SCK, 1 SIO, 2 CS, 3 unused                    |
//! | `0xC6`  | direction | 1 = the GBA drives that pin                     |
//! | `0xC8`  | control   | bit 0: the registers read back (else ROM bytes) |
//!
//! The game bit-bangs a serial protocol over the pins: raising CS starts
//! a transfer, a command byte follows most significant bit first, then
//! parameter bytes least significant bit first, each bit clocked by a
//! rising edge on SCK. Dropping CS ends it.
//!
//! The port is always there: a cartridge without the chip never writes
//! to these offsets, and reads keep returning ROM bytes until a game
//! switches the control bit on. So nothing has to be detected up front.
//!
//! The clock itself is not kept here. The frontend hands the current
//! date and time in with [`Gpio::set_clock`]; a transfer latches it.
//! Setting the clock from the game is accepted and ignored, as the
//! calendar is the host's.

use vstd::prelude::*;

verus! {

broadcast use crate::bits::group_mask_bounds;

/// Offset of the data register from the start of the ROM.
pub const DATA: u32 = 0xC4;
/// Offset of the direction register.
pub const DIRECTION: u32 = 0xC6;
/// Offset of the control register.
pub const CONTROL: u32 = 0xC8;

/// Clock pin.
pub const SCK: u8 = 1 << 0;
/// Data pin.
pub const SIO: u8 = 1 << 1;
/// Chip select pin.
pub const CS: u8 = 1 << 2;

/// A calendar date and time of day, as the clock chip reports it.
#[derive(Debug, Clone, Copy, PartialEq, Eq, Structural)]
pub struct DateTime {
    /// Full year; the chip counts 2000–2099.
    pub year: u16,
    /// 1–12.
    pub month: u8,
    /// 1–31.
    pub day: u8,
    /// 0–6, counting from Sunday.
    pub weekday: u8,
    /// 0–23.
    pub hour: u8,
    /// 0–59.
    pub minute: u8,
    /// 0–59.
    pub second: u8,
}

/// Midnight on 1 January 2000, a Saturday: where the chip starts counting.
pub open spec fn epoch() -> DateTime {
    DateTime { year: 2000, month: 1, day: 1, weekday: 6, hour: 0, minute: 0, second: 0 }
}

impl Default for DateTime {
    /// Midnight on 1 January 2000, a Saturday: where the chip starts
    /// counting.
    fn default() -> (date: Self)
        ensures
            date == epoch(),
    {
        Self { year: 2000, month: 1, day: 1, weekday: 6, hour: 0, minute: 0, second: 0 }
    }
}

/// S-3511 command (bits 1–3 of the command byte): reset.
pub const COMMAND_RESET: u8 = 0;
/// S-3511 command: status register.
pub const COMMAND_STATUS: u8 = 1;
/// S-3511 command: date and time.
pub const COMMAND_DATE_TIME: u8 = 2;
/// S-3511 command: time only.
pub const COMMAND_TIME: u8 = 3;

/// Status register bit: hours count 0–23 rather than 0–11 with a PM flag.
pub const STATUS_24H: u8 = 1 << 6;

/// Parameter bytes that follow `command`.
pub open spec fn parameters_of(command: u8) -> int {
    if command == COMMAND_STATUS {
        1
    } else if command == COMMAND_DATE_TIME {
        7
    } else if command == COMMAND_TIME {
        3
    } else {
        0
    }
}

/// Parameter bytes that follow each command.
pub fn parameter_bytes(command: u8) -> (count: u8)
    ensures
        count == parameters_of(command),
{
    match command {
        COMMAND_STATUS => 1,
        COMMAND_DATE_TIME => 7,
        COMMAND_TIME => 3,
        _ => 0,
    }
}

/// Where a transfer is.
#[derive(Debug, Clone, Copy, PartialEq, Eq, Structural)]
pub enum Phase {
    /// CS is low.
    Idle,
    /// Shifting in the command byte.
    Command,
    /// Moving parameter bytes of `command`, in or out.
    Parameters { command: u8, read: bool },
    /// The command's bytes are all done; waiting for CS to drop.
    Done,
}

/// The S-3511 real-time clock.
#[derive(Debug, Clone, Copy)]
pub struct Rtc {
    /// Where the transfer is.
    pub phase: Phase,
    /// Bits of the byte being shifted.
    pub shift: u8,
    /// How many bits have arrived.
    pub bits: u8,
    /// Parameter byte the transfer is on.
    pub index: u8,
    /// The command's parameters: the latched date and time, or the status.
    pub buffer: [u8; 7],
    /// The chip's status register.
    pub status: u8,
    /// What the chip drives onto SIO while it is sending.
    pub sio: bool,
}

/// The mathematical clock chip.
#[verifier::ext_equal]
pub struct RtcView {
    /// Where the transfer is.
    pub phase: Phase,
    /// Bits of the byte being shifted.
    pub shift: u8,
    /// How many bits have arrived.
    pub bits: u8,
    /// Parameter byte the transfer is on.
    pub index: u8,
    /// The command's parameters.
    pub buffer: Seq<u8>,
    /// The status register.
    pub status: u8,
    /// What the chip drives onto SIO.
    pub sio: bool,
}

impl View for Rtc {
    type V = RtcView;

    open spec fn view(&self) -> RtcView {
        RtcView {
            phase: self.phase,
            shift: self.shift,
            bits: self.bits,
            index: self.index,
            buffer: self.buffer@,
            status: self.status,
            sio: self.sio,
        }
    }
}

/// Binary to packed BCD, for values below 100.
pub open spec fn packed(n: u8) -> u8 {
    ((n / 10) << 4) | (n % 10)
}

/// Binary to packed BCD, for values below 100.
fn bcd(n: u8) -> (packed: u8)
    ensures
        packed == self::packed(n),
{
    ((n / 10) << 4) | (n % 10)
}

/// The hour in the chip's layout: 24-hour, or 12-hour with a PM flag.
pub open spec fn hour_byte(hour: u8, status: u8) -> u8 {
    if status & STATUS_24H != 0 {
        packed(hour)
    } else {
        packed(hour % 12) | if hour >= 12 {
            0x80u8
        } else {
            0
        }
    }
}

/// The parameters of a date or time command: the clock in the chip's BCD
/// layout, starting at the hour for a time-only read.
pub open spec fn latched(now: DateTime, status: u8, command: u8) -> Seq<u8> {
    let hour = hour_byte(now.hour, status);
    let minute = packed(now.minute);
    let second = packed(now.second);
    let day = packed(now.day);
    if command == COMMAND_TIME {
        seq![hour, minute, second, now.weekday, hour, minute, second]
    } else {
        seq![
            packed((now.year % 100) as u8),
            packed(now.month),
            day,
            now.weekday,
            hour,
            minute,
            second,
        ]
    }
}

impl RtcView {
    /// Counters are in range for the phase.
    pub open spec fn wf(self) -> bool {
        &&& self.bits <= 7
        &&& self.buffer.len() == 7
        &&& self.phase matches Phase::Parameters { command, read } ==> self.index < parameters_of(
            command,
        )
    }

    /// The chip at power-on: 24-hour mode as far as games can tell.
    pub open spec fn initial() -> RtcView {
        RtcView {
            phase: Phase::Idle,
            shift: 0,
            bits: 0,
            index: 0,
            buffer: Seq::new(7, |i: int| 0u8),
            status: STATUS_24H,
            sio: false,
        }
    }

    /// The chip after a parameter bit is counted off: the next byte after
    /// eight, done after the command's last.
    pub open spec fn bit_counted(self, command: u8) -> RtcView {
        if self.bits < 7 {
            RtcView { bits: (self.bits + 1) as u8, ..self }
        } else {
            RtcView {
                bits: 0,
                shift: 0,
                index: (self.index + 1) as u8,
                phase: if self.index + 1 >= parameters_of(command) {
                    Phase::Done
                } else {
                    self.phase
                },
                ..self
            }
        }
    }

    /// The chip after command byte `byte`: `0110 ccc r`, command `ccc`, `r`
    /// set when the game reads the parameters rather than writing them.
    /// Anything else is not addressed to this chip.
    pub open spec fn commanded(self, byte: u8, now: DateTime) -> RtcView {
        let fresh = RtcView { bits: 0, shift: 0, index: 0, ..self };
        let command = (byte >> 1) & 7;
        if byte >> 4 != 0b0110 {
            RtcView { phase: Phase::Done, ..fresh }
        } else {
            RtcView {
                status: if command == COMMAND_RESET {
                    0
                } else {
                    self.status
                },
                buffer: if command == COMMAND_STATUS {
                    self.buffer.update(0, self.status)
                } else if command == COMMAND_DATE_TIME || command == COMMAND_TIME {
                    latched(now, self.status, command)
                } else {
                    self.buffer
                },
                phase: if parameters_of(command) == 0 {
                    Phase::Done
                } else {
                    Phase::Parameters { command, read: byte & 1 != 0 }
                },
                ..fresh
            }
        }
    }

    /// The chip after a rising clock edge with `bit` on SIO.
    pub open spec fn clocked(self, bit: bool, now: DateTime) -> RtcView {
        match self.phase {
            Phase::Idle => self,
            Phase::Done => self,
            Phase::Command => {
                let taken = RtcView { shift: (self.shift << 1) | (bit as u8), ..self };
                if self.bits == 7 {
                    taken.commanded(taken.shift, now)
                } else {
                    RtcView { bits: (self.bits + 1) as u8, ..taken }
                }
            },
            Phase::Parameters { command, read } => if read {
                RtcView {
                    sio: (self.buffer[self.index as int] >> self.bits) & 1 != 0,
                    ..self
                }.bit_counted(command)
            } else {
                let shift = self.shift | ((bit as u8) << self.bits);
                let taken = if self.bits == 7 {
                    RtcView {
                        shift,
                        buffer: self.buffer.update(self.index as int, shift),
                        status: if command == COMMAND_STATUS {
                            shift
                        } else {
                            self.status
                        },
                        ..self
                    }
                } else {
                    RtcView { shift, ..self }
                };
                taken.bit_counted(command)
            },
        }
    }

    /// The chip after the pins change from `before` to `after`.
    pub open spec fn pins(self, before: u8, after: u8, now: DateTime) -> RtcView {
        if after & CS == 0 {
            RtcView { phase: Phase::Idle, ..self }
        } else if before & CS == 0 {
            RtcView { phase: Phase::Command, shift: 0, bits: 0, ..self }
        } else if before & SCK != 0 || after & SCK == 0 {
            self
        } else {
            self.clocked(after & SIO != 0, now)
        }
    }
}

impl Default for Rtc {
    fn default() -> (rtc: Self)
        ensures
            rtc.wf(),
            rtc@ == RtcView::initial(),
    {
        let rtc = Self {
            phase: Phase::Idle,
            shift: 0,
            bits: 0,
            index: 0,
            buffer: [0; 7],
            // The chip powers up in 24-hour mode as far as games can
            // tell: they write it on boot anyway.
            status: STATUS_24H,
            sio: false,
        };
        assert(rtc@.buffer =~= RtcView::initial().buffer);
        rtc
    }
}

impl Rtc {
    /// Counters are in range for the phase.
    pub open spec fn wf(&self) -> bool {
        self@.wf()
    }

    /// Reacts to the pins changing from `before` to `after`.
    fn pins(&mut self, before: u8, after: u8, now: DateTime)
        requires
            old(self).wf(),
        ensures
            final(self).wf(),
            final(self)@ == old(self)@.pins(before, after, now),
    {
        if after & CS == 0 {
            self.phase = Phase::Idle;
            return;
        }
        if before & CS == 0 {
            self.phase = Phase::Command;
            self.shift = 0;
            self.bits = 0;
            return;
        }
        // Everything else happens on a rising edge of the clock.
        if before & SCK != 0 || after & SCK == 0 {
            return;
        }
        let bit = after & SIO != 0;
        match self.phase {
            Phase::Idle | Phase::Done => {},
            Phase::Command => {
                self.shift = (self.shift << 1) | (bit as u8);
                if self.bits == 7 {
                    let byte: u8 = self.shift;
                    self.command(byte, now);
                } else {
                    self.bits = self.bits + 1;
                }
            },
            Phase::Parameters { read, command } => {
                if read {
                    self.sio = (self.buffer[self.index as usize] >> self.bits) & 1 != 0;
                } else {
                    self.shift = self.shift | ((bit as u8) << self.bits);
                    if self.bits == 7 {
                        let index: usize = self.index as usize;
                        self.buffer[index] = self.shift;
                        if command == COMMAND_STATUS {
                            self.status = self.shift;
                        }
                    }
                }
                self.next_bit(command);
            },
        }
    }

    /// Counts off a parameter bit, moving to the next byte after eight
    /// and finishing after the command's last.
    fn next_bit(&mut self, command: u8)
        requires
            old(self).wf(),
            old(self).phase matches Phase::Parameters { command: c, .. } && c == command,
        ensures
            final(self).wf(),
            final(self)@ == old(self)@.bit_counted(command),
    {
        self.bits = self.bits + 1;
        if self.bits < 8 {
            return;
        }
        self.bits = 0;
        self.shift = 0;
        self.index = self.index + 1;
        if self.index >= parameter_bytes(command) {
            self.phase = Phase::Done;
        }
    }

    /// Starts on a command byte: `0110 ccc r`, command `ccc`, `r` set
    /// when the game reads the parameters rather than writing them.
    fn command(&mut self, byte: u8, now: DateTime)
        requires
            old(self).wf(),
        ensures
            final(self).wf(),
            final(self)@ == old(self)@.commanded(byte, now),
    {
        self.bits = 0;
        self.shift = 0;
        self.index = 0;
        if byte >> 4 != 0b0110 {
            // Not addressed to this chip; stay quiet until CS drops.
            self.phase = Phase::Done;
            return;
        }
        let command: u8 = (byte >> 1) & 7;
        let read = byte & 1 != 0;
        match command {
            COMMAND_RESET => self.status = 0,
            COMMAND_STATUS => self.buffer[0] = self.status,
            COMMAND_DATE_TIME | COMMAND_TIME => self.latch(now, command),
            _ => {},
        }
        self.phase =
        if parameter_bytes(command) == 0 {
            Phase::Done
        } else {
            Phase::Parameters { command, read }
        };
    }

    /// Copies the clock into the buffer in the chip's BCD layout; a
    /// time-only read starts at the hour.
    fn latch(&mut self, now: DateTime, command: u8)
        ensures
            final(self)@ == (RtcView {
                buffer: latched(now, old(self)@.status, command),
                ..old(self)@
            }),
    {
        let hour: u8 = if self.status & STATUS_24H != 0 {
            bcd(now.hour)
        } else {
            bcd(now.hour % 12) | if now.hour >= 12 {
                0x80u8
            } else {
                0
            }
        };
        let minute: u8 = bcd(now.minute);
        let second: u8 = bcd(now.second);
        self.buffer =
        if command == COMMAND_TIME {
            [hour, minute, second, now.weekday, hour, minute, second]
        } else {
            [
                bcd((now.year % 100) as u8),
                bcd(now.month),
                bcd(now.day),
                now.weekday,
                hour,
                minute,
                second,
            ]
        };
        assert(self.buffer@ =~= latched(now, old(self)@.status, command));
    }
}

/// The GPIO port with the clock on it.
#[derive(Debug, Clone, Copy)]
pub struct Gpio {
    /// Pin levels as last written by the game.
    pub data: u8,
    /// Which pins the game drives.
    pub direction: u8,
    /// Whether the registers read back.
    pub readable: bool,
    /// The clock chip.
    pub rtc: Rtc,
    /// What the clock reads, as the frontend last set it.
    pub clock: DateTime,
}

/// The mathematical port.
#[verifier::ext_equal]
pub struct GpioView {
    /// Pin levels as last written by the game.
    pub data: u8,
    /// Which pins the game drives.
    pub direction: u8,
    /// Whether the registers read back.
    pub readable: bool,
    /// The clock chip.
    pub rtc: RtcView,
    /// What the clock reads.
    pub clock: DateTime,
}

impl View for Gpio {
    type V = GpioView;

    open spec fn view(&self) -> GpioView {
        GpioView {
            data: self.data,
            direction: self.direction,
            readable: self.readable,
            rtc: self.rtc@,
            clock: self.clock,
        }
    }
}

impl GpioView {
    /// The port at power-on.
    pub open spec fn initial() -> GpioView {
        GpioView {
            data: 0,
            direction: 0,
            readable: false,
            rtc: RtcView::initial(),
            clock: epoch(),
        }
    }

    /// The pin levels: the game's where it drives, the chip's elsewhere.
    pub open spec fn pin_levels(self) -> u8 {
        let from_chip = if self.rtc.sio {
            SIO
        } else {
            0
        };
        (self.data & self.direction) | (from_chip & !self.direction)
    }

    /// The register at `offset`, or `None` when the ROM shows through.
    pub open spec fn read16(self, offset: u32) -> Option<u16> {
        if !self.readable {
            None
        } else if offset == DATA {
            Some(self.pin_levels() as u16)
        } else if offset == DIRECTION {
            Some(self.direction as u16)
        } else if offset == CONTROL {
            Some(1)
        } else {
            None
        }
    }

    /// The port after a register write.
    pub open spec fn write16(self, offset: u32, value: u16) -> GpioView {
        let low = (value as u8) & 0xF;
        if offset == DATA {
            let data = (self.data & !self.direction) | (low & self.direction);
            GpioView { data, rtc: self.rtc.pins(self.data, data, self.clock), ..self }
        } else if offset == DIRECTION {
            GpioView { direction: low, ..self }
        } else if offset == CONTROL {
            GpioView { readable: low & 1 != 0, ..self }
        } else {
            self
        }
    }
}

/// Whether a ROM offset falls on the port.
pub open spec fn port_covers(offset: u32) -> bool {
    DATA <= offset <= 0xC9
}

impl Default for Gpio {
    fn default() -> (gpio: Self)
        ensures
            gpio.wf(),
            gpio@ == GpioView::initial(),
    {
        Self {
            data: 0,
            direction: 0,
            readable: false,
            rtc: Rtc::default(),
            clock: DateTime::default(),
        }
    }
}

impl Gpio {
    /// The clock chip's counters are in range.
    pub open spec fn wf(&self) -> bool {
        self.rtc.wf()
    }

    /// Sets what the clock will report the next time a game reads it.
    pub fn set_clock(&mut self, now: DateTime)
        ensures
            final(self)@ == (GpioView { clock: now, ..old(self)@ }),
            old(self).wf() ==> final(self).wf(),
    {
        self.clock = now;
    }

    /// Reads a register, or `None` when the port is not readable (or
    /// `offset` is not one of its registers) and the ROM shows through.
    #[must_use]
    pub fn read16(&self, offset: u32) -> (value: Option<u16>)
        ensures
            value == self@.read16(offset),
    {
        if !self.readable {
            return None;
        }
        match offset {
            DATA => {
                let from_chip: u8 = if self.rtc.sio {
                    SIO
                } else {
                    0
                };
                let pins: u8 = (self.data & self.direction) | (from_chip & !self.direction);
                Some(pins as u16)
            },
            DIRECTION => Some(self.direction as u16),
            CONTROL => Some(1),
            _ => None,
        }
    }

    /// Writes a register. Offsets that are not registers are ignored,
    /// like every other write to ROM.
    pub fn write16(&mut self, offset: u32, value: u16)
        requires
            old(self).wf(),
        ensures
            final(self).wf(),
            final(self)@ == old(self)@.write16(offset, value),
    {
        let value: u8 = (value as u8) & 0xF;
        match offset {
            DATA => {
                let before: u8 = self.data;
                self.data = (self.data & !self.direction) | (value & self.direction);
                self.rtc.pins(before, self.data, self.clock);
            },
            DIRECTION => self.direction = value,
            CONTROL => self.readable = value & 1 != 0,
            _ => {},
        }
    }

    /// Whether a ROM offset falls on the port.
    #[must_use]
    pub fn covers(offset: u32) -> (covered: bool)
        ensures
            covered == port_covers(offset),
    {
        offset >= DATA && offset <= 0xC9
    }
}

} // verus!
