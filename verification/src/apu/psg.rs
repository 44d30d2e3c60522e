//! The four "PSG" channels inherited from the Game Boy: two pulse waves,
//! a programmable wave channel and a noise generator.
//!
//! Each channel produces a 4-bit unsigned level. Periods are expressed in
//! system cycles: the Game Boy Advance clock is four times the Game Boy's,
//! so every classic period constant is multiplied by four.

use vstd::arithmetic::div_mod::{
    lemma_div_is_ordered_by_denominator, lemma_fundamental_div_mod_converse,
};
use vstd::prelude::*;

use crate::bytes::{half_at, le16, with_half};

verus! {

broadcast use crate::bits::group_mask_bounds;

/// Highest 11-bit frequency value; anything above overflows the channel.
pub const MAX_FREQUENCY: u16 = 2047;

/// Length counter shared by all channels: counts down at 256 Hz and, when
/// enabled, silences the channel on reaching zero.
#[derive(Debug, Clone, Copy, PartialEq, Eq, Structural)]
pub struct Length {
    /// Ticks left.
    pub counter: u16,
    /// Whether the counter runs.
    pub enabled: bool,
}

impl Length {
    /// The stopped counter.
    pub open spec fn idle() -> Length {
        Length { counter: 0, enabled: false }
    }

    /// The counter after loading the "sound length" field.
    pub open spec fn loaded(self, value: u16, max: u16) -> Length {
        Length { counter: (max - value) as u16, ..self }
    }

    /// The counter after a trigger: an expired one restarts at the maximum.
    pub open spec fn triggered(self, max: u16) -> Length {
        Length {
            counter: if self.counter == 0 {
                max
            } else {
                self.counter
            },
            ..self
        }
    }

    /// The counter after a 256 Hz step.
    pub open spec fn clocked(self) -> Length {
        if self.enabled && self.counter > 0 {
            Length { counter: (self.counter - 1) as u16, ..self }
        } else {
            self
        }
    }

    /// Whether the 256 Hz step silences the channel.
    pub open spec fn expires(self) -> bool {
        self.enabled && self.counter == 1
    }

    /// Loads a fresh count from the register's "sound length" field
    /// (`max - value`).
    fn load(&mut self, value: u16, max: u16)
        requires
            value <= max,
        ensures
            *final(self) == old(self).loaded(value, max),
    {
        self.counter = max - value;
    }

    /// A trigger with an expired counter restarts it at the maximum.
    fn trigger(&mut self, max: u16)
        ensures
            *final(self) == old(self).triggered(max),
    {
        if self.counter == 0 {
            self.counter = max;
        }
    }

    /// The 256 Hz step. Returns `true` when the channel must be silenced.
    fn clock(&mut self) -> (expired: bool)
        ensures
            *final(self) == old(self).clocked(),
            expired == old(self).expires(),
    {
        if self.enabled && self.counter > 0 {
            self.counter = self.counter - 1;
            return self.counter == 0;
        }
        false
    }
}

/// Volume envelope: moves the 4-bit volume one step up or down every
/// `period` ticks of the 64 Hz clock.
#[derive(Debug, Clone, Copy, PartialEq, Eq, Structural)]
pub struct Envelope {
    /// Volume that a trigger starts from.
    pub initial: u8,
    /// Whether the volume rises.
    pub increase: bool,
    /// Ticks per step; zero holds the volume.
    pub period: u8,
    /// Current volume.
    pub volume: u8,
    /// Ticks until the next step.
    pub timer: u8,
}

impl Envelope {
    /// The silent envelope.
    pub open spec fn idle() -> Envelope {
        Envelope { initial: 0, increase: false, period: 0, volume: 0, timer: 0 }
    }

    /// Volumes are 4-bit.
    pub open spec fn wf(self) -> bool {
        self.initial <= 15 && self.volume <= 15
    }

    /// The envelope after bits 8–15 of `bits` are decoded.
    pub open spec fn configured(self, bits: u16) -> Envelope {
        Envelope {
            period: ((bits >> 8) & 7) as u8,
            increase: bits & (1u16 << 11) != 0,
            initial: (bits >> 12) as u8,
            ..self
        }
    }

    /// Whether the DAC is powered.
    pub open spec fn dac(self) -> bool {
        self.initial != 0 || self.increase
    }

    /// The envelope after a trigger.
    pub open spec fn triggered(self) -> Envelope {
        Envelope { volume: self.initial, timer: self.period, ..self }
    }

    /// The envelope after a 64 Hz step: when the timer runs out the volume
    /// moves by one, within 0–15.
    pub open spec fn clocked(self) -> Envelope {
        if self.period == 0 {
            self
        } else if self.timer > 1 {
            Envelope { timer: (self.timer - 1) as u8, ..self }
        } else {
            Envelope {
                timer: self.period,
                volume: if self.increase && self.volume < 15 {
                    (self.volume + 1) as u8
                } else if !self.increase && self.volume > 0 {
                    (self.volume - 1) as u8
                } else {
                    self.volume
                },
                ..self
            }
        }
    }

    /// Decodes bits 8–15 of a `SOUNDxCNT` envelope halfword.
    fn set(&mut self, bits: u16)
        requires
            old(self).wf(),
        ensures
            *final(self) == old(self).configured(bits),
            final(self).wf(),
    {
        proof {
            crate::bits::high_field_facts(0, bits);
        }
        self.period = ((bits >> 8) & 7) as u8;
        self.increase = bits & (1u16 << 11) != 0;
        self.initial = (bits >> 12) as u8;
    }

    /// Whether the channel's DAC is powered: a zero start volume with a
    /// decreasing envelope switches it off, silencing the channel.
    fn dac_enabled(self) -> (on: bool)
        ensures
            on == self.dac(),
    {
        self.initial != 0 || self.increase
    }

    fn trigger(&mut self)
        requires
            old(self).wf(),
        ensures
            *final(self) == old(self).triggered(),
            final(self).wf(),
    {
        self.volume = self.initial;
        self.timer = self.period;
    }

    /// The 64 Hz step.
    fn clock(&mut self)
        requires
            old(self).wf(),
        ensures
            *final(self) == old(self).clocked(),
            final(self).wf(),
    {
        if self.period == 0 {
            return;
        }
        self.timer = self.timer.saturating_sub(1);
        if self.timer == 0 {
            self.timer = self.period;
            if self.increase && self.volume < 15 {
                self.volume = self.volume + 1;
            } else if !self.increase && self.volume > 0 {
                self.volume = self.volume - 1;
            }
        }
    }
}

/// Frequency sweep, channel 1 only.
#[derive(Debug, Clone, Copy, PartialEq, Eq, Structural)]
pub struct Sweep {
    /// Each step changes the frequency by its value shifted this far.
    pub shift: u8,
    /// Whether the frequency falls.
    pub decrease: bool,
    /// Ticks per step.
    pub period: u8,
    /// Ticks until the next step.
    pub timer: u8,
    /// Whether the sweep runs.
    pub enabled: bool,
    /// The frequency that the sweep works on.
    pub shadow: u16,
}

impl Sweep {
    /// The stopped sweep.
    pub open spec fn idle() -> Sweep {
        Sweep { shift: 0, decrease: false, period: 0, timer: 0, enabled: false, shadow: 0 }
    }

    /// The shift is a 3-bit field and the shadow an 11-bit frequency.
    pub open spec fn wf(self) -> bool {
        self.shift <= 7 && self.shadow <= MAX_FREQUENCY
    }

    /// The sweep after `SOUND1CNT_L` is decoded.
    pub open spec fn configured(self, bits: u16) -> Sweep {
        Sweep {
            shift: (bits & 7) as u8,
            decrease: bits & (1u16 << 3) != 0,
            period: ((bits >> 4) & 7) as u8,
            ..self
        }
    }

    /// The sweep with its timer reloaded; a zero period behaves like eight.
    pub open spec fn reloaded(self) -> Sweep {
        Sweep {
            timer: if self.period == 0 {
                8
            } else {
                self.period
            },
            ..self
        }
    }

    /// The frequency after one sweep step, or `None` on overflow.
    pub open spec fn next_frequency(self) -> Option<u16> {
        let delta = self.shadow >> (self.shift as u16);
        let next = if self.decrease {
            self.shadow - delta
        } else {
            self.shadow + delta
        };
        if next <= MAX_FREQUENCY {
            Some(next as u16)
        } else {
            None
        }
    }

    /// Decodes `SOUND1CNT_L`.
    fn set(&mut self, bits: u16)
        requires
            old(self).wf(),
        ensures
            *final(self) == old(self).configured(bits),
            final(self).wf(),
    {
        self.shift = (bits & 7) as u8;
        self.decrease = bits & (1u16 << 3) != 0;
        self.period = ((bits >> 4) & 7) as u8;
    }

    fn reload_timer(&mut self)
        ensures
            *final(self) == old(self).reloaded(),
    {
        // A zero period behaves like eight.
        self.timer = if self.period == 0 {
            8
        } else {
            self.period
        };
    }

    /// The frequency after one sweep step, or `None` on overflow.
    fn next(self) -> (next: Option<u16>)
        requires
            self.wf(),
        ensures
            next == self.next_frequency(),
            next matches Some(f) ==> f <= MAX_FREQUENCY,
    {
        let shift: u16 = self.shift as u16;
        let delta: u16 = self.shadow >> shift;
        proof {
            lemma_shift_shrinks(self.shadow, shift);
        }
        let next: u16 = if self.decrease {
            self.shadow - delta
        } else {
            self.shadow + delta
        };
        if next <= MAX_FREQUENCY {
            Some(next)
        } else {
            None
        }
    }
}

proof fn lemma_shift_shrinks(x: u16, n: u16)
    requires
        n <= 7,
    ensures
        x >> n <= x,
{
    crate::bits::small_facts(0, x, 0, 0);
}

/// Whether a pulse channel with duty setting `duty` is high in eighth
/// `phase` of its period.
pub open spec fn duty_high(duty: int, phase: int) -> bool {
    if duty == 0 {
        phase == 7
    } else if duty == 1 {
        phase == 0 || phase == 7
    } else if duty == 2 {
        phase == 0 || phase >= 5
    } else {
        1 <= phase <= 6
    }
}

/// Which eighths of the period a pulse channel spends high.
fn is_high(duty: u8, phase: u8) -> (high: bool)
    ensures
        high == duty_high(duty as int, phase as int),
{
    match duty {
        0 => phase == 7,
        1 => phase == 0 || phase == 7,
        2 => phase == 0 || phase >= 5,
        _ => phase >= 1 && phase <= 6,
    }
}

/// Period steps that pass in `cycles`, when the next is due in `timer`.
pub open spec fn steps_passed(timer: u32, period: int, cycles: u32) -> int {
    if cycles < timer {
        0
    } else {
        1 + (cycles - timer) / period
    }
}

/// Cycles until the next period step, after `cycles` have passed.
pub open spec fn timer_after(timer: u32, period: int, cycles: u32) -> u32 {
    if cycles < timer {
        (timer - cycles) as u32
    } else {
        (period - (cycles - timer) % period) as u32
    }
}

/// A pulse-wave channel (channels 1 and 2). Channel 2 simply never has
/// its sweep programmed.
#[derive(Debug, Clone, Copy, PartialEq, Eq, Structural)]
pub struct Square {
    /// Whether the channel sounds.
    pub enabled: bool,
    /// Duty setting.
    pub duty: u8,
    /// 11-bit frequency.
    pub frequency: u16,
    /// Cycles until the next duty step.
    pub timer: u32,
    /// Eighth of the period.
    pub phase: u8,
    /// Length counter.
    pub length: Length,
    /// Volume envelope.
    pub envelope: Envelope,
    /// Frequency sweep.
    pub sweep: Sweep,
}

/// Longest length of the pulse and noise channels.
pub const SHORT_LENGTH_MAX: u16 = 64;

/// Longest length of the wave channel.
pub const WAVE_LENGTH_MAX: u16 = 256;

impl Default for Square {
    fn default() -> (square: Self)
        ensures
            square == Self::silent(),
            square.wf(),
    {
        Square {
            enabled: false,
            duty: 0,
            frequency: 0,
            timer: 0,
            phase: 0,
            length: Length { counter: 0, enabled: false },
            envelope: Envelope { initial: 0, increase: false, period: 0, volume: 0, timer: 0 },
            sweep: Sweep {
                shift: 0,
                decrease: false,
                period: 0,
                timer: 0,
                enabled: false,
                shadow: 0,
            },
        }
    }
}

impl Square {
    /// Every field is within its register width.
    pub open spec fn wf(self) -> bool {
        &&& self.duty <= 3
        &&& self.phase <= 7
        &&& self.frequency <= MAX_FREQUENCY
        &&& self.envelope.wf()
        &&& self.sweep.wf()
    }

    /// The power-on channel.
    pub open spec fn silent() -> Square {
        Square {
            enabled: false,
            duty: 0,
            frequency: 0,
            timer: 0,
            phase: 0,
            length: Length::idle(),
            envelope: Envelope::idle(),
            sweep: Sweep::idle(),
        }
    }

    /// Cycles per duty step.
    pub open spec fn period_of(frequency: u16) -> int {
        (2048 - frequency) * 16
    }

    /// The channel after its length and envelope register is written.
    pub open spec fn length_envelope_written(self, value: u16) -> Square {
        let envelope = self.envelope.configured(value);
        Square {
            length: self.length.loaded(value & 0x3F, SHORT_LENGTH_MAX),
            duty: ((value >> 6) & 3) as u8,
            envelope,
            enabled: self.enabled && envelope.dac(),
            ..self
        }
    }

    /// The channel after a trigger.
    pub open spec fn triggered(self) -> Square {
        let sweep = Sweep {
            shadow: self.frequency,
            enabled: self.sweep.period != 0 || self.sweep.shift != 0,
            ..self.sweep.reloaded()
        };
        Square {
            enabled: self.envelope.dac() && (sweep.shift == 0 || sweep.next_frequency() is Some),
            length: self.length.triggered(SHORT_LENGTH_MAX),
            timer: Self::period_of(self.frequency) as u32,
            envelope: self.envelope.triggered(),
            sweep,
            ..self
        }
    }

    /// The channel after its frequency and control register is written.
    pub open spec fn frequency_control_written(self, value: u16) -> Square {
        let set = Square {
            frequency: value & 0x7FF,
            length: Length { enabled: value & (1u16 << 14) != 0, ..self.length },
            ..self
        };
        if value & (1u16 << 15) != 0 {
            set.triggered()
        } else {
            set
        }
    }

    /// The channel after its waveform advances by `cycles`.
    pub open spec fn ticked(self, cycles: u32) -> Square {
        let period = Self::period_of(self.frequency);
        Square {
            timer: timer_after(self.timer, period, cycles),
            phase: ((self.phase + steps_passed(self.timer, period, cycles)) % 8) as u8,
            ..self
        }
    }

    /// The channel after a length step.
    pub open spec fn length_clocked(self) -> Square {
        Square {
            length: self.length.clocked(),
            enabled: self.enabled && !self.length.expires(),
            ..self
        }
    }

    /// The channel after an envelope step.
    pub open spec fn envelope_clocked(self) -> Square {
        Square { envelope: self.envelope.clocked(), ..self }
    }

    /// The channel after a sweep step: the new frequency is taken over, and
    /// an overflow, now or in the step to come, switches the channel off.
    pub open spec fn sweep_clocked(self) -> Square {
        if self.sweep.timer > 1 {
            Square { sweep: Sweep { timer: (self.sweep.timer - 1) as u8, ..self.sweep }, ..self }
        } else {
            let sweep = self.sweep.reloaded();
            let idle = Square { sweep, ..self };
            if !sweep.enabled || sweep.period == 0 {
                idle
            } else {
                match sweep.next_frequency() {
                    Some(next) => if sweep.shift != 0 {
                        let moved = Sweep { shadow: next, ..sweep };
                        Square {
                            sweep: moved,
                            frequency: next,
                            enabled: self.enabled && moved.next_frequency() is Some,
                            ..self
                        }
                    } else {
                        idle
                    },
                    None => Square { enabled: false, ..idle },
                }
            }
        }
    }

    /// The 4-bit level, or `None` while the DAC is off.
    pub open spec fn level(self) -> Option<u8> {
        if !self.envelope.dac() {
            None
        } else if self.enabled && duty_high(self.duty as int, self.phase as int) {
            Some(self.envelope.volume)
        } else {
            Some(0)
        }
    }

    fn period(frequency: u16) -> (cycles: u32)
        requires
            frequency <= MAX_FREQUENCY,
        ensures
            cycles == Self::period_of(frequency),
            16 <= cycles <= 32768,
    {
        (2048 - frequency as u32) * 16
    }

    /// `SOUND1CNT_L`.
    pub fn write_sweep(&mut self, value: u16)
        requires
            old(self).wf(),
        ensures
            *final(self) == (Square { sweep: old(self).sweep.configured(value), ..*old(self) }),
            final(self).wf(),
    {
        self.sweep.set(value);
    }

    /// `SOUND1CNT_H` / `SOUND2CNT_L`: length, duty and envelope.
    pub fn write_length_envelope(&mut self, value: u16)
        requires
            old(self).wf(),
        ensures
            *final(self) == old(self).length_envelope_written(value),
            final(self).wf(),
    {
        self.length.load(value & 0x3F, SHORT_LENGTH_MAX);
        self.duty = ((value >> 6) & 3) as u8;
        self.envelope.set(value);
        if !self.envelope.dac_enabled() {
            self.enabled = false;
        }
    }

    /// `SOUND1CNT_X` / `SOUND2CNT_H`: frequency, length enable, restart.
    pub fn write_frequency_control(&mut self, value: u16)
        requires
            old(self).wf(),
        ensures
            *final(self) == old(self).frequency_control_written(value),
            final(self).wf(),
    {
        self.frequency = value & 0x7FF;
        self.length.enabled = value & (1u16 << 14) != 0;
        if value & (1u16 << 15) != 0 {
            self.trigger();
        }
    }

    fn trigger(&mut self)
        requires
            old(self).wf(),
        ensures
            *final(self) == old(self).triggered(),
            final(self).wf(),
    {
        self.enabled = self.envelope.dac_enabled();
        self.length.trigger(SHORT_LENGTH_MAX);
        self.timer = Self::period(self.frequency);
        self.envelope.trigger();
        self.sweep.shadow = self.frequency;
        self.sweep.reload_timer();
        self.sweep.enabled = self.sweep.period != 0 || self.sweep.shift != 0;
        if self.sweep.shift != 0 && self.sweep.next().is_none() {
            self.enabled = false;
        }
    }

    /// Whether the channel is producing sound (`SOUNDCNT_X` status bit).
    #[must_use]
    pub fn active(&self) -> (active: bool)
        ensures
            active == self.enabled,
    {
        self.enabled
    }

    /// Advances the waveform by `cycles`.
    pub fn tick(&mut self, cycles: u32)
        requires
            old(self).wf(),
        ensures
            *final(self) == old(self).ticked(cycles),
            final(self).wf(),
    {
        if cycles < self.timer {
            self.timer = self.timer - cycles;
            return;
        }
        let period: u32 = Self::period(self.frequency);
        let past: u32 = cycles - self.timer;
        proof {
            lemma_div_is_ordered_by_denominator(past as int, 8, period as int);
        }
        let steps: u32 = 1 + past / period;
        self.timer = period - past % period;
        self.phase = (self.phase + (steps % 8) as u8) % 8;
    }

    /// The 256 Hz length step.
    pub fn clock_length(&mut self)
        requires
            old(self).wf(),
        ensures
            *final(self) == old(self).length_clocked(),
            final(self).wf(),
    {
        if self.length.clock() {
            self.enabled = false;
        }
    }

    /// The 64 Hz envelope step.
    pub fn clock_envelope(&mut self)
        requires
            old(self).wf(),
        ensures
            *final(self) == old(self).envelope_clocked(),
            final(self).wf(),
    {
        self.envelope.clock();
    }

    /// The 128 Hz sweep step.
    pub fn clock_sweep(&mut self)
        requires
            old(self).wf(),
        ensures
            *final(self) == old(self).sweep_clocked(),
            final(self).wf(),
    {
        self.sweep.timer = self.sweep.timer.saturating_sub(1);
        if self.sweep.timer != 0 {
            return;
        }
        self.sweep.reload_timer();
        if !self.sweep.enabled || self.sweep.period == 0 {
            return;
        }
        match self.sweep.next() {
            Some(next) => {
                if self.sweep.shift != 0 {
                    self.sweep.shadow = next;
                    self.frequency = next;
                    if self.sweep.next().is_none() {
                        self.enabled = false;
                    }
                }
            },
            None => {
                self.enabled = false;
            },
        }
    }

    /// The current 4-bit level, or `None` while the DAC is off.
    #[must_use]
    pub fn output(&self) -> (level: Option<u8>)
        requires
            self.wf(),
        ensures
            level == self.level(),
            level matches Some(v) ==> v <= 15,
    {
        if !self.envelope.dac_enabled() {
            return None;
        }
        let high = self.enabled && is_high(self.duty, self.phase);
        Some(
            if high {
                self.envelope.volume
            } else {
                0
            },
        )
    }
}

/// The programmable wave channel (channel 3): 32 or 64 four-bit samples
/// from two 16-byte banks of wave RAM.
#[derive(Debug, Clone, Copy)]
pub struct Wave {
    /// Whether the channel sounds.
    pub enabled: bool,
    /// `SOUND3CNT_L` bit 7: the channel's DAC.
    pub playing: bool,
    /// Whether both banks play, one after the other.
    pub two_banks: bool,
    /// Bank that is (or starts) playing; the CPU accesses the other one.
    pub bank: usize,
    /// The two banks, one after the other.
    pub ram: [u8; 32],
    /// Sample being played.
    pub position: u8,
    /// 11-bit frequency.
    pub frequency: u16,
    /// Cycles until the next sample.
    pub timer: u32,
    /// Volume setting.
    pub volume: u8,
    /// Whether the volume is forced to 75 %.
    pub force_three_quarters: bool,
    /// Length counter.
    pub length: Length,
}

/// The mathematical wave channel.
#[verifier::ext_equal]
pub struct WaveView {
    /// Whether the channel sounds.
    pub enabled: bool,
    /// Whether the DAC is on.
    pub playing: bool,
    /// Whether both banks play.
    pub two_banks: bool,
    /// Bank selected for playback.
    pub bank: int,
    /// The two banks, one after the other.
    pub ram: Seq<u8>,
    /// Sample being played.
    pub position: u8,
    /// 11-bit frequency.
    pub frequency: u16,
    /// Cycles until the next sample.
    pub timer: u32,
    /// Volume setting.
    pub volume: u8,
    /// Whether the volume is forced to 75 %.
    pub force_three_quarters: bool,
    /// Length counter.
    pub length: Length,
}

impl View for Wave {
    type V = WaveView;

    open spec fn view(&self) -> WaveView {
        WaveView {
            enabled: self.enabled,
            playing: self.playing,
            two_banks: self.two_banks,
            bank: self.bank as int,
            ram: self.ram@,
            position: self.position,
            frequency: self.frequency,
            timer: self.timer,
            volume: self.volume,
            force_three_quarters: self.force_three_quarters,
            length: self.length,
        }
    }
}

impl WaveView {
    /// The power-on channel.
    pub open spec fn silent() -> WaveView {
        WaveView {
            enabled: false,
            playing: false,
            two_banks: false,
            bank: 0,
            ram: Seq::new(32, |i: int| 0u8),
            position: 0,
            frequency: 0,
            timer: 0,
            volume: 0,
            force_three_quarters: false,
            length: Length::idle(),
        }
    }

    /// Every field is within its register width.
    pub open spec fn wf(self) -> bool {
        &&& 0 <= self.bank <= 1
        &&& self.ram.len() == 32
        &&& self.position <= 63
        &&& self.frequency <= MAX_FREQUENCY
        &&& self.volume <= 3
    }

    /// Cycles per sample.
    pub open spec fn period_of(frequency: u16) -> int {
        (2048 - frequency) * 8
    }

    /// The channel after `SOUND3CNT_L` is written.
    pub open spec fn mode_written(self, value: u16) -> WaveView {
        let playing = value & (1u16 << 7) != 0;
        WaveView {
            two_banks: value & (1u16 << 5) != 0,
            bank: ((value >> 6) & 1) as int,
            playing,
            enabled: self.enabled && playing,
            ..self
        }
    }

    /// The channel after `SOUND3CNT_H` is written.
    pub open spec fn length_volume_written(self, value: u16) -> WaveView {
        WaveView {
            length: self.length.loaded(value & 0xFF, WAVE_LENGTH_MAX),
            volume: ((value >> 13) & 3) as u8,
            force_three_quarters: value & (1u16 << 15) != 0,
            ..self
        }
    }

    /// The channel after `SOUND3CNT_X` is written.
    pub open spec fn frequency_control_written(self, value: u16) -> WaveView {
        let set = WaveView {
            frequency: value & 0x7FF,
            length: Length { enabled: value & (1u16 << 14) != 0, ..self.length },
            ..self
        };
        if value & (1u16 << 15) != 0 {
            WaveView {
                enabled: self.playing,
                length: set.length.triggered(WAVE_LENGTH_MAX),
                timer: Self::period_of(set.frequency) as u32,
                position: 0,
                ..set
            }
        } else {
            set
        }
    }

    /// Where the halfword at `offset` of the CPU's bank lies.
    pub open spec fn cpu_index(self, offset: usize) -> int {
        16 * (1 - self.bank) + (offset & 0xE)
    }

    /// The halfword at `offset` of the bank that is not playing.
    pub open spec fn ram_half(self, offset: usize) -> u16 {
        half_at(self.ram, self.cpu_index(offset))
    }

    /// The channel after that halfword is replaced.
    pub open spec fn ram_written(self, offset: usize, value: u16) -> WaveView {
        WaveView { ram: with_half(self.ram, self.cpu_index(offset), value), ..self }
    }

    /// Samples in a full pass.
    pub open spec fn sample_count(self) -> int {
        if self.two_banks {
            64
        } else {
            32
        }
    }

    /// The channel after playback advances by `cycles`.
    pub open spec fn ticked(self, cycles: u32) -> WaveView {
        let period = Self::period_of(self.frequency);
        WaveView {
            timer: timer_after(self.timer, period, cycles),
            position: if cycles < self.timer {
                self.position
            } else {
                ((self.position + steps_passed(self.timer, period, cycles))
                    % self.sample_count()) as u8
            },
            ..self
        }
    }

    /// The channel after a length step.
    pub open spec fn length_clocked(self) -> WaveView {
        WaveView {
            length: self.length.clocked(),
            enabled: self.enabled && !self.length.expires(),
            ..self
        }
    }

    /// The 4-bit sample at the playback position.
    pub open spec fn current_sample(self) -> u8 {
        let bank = if self.two_banks {
            (self.bank + self.position as int / 32) % 2
        } else {
            self.bank
        };
        let byte = self.ram[16 * bank + (self.position as int % 32) / 2];
        if self.position % 2 == 0 {
            byte >> 4
        } else {
            byte & 0xF
        }
    }

    /// The 4-bit level, or `None` while the DAC is off.
    pub open spec fn level(self) -> Option<u8> {
        let sample = self.current_sample();
        if !self.playing {
            None
        } else if !self.enabled {
            Some(0)
        } else if self.force_three_quarters {
            Some((sample * 3 / 4) as u8)
        } else if self.volume == 0 {
            Some(0)
        } else if self.volume == 1 {
            Some(sample)
        } else if self.volume == 2 {
            Some(sample >> 1)
        } else {
            Some(sample >> 2)
        }
    }
}

impl Default for Wave {
    fn default() -> (wave: Self)
        ensures
            wave@ == WaveView::silent(),
            wave.wf(),
    {
        let ram: [u8; 32] = [
            0, 0, 0, 0, 0, 0, 0, 0, 0, 0, 0, 0, 0, 0, 0, 0,
            0, 0, 0, 0, 0, 0, 0, 0, 0, 0, 0, 0, 0, 0, 0, 0,
        ];
        assert(ram@ =~= Seq::new(32, |i: int| 0u8));
        let wave = Wave {
            enabled: false,
            playing: false,
            two_banks: false,
            bank: 0,
            ram,
            position: 0,
            frequency: 0,
            timer: 0,
            volume: 0,
            force_three_quarters: false,
            length: Length { counter: 0, enabled: false },
        };
        wave
    }
}

proof fn lemma_nibbles()
    by (bit_vector)
    ensures
        forall|b: u8| #[trigger] (b >> 4) <= 15,
        forall|b: u8| b <= 15 ==> #[trigger] (b >> 1) <= 15,
        forall|b: u8| b <= 15 ==> #[trigger] (b >> 2) <= 15,
{
}

impl Wave {
    /// Every field is within its register width.
    pub open spec fn wf(&self) -> bool {
        self@.wf()
    }

    fn period(frequency: u16) -> (cycles: u32)
        requires
            frequency <= MAX_FREQUENCY,
        ensures
            cycles == WaveView::period_of(frequency),
            8 <= cycles <= 16384,
    {
        (2048 - frequency as u32) * 8
    }

    /// `SOUND3CNT_L`: bank layout and DAC.
    pub fn write_mode(&mut self, value: u16)
        requires
            old(self).wf(),
        ensures
            final(self)@ == old(self)@.mode_written(value),
            final(self).wf(),
    {
        self.two_banks = value & (1u16 << 5) != 0;
        self.bank = ((value >> 6) & 1) as usize;
        self.playing = value & (1u16 << 7) != 0;
        if !self.playing {
            self.enabled = false;
        }
    }

    /// `SOUND3CNT_H`: length and volume.
    pub fn write_length_volume(&mut self, value: u16)
        requires
            old(self).wf(),
        ensures
            final(self)@ == old(self)@.length_volume_written(value),
            final(self).wf(),
    {
        self.length.load(value & 0xFF, WAVE_LENGTH_MAX);
        self.volume = ((value >> 13) & 3) as u8;
        self.force_three_quarters = value & (1u16 << 15) != 0;
    }

    /// `SOUND3CNT_X`: sample rate, length enable, restart.
    pub fn write_frequency_control(&mut self, value: u16)
        requires
            old(self).wf(),
        ensures
            final(self)@ == old(self)@.frequency_control_written(value),
            final(self).wf(),
    {
        self.frequency = value & 0x7FF;
        self.length.enabled = value & (1u16 << 14) != 0;
        if value & (1u16 << 15) != 0 {
            self.enabled = self.playing;
            self.length.trigger(WAVE_LENGTH_MAX);
            self.timer = Self::period(self.frequency);
            self.position = 0;
        }
    }

    /// Reads a halfword of wave RAM (`0x90..0xA0`), from the bank that is
    /// not selected for playback.
    #[must_use]
    pub fn read_ram(&self, offset: usize) -> (value: u16)
        requires
            self.wf(),
        ensures
            value == self@.ram_half(offset),
    {
        let index: usize = 16 * (1 - self.bank) + (offset & 0xE);
        le16(self.ram[index], self.ram[index + 1])
    }

    /// Writes a halfword of wave RAM.
    pub fn write_ram(&mut self, offset: usize, value: u16)
        requires
            old(self).wf(),
        ensures
            final(self)@ == old(self)@.ram_written(offset, value),
            final(self).wf(),
    {
        let index: usize = 16 * (1 - self.bank) + (offset & 0xE);
        self.ram[index] = value as u8;
        self.ram[index + 1] = (value >> 8) as u8;
    }

    /// Whether the channel is producing sound.
    #[must_use]
    pub fn active(&self) -> (active: bool)
        ensures
            active == self@.enabled,
    {
        self.enabled
    }

    fn sample_count(&self) -> (count: u8)
        ensures
            count == self@.sample_count(),
            count == 32 || count == 64,
    {
        if self.two_banks {
            64
        } else {
            32
        }
    }

    /// Advances playback by `cycles`.
    pub fn tick(&mut self, cycles: u32)
        requires
            old(self).wf(),
        ensures
            final(self)@ == old(self)@.ticked(cycles),
            final(self).wf(),
    {
        if cycles < self.timer {
            self.timer = self.timer - cycles;
            return;
        }
        let period: u32 = Self::period(self.frequency);
        let past: u32 = cycles - self.timer;
        proof {
            lemma_div_is_ordered_by_denominator(past as int, 8, period as int);
        }
        let steps: u32 = 1 + past / period;
        self.timer = period - past % period;
        let count: u32 = self.sample_count() as u32;
        self.position = ((self.position as u32 + steps) % count) as u8;
    }

    /// The 256 Hz length step.
    pub fn clock_length(&mut self)
        requires
            old(self).wf(),
        ensures
            final(self)@ == old(self)@.length_clocked(),
            final(self).wf(),
    {
        if self.length.clock() {
            self.enabled = false;
        }
    }

    /// The current 4-bit level, or `None` while the DAC is off.
    #[must_use]
    pub fn output(&self) -> (level: Option<u8>)
        requires
            self.wf(),
        ensures
            level == self@.level(),
            level matches Some(v) ==> v <= 15,
    {
        if !self.playing {
            return None;
        }
        if !self.enabled {
            return Some(0);
        }
        proof {
            lemma_nibbles();
        }
        let position: usize = self.position as usize;
        let bank: usize = if self.two_banks {
            (self.bank + position / 32) % 2
        } else {
            self.bank
        };
        let byte: u8 = self.ram[16 * bank + (position % 32) / 2];
        let sample: u8 = if position % 2 == 0 {
            byte >> 4
        } else {
            byte & 0xF
        };
        Some(
            if self.force_three_quarters {
                sample * 3 / 4
            } else {
                match self.volume {
                    0 => 0,
                    1 => sample,
                    2 => sample >> 1,
                    _ => sample >> 2,
                }
            },
        )
    }
}

/// The noise channel (channel 4): a linear-feedback shift register clocked
/// at a programmable rate.
#[derive(Debug, Clone, Copy, PartialEq, Eq, Structural)]
pub struct Noise {
    /// Whether the channel sounds.
    pub enabled: bool,
    /// The shift register.
    pub lfsr: u16,
    /// 7-bit mode: shorter, more tonal sequence.
    pub narrow: bool,
    /// Clock divider exponent.
    pub shift: u8,
    /// Clock divider factor.
    pub ratio: u8,
    /// Cycles until the next shift.
    pub timer: u32,
    /// Length counter.
    pub length: Length,
    /// Volume envelope.
    pub envelope: Envelope,
}

/// The shift register one step on: the feedback bit enters at bit 14 and,
/// in narrow mode, at bit 6 too.
pub open spec fn lfsr_next(lfsr: u16, narrow: bool) -> u16 {
    let feedback = (lfsr ^ (lfsr >> 1)) & 1;
    let wide = (lfsr >> 1) | (feedback << 14);
    if narrow {
        (wide & !(1u16 << 6)) | (feedback << 6)
    } else {
        wide
    }
}

/// The shift register `steps` steps on.
pub open spec fn lfsr_after(lfsr: u16, narrow: bool, steps: int) -> u16
    decreases steps,
{
    if steps <= 0 {
        lfsr
    } else {
        lfsr_next(lfsr_after(lfsr, narrow, steps - 1), narrow)
    }
}

impl Default for Noise {
    fn default() -> (noise: Self)
        ensures
            noise == Self::silent(),
            noise.wf(),
    {
        Noise {
            enabled: false,
            lfsr: 0x7FFF,
            narrow: false,
            shift: 0,
            ratio: 0,
            timer: 0,
            length: Length { counter: 0, enabled: false },
            envelope: Envelope { initial: 0, increase: false, period: 0, volume: 0, timer: 0 },
        }
    }
}

proof fn lemma_noise_divider(d: u32, n: u32)
    requires
        16 <= d <= 224,
        1 <= n <= 16,
    ensures
        32 <= d << n,
        d << n <= 0xE0_0000,
{
    crate::bits::word_facts(d, 0, n, 0);
}

impl Noise {
    /// The power-on channel.
    pub open spec fn silent() -> Noise {
        Noise {
            enabled: false,
            lfsr: 0x7FFF,
            narrow: false,
            shift: 0,
            ratio: 0,
            timer: 0,
            length: Length::idle(),
            envelope: Envelope::idle(),
        }
    }

    /// Every field is within its register width.
    pub open spec fn wf(self) -> bool {
        self.shift <= 15 && self.ratio <= 7 && self.envelope.wf()
    }

    /// Cycles per shift.
    pub open spec fn shift_period(self) -> u32 {
        let divisor: u32 = if self.ratio == 0 {
            16
        } else {
            (32 * self.ratio) as u32
        };
        divisor << ((self.shift + 1) as u32)
    }

    /// The channel after `SOUND4CNT_L` is written.
    pub open spec fn length_envelope_written(self, value: u16) -> Noise {
        let envelope = self.envelope.configured(value);
        Noise {
            length: self.length.loaded(value & 0x3F, SHORT_LENGTH_MAX),
            envelope,
            enabled: self.enabled && envelope.dac(),
            ..self
        }
    }

    /// The channel after `SOUND4CNT_H` is written.
    pub open spec fn control_written(self, value: u16) -> Noise {
        let set = Noise {
            ratio: (value & 7) as u8,
            narrow: value & (1u16 << 3) != 0,
            shift: ((value >> 4) & 0xF) as u8,
            length: Length { enabled: value & (1u16 << 14) != 0, ..self.length },
            ..self
        };
        if value & (1u16 << 15) != 0 {
            Noise {
                enabled: self.envelope.dac(),
                length: set.length.triggered(SHORT_LENGTH_MAX),
                timer: set.shift_period(),
                envelope: self.envelope.triggered(),
                lfsr: 0x7FFF,
                ..set
            }
        } else {
            set
        }
    }

    /// The channel after `cycles`. Shift values 14 and 15 stop the clock.
    pub open spec fn ticked(self, cycles: u32) -> Noise {
        let period = self.shift_period() as int;
        if self.shift >= 14 {
            self
        } else {
            Noise {
                timer: timer_after(self.timer, period, cycles),
                lfsr: lfsr_after(
                    self.lfsr,
                    self.narrow,
                    steps_passed(self.timer, period, cycles),
                ),
                ..self
            }
        }
    }

    /// The channel after a length step.
    pub open spec fn length_clocked(self) -> Noise {
        Noise {
            length: self.length.clocked(),
            enabled: self.enabled && !self.length.expires(),
            ..self
        }
    }

    /// The channel after an envelope step.
    pub open spec fn envelope_clocked(self) -> Noise {
        Noise { envelope: self.envelope.clocked(), ..self }
    }

    /// The 4-bit level, or `None` while the DAC is off.
    pub open spec fn level(self) -> Option<u8> {
        if !self.envelope.dac() {
            None
        } else if self.enabled && self.lfsr & 1 == 0 {
            Some(self.envelope.volume)
        } else {
            Some(0)
        }
    }

    /// Cycles per shift.
    #[must_use]
    pub fn period(&self) -> (cycles: u32)
        requires
            self.wf(),
        ensures
            cycles == self.shift_period(),
            32 <= cycles <= 0xE0_0000,
    {
        let divisor: u32 = if self.ratio == 0 {
            16
        } else {
            32 * self.ratio as u32
        };
        let exponent: u32 = self.shift as u32 + 1;
        proof {
            lemma_noise_divider(divisor, exponent);
        }
        divisor << exponent
    }

    /// `SOUND4CNT_L`: length and envelope.
    pub fn write_length_envelope(&mut self, value: u16)
        requires
            old(self).wf(),
        ensures
            *final(self) == old(self).length_envelope_written(value),
            final(self).wf(),
    {
        self.length.load(value & 0x3F, SHORT_LENGTH_MAX);
        self.envelope.set(value);
        if !self.envelope.dac_enabled() {
            self.enabled = false;
        }
    }

    /// `SOUND4CNT_H`: clock divider, width, length enable, restart.
    pub fn write_control(&mut self, value: u16)
        requires
            old(self).wf(),
        ensures
            *final(self) == old(self).control_written(value),
            final(self).wf(),
    {
        self.ratio = (value & 7) as u8;
        self.narrow = value & (1u16 << 3) != 0;
        self.shift = ((value >> 4) & 0xF) as u8;
        self.length.enabled = value & (1u16 << 14) != 0;
        if value & (1u16 << 15) != 0 {
            self.enabled = self.envelope.dac_enabled();
            self.length.trigger(SHORT_LENGTH_MAX);
            self.timer = self.period();
            self.envelope.trigger();
            self.lfsr = 0x7FFF;
        }
    }

    /// Whether the channel is producing sound.
    #[must_use]
    pub fn active(&self) -> (active: bool)
        ensures
            active == self.enabled,
    {
        self.enabled
    }

    /// Advances the shift register by `cycles`.
    pub fn tick(&mut self, cycles: u32)
        requires
            old(self).wf(),
        ensures
            *final(self) == old(self).ticked(cycles),
            final(self).wf(),
    {
        // Shift values 14 and 15 are too slow to be usable; the sequence
        // simply stops.
        if self.shift >= 14 {
            return;
        }
        let period: u32 = self.period();
        if cycles < self.timer {
            self.timer = self.timer - cycles;
            return;
        }
        let mut left: u32 = cycles - self.timer;
        self.lfsr = Self::shifted(self.lfsr, self.narrow);
        let ghost past = left as int;
        let ghost start = old(self).lfsr;
        let ghost mut steps: int = 1;
        proof {
            reveal_with_fuel(lfsr_after, 2);
            assert((steps - 1) * period == 0) by (nonlinear_arith)
                requires
                    steps == 1,
            ;
        }
        while left >= period
            invariant
                period >= 32,
                steps >= 1,
                past == left + (steps - 1) * period,
                self.lfsr == lfsr_after(start, self.narrow, steps),
                *self == (Noise { lfsr: self.lfsr, ..*old(self) }),
            decreases left,
        {
            left = left - period;
            self.lfsr = Self::shifted(self.lfsr, self.narrow);
            proof {
                assert((steps + 1 - 1) * period == (steps - 1) * period + period)
                    by (nonlinear_arith);
                steps = steps + 1;
            }
        }
        proof {
            assert((steps - 1) * period == period * (steps - 1)) by (nonlinear_arith);
            lemma_fundamental_div_mod_converse(past, period as int, steps - 1, left as int);
        }
        self.timer = period - left;
    }

    /// One step of the shift register.
    fn shifted(lfsr: u16, narrow: bool) -> (next: u16)
        ensures
            next == lfsr_next(lfsr, narrow),
    {
        let feedback: u16 = (lfsr ^ (lfsr >> 1)) & 1;
        let wide: u16 = (lfsr >> 1) | (feedback << 14);
        if narrow {
            (wide & !(1u16 << 6)) | (feedback << 6)
        } else {
            wide
        }
    }

    /// The 256 Hz length step.
    pub fn clock_length(&mut self)
        requires
            old(self).wf(),
        ensures
            *final(self) == old(self).length_clocked(),
            final(self).wf(),
    {
        if self.length.clock() {
            self.enabled = false;
        }
    }

    /// The 64 Hz envelope step.
    pub fn clock_envelope(&mut self)
        requires
            old(self).wf(),
        ensures
            *final(self) == old(self).envelope_clocked(),
            final(self).wf(),
    {
        self.envelope.clock();
    }

    /// The current 4-bit level, or `None` while the DAC is off.
    #[must_use]
    pub fn output(&self) -> (level: Option<u8>)
        requires
            self.wf(),
        ensures
            level == self.level(),
            level matches Some(v) ==> v <= 15,
    {
        if !self.envelope.dac_enabled() {
            return None;
        }
        let high = self.enabled && self.lfsr & 1 == 0;
        Some(
            if high {
                self.envelope.volume
            } else {
                0
            },
        )
    }
}

} // verus!
