//! Sound: the four PSG channels, the two direct-sound FIFOs, the mixer
//! and the sample buffer.
//!
//! The APU is stepped with the rest of the system and emits one stereo
//! sample pair every [`CYCLES_PER_SAMPLE`] cycles, i.e. at
//! [`SAMPLE_RATE`] Hz, into a buffer the frontend drains.
//!
//! Channel timers are advanced once per output sample rather than per
//! system cycle. That is exact for the sample values (a channel's level at
//! the sampling instant is what is heard) and keeps the cost proportional
//! to the sample rate.

use vstd::prelude::*;

pub mod fifo;
pub mod laws;
pub mod mix_laws;
pub mod psg;
pub mod psg_laws;
pub mod reg;

use fifo::{Fifo, FifoView};
use psg::{Noise, Square, Wave, WaveView};

verus! {

broadcast use crate::bits::group_mask_bounds;

/// Output sample rate in Hz. Chosen so that a sample is an integer number
/// of system cycles (16 777 216 / 32 768 = 512).
pub const SAMPLE_RATE: u32 = 32_768;

/// System cycles per output sample.
pub const CYCLES_PER_SAMPLE: u32 = 512;

/// The frame sequencer runs at 512 Hz: every 64 samples.
pub const SEQUENCER_INTERVAL: u32 = SAMPLE_RATE / 512;

/// First register offset the APU owns.
pub const REGISTER_FIRST: u32 = 0x060;

/// Last register offset the APU owns.
pub const REGISTER_LAST: u32 = 0x0A7;

/// Full-scale of the mixed 10-bit output, before the bias is added.
pub const OUTPUT_LIMIT: i32 = 0x200;

/// Whether the APU owns the register at `offset`.
pub open spec fn owns(offset: u32) -> bool {
    REGISTER_FIRST <= offset <= REGISTER_LAST
}

/// Bits that read back from the register at even offset `0x60 + 2 * index`;
/// write-only fields (lengths, frequencies, restart bits) and unused
/// registers read as zero.
pub open spec fn readable_bits(index: int) -> u16 {
    if index == 0 {
        0x007F  // 60 SOUND1CNT_L

    } else if index == 1 || index == 4 {
        0xFFC0  // 62 SOUND1CNT_H, 68 SOUND2CNT_L

    } else if index == 2 || index == 6 || index == 10 {
        0x4000  // 64 SOUND1CNT_X, 6C SOUND2CNT_H, 74 SOUND3CNT_X

    } else if index == 8 {
        0x00E0  // 70 SOUND3CNT_L

    } else if index == 9 {
        0xE000  // 72 SOUND3CNT_H

    } else if index == 12 {
        0xFF00  // 78 SOUND4CNT_L

    } else if index == 14 {
        0x40FF  // 7C SOUND4CNT_H

    } else if index == 16 {
        0xFF77  // 80 SOUNDCNT_L

    } else if index == 17 {
        0x770F  // 82 SOUNDCNT_H

    } else if index == 18 {
        0x0080  // 84 SOUNDCNT_X (status bits are added live)

    } else if index == 20 {
        0xC3FE  // 88 SOUNDBIAS

    } else {
        0x0000
    }
}

fn read_mask(index: usize) -> (mask: u16)
    ensures
        mask == readable_bits(index as int),
{
    match index {
        0 => 0x007F,
        1 | 4 => 0xFFC0,
        2 | 6 | 10 => 0x4000,
        8 => 0x00E0,
        9 => 0xE000,
        12 => 0xFF00,
        14 => 0x40FF,
        16 => 0xFF77,
        17 => 0x770F,
        18 => 0x0080,
        20 => 0xC3FE,
        _ => 0x0000,
    }
}

/// Index of the halfword register at `offset`.
pub open spec fn register_index(offset: u32) -> int {
    (offset - 0x60) / 2
}

/// The sound unit.
#[derive(Debug)]
pub struct Apu {
    /// Registers as last written, for read-back and byte-wise merging.
    pub raw: [u16; 24],
    /// Channel 1.
    pub square1: Square,
    /// Channel 2.
    pub square2: Square,
    /// Channel 3.
    pub wave: Wave,
    /// Channel 4.
    pub noise: Noise,
    /// Direct-sound FIFOs A and B.
    pub fifo: [Fifo; 2],
    /// Cycles accumulated towards the next output sample.
    pub cycles: u32,
    /// Samples produced since the last frame-sequencer step.
    pub sequencer_samples: u32,
    /// The next frame-sequencer step.
    pub sequencer_step: u8,
    /// Interleaved stereo output, left then right.
    pub samples: Vec<i16>,
}

/// The mathematical sound unit.
pub struct ApuView {
    /// Registers as last written.
    pub raw: Seq<u16>,
    /// Channel 1.
    pub square1: Square,
    /// Channel 2.
    pub square2: Square,
    /// Channel 3.
    pub wave: WaveView,
    /// Channel 4.
    pub noise: Noise,
    /// FIFO A.
    pub fifo_a: FifoView,
    /// FIFO B.
    pub fifo_b: FifoView,
    /// Cycles accumulated towards the next output sample.
    pub cycles: u32,
    /// Samples produced since the last frame-sequencer step.
    pub sequencer_samples: u32,
    /// The next frame-sequencer step.
    pub sequencer_step: u8,
    /// Interleaved stereo output.
    pub samples: Seq<i16>,
}

impl View for Apu {
    type V = ApuView;

    open spec fn view(&self) -> ApuView {
        ApuView {
            raw: self.raw@,
            square1: self.square1,
            square2: self.square2,
            wave: self.wave@,
            noise: self.noise,
            fifo_a: self.fifo@[0]@,
            fifo_b: self.fifo@[1]@,
            cycles: self.cycles,
            sequencer_samples: self.sequencer_samples,
            sequencer_step: self.sequencer_step,
            samples: self.samples@,
        }
    }
}

/// A channel's DAC output, centred: levels 0–15 become -15–15, and a DAC
/// that is off is silent.
pub open spec fn centred(level: Option<u8>) -> int {
    match level {
        Some(v) => v * 2 - 15,
        None => 0,
    }
}

/// `n / d` rounded towards zero.
pub open spec fn truncated_quotient(n: int, d: int) -> int {
    if n >= 0 {
        n / d
    } else {
        -((-n) / d)
    }
}

/// The PSG sum at a side's volume and the mixer's ratio. Four channels at
/// full volume and 100 % ratio span the whole 10-bit range:
/// 60 * 8 * 4 = 1920 becomes 512.
pub open spec fn amplified(sum: int, gain: int, scale: int) -> int {
    truncated_quotient(sum * gain * scale * 512, 1920)
}

/// `value` when `on`.
pub open spec fn gated(on: bool, value: int) -> int {
    if on {
        value
    } else {
        0
    }
}

/// The sum of the channels whose bit in `on` is set, centred.
pub open spec fn channel_sum(
    on: u16,
    square1: Option<u8>,
    square2: Option<u8>,
    wave: Option<u8>,
    noise: Option<u8>,
) -> int {
    gated(on & 1 != 0, centred(square1)) + gated(on & 2 != 0, centred(square2)) + gated(
        on & 4 != 0,
        centred(wave),
    ) + gated(on & 8 != 0, centred(noise))
}

/// `value` limited to `-0x200..=0x1FF`.
pub open spec fn limited(value: int) -> int {
    if value < -0x200 {
        -0x200
    } else if value > 0x1FF {
        0x1FF
    } else {
        value
    }
}

impl ApuView {
    /// The power-on state.
    pub open spec fn initial() -> ApuView {
        ApuView {
            raw: Seq::new(
                24,
                |i: int|
                    if i == 20 {
                        0x0200u16
                    } else {
                        0
                    },
            ),
            square1: Square::silent(),
            square2: Square::silent(),
            wave: WaveView::silent(),
            noise: Noise::silent(),
            fifo_a: FifoView::empty(),
            fifo_b: FifoView::empty(),
            cycles: 0,
            sequencer_samples: 0,
            sequencer_step: 0,
            samples: Seq::empty(),
        }
    }

    /// `SOUNDCNT_X` bit 7.
    pub open spec fn master_enabled(self) -> bool {
        self.raw[18] & 0x80 != 0
    }

    /// The channel-active bits of `SOUNDCNT_X`.
    pub open spec fn status(self) -> u16 {
        (self.square1.enabled as u16) | ((self.square2.enabled as u16) << 1) | ((
        self.wave.enabled as u16) << 2) | ((self.noise.enabled as u16) << 3)
    }

    /// The halfword that a read at `offset` returns.
    pub open spec fn read16(self, offset: u32) -> u16 {
        if offset == reg::SOUNDCNT_X {
            (self.raw[18] & 0x80) | self.status()
        } else if reg::SOUND1CNT_L <= offset < reg::WAVE_RAM {
            self.raw[register_index(offset)] & readable_bits(register_index(offset))
        } else if reg::WAVE_RAM <= offset < reg::FIFO_A {
            self.wave.ram_half((offset - reg::WAVE_RAM) as usize)
        } else {
            0
        }
    }

    /// The state with the register at `offset` replaced.
    pub open spec fn with_raw(self, offset: u32, value: u16) -> ApuView {
        ApuView { raw: self.raw.update(register_index(offset), value), ..self }
    }

    /// The state after a channel register is decoded.
    pub open spec fn channel_written(self, offset: u32, value: u16) -> ApuView {
        if offset == reg::SOUND1CNT_L {
            ApuView {
                square1: Square { sweep: self.square1.sweep.configured(value), ..self.square1 },
                ..self
            }
        } else if offset == reg::SOUND1CNT_H {
            ApuView { square1: self.square1.length_envelope_written(value), ..self }
        } else if offset == reg::SOUND1CNT_X {
            ApuView { square1: self.square1.frequency_control_written(value), ..self }
        } else if offset == reg::SOUND2CNT_L {
            ApuView { square2: self.square2.length_envelope_written(value), ..self }
        } else if offset == reg::SOUND2CNT_H {
            ApuView { square2: self.square2.frequency_control_written(value), ..self }
        } else if offset == reg::SOUND3CNT_L {
            ApuView { wave: self.wave.mode_written(value), ..self }
        } else if offset == reg::SOUND3CNT_H {
            ApuView { wave: self.wave.length_volume_written(value), ..self }
        } else if offset == reg::SOUND3CNT_X {
            ApuView { wave: self.wave.frequency_control_written(value), ..self }
        } else if offset == reg::SOUND4CNT_L {
            ApuView { noise: self.noise.length_envelope_written(value), ..self }
        } else if offset == reg::SOUND4CNT_H {
            ApuView { noise: self.noise.control_written(value), ..self }
        } else {
            self
        }
    }

    /// The state after the master enable drops: every PSG register and
    /// channel is reset.
    pub open spec fn powered_off(self) -> ApuView {
        ApuView {
            raw: Seq::new(
                24,
                |i: int|
                    if i < 17 {
                        0u16
                    } else {
                        self.raw[i]
                    },
            ),
            square1: Square::silent(),
            square2: Square::silent(),
            wave: WaveView::silent(),
            noise: Noise::silent(),
            sequencer_step: 0,
            sequencer_samples: 0,
            ..self
        }
    }

    /// The state after `bytes` are queued in the FIFO at `offset`.
    pub open spec fn fifo_pushed(self, offset: u32, bytes: Seq<u8>) -> ApuView {
        if offset >= reg::FIFO_B {
            ApuView { fifo_b: self.fifo_b.push(bytes), ..self }
        } else {
            ApuView { fifo_a: self.fifo_a.push(bytes), ..self }
        }
    }

    /// The state after `SOUNDCNT_H` is written. Bits 11 and 15 reset the
    /// FIFOs and read back as zero.
    pub open spec fn control_written(self, value: u16) -> ApuView {
        let reset = ApuView {
            fifo_a: if value & (1u16 << 11) != 0 {
                FifoView::empty()
            } else {
                self.fifo_a
            },
            fifo_b: if value & (1u16 << 15) != 0 {
                FifoView::empty()
            } else {
                self.fifo_b
            },
            ..self
        };
        reset.with_raw(reg::SOUNDCNT_H, value & !0x8800u16)
    }

    /// The state after a halfword is written at `offset`.
    pub open spec fn write16(self, offset: u32, value: u16) -> ApuView {
        if reg::SOUND1CNT_L <= offset < reg::SOUNDCNT_H {
            if self.master_enabled() {
                self.with_raw(offset, value).channel_written(offset, value)
            } else {
                self
            }
        } else if offset == reg::SOUNDCNT_H {
            self.control_written(value)
        } else if offset == reg::SOUNDBIAS {
            self.with_raw(offset, value)
        } else if offset == reg::SOUNDCNT_X {
            let set = self.with_raw(offset, value & 0x80);
            if self.master_enabled() && !set.master_enabled() {
                set.powered_off()
            } else {
                set
            }
        } else if reg::WAVE_RAM <= offset < reg::FIFO_A {
            ApuView {
                wave: self.wave.ram_written((offset - reg::WAVE_RAM) as usize, value),
                ..self
            }
        } else if reg::FIFO_A <= offset <= REGISTER_LAST {
            self.fifo_pushed(offset, seq![value as u8, (value >> 8) as u8])
        } else {
            self
        }
    }

    /// The state after a byte is written at `offset`: it is merged into the
    /// halfword as last written, or queued.
    pub open spec fn write8(self, offset: u32, value: u8) -> ApuView {
        let aligned = offset & !1u32;
        let current = if reg::SOUND1CNT_L <= aligned < reg::WAVE_RAM {
            self.raw[register_index(aligned)]
        } else {
            self.read16(aligned)
        };
        if offset >= reg::FIFO_A {
            self.fifo_pushed(offset, seq![value])
        } else {
            self.write16(aligned, merged_byte(current, offset, value))
        }
    }

    /// The state after one 512 Hz step: lengths on even steps, sweep on 2
    /// and 6, envelopes on 7.
    pub open spec fn sequencer_clocked(self) -> ApuView {
        let step = self.sequencer_step;
        let lengths = if step % 2 == 0 {
            ApuView {
                square1: self.square1.length_clocked(),
                square2: self.square2.length_clocked(),
                wave: self.wave.length_clocked(),
                noise: self.noise.length_clocked(),
                ..self
            }
        } else {
            self
        };
        let sweeps = if step == 2 || step == 6 {
            ApuView { square1: lengths.square1.sweep_clocked(), ..lengths }
        } else {
            lengths
        };
        let envelopes = if step == 7 {
            ApuView {
                square1: sweeps.square1.envelope_clocked(),
                square2: sweeps.square2.envelope_clocked(),
                noise: sweeps.noise.envelope_clocked(),
                ..sweeps
            }
        } else {
            sweeps
        };
        ApuView { sequencer_step: ((step + 1) % 8) as u8, ..envelopes }
    }

    /// The state after the channels advance by one output sample.
    pub open spec fn channels_advanced(self) -> ApuView {
        let ticked = ApuView {
            square1: self.square1.ticked(CYCLES_PER_SAMPLE),
            square2: self.square2.ticked(CYCLES_PER_SAMPLE),
            wave: self.wave.ticked(CYCLES_PER_SAMPLE),
            noise: self.noise.ticked(CYCLES_PER_SAMPLE),
            ..self
        };
        if self.sequencer_samples + 1 == SEQUENCER_INTERVAL {
            ApuView { sequencer_samples: 0, ..ticked }.sequencer_clocked()
        } else {
            ApuView { sequencer_samples: (self.sequencer_samples + 1) as u32, ..ticked }
        }
    }

    /// The sum of the PSG channels whose enables start at bit `enables` of
    /// `SOUNDCNT_L`.
    pub open spec fn psg_sum(self, enables: u16) -> int {
        channel_sum(
            self.raw[16] >> enables,
            self.square1.level(),
            self.square2.level(),
            self.wave.level(),
            self.noise.level(),
        )
    }

    /// The PSG contribution to one side, whose enables start at bit
    /// `enables` and whose volume starts at bit `volume` of `SOUNDCNT_L`.
    pub open spec fn psg_level(self, enables: u16, volume: u16) -> int {
        let gain = ((self.raw[16] >> volume) & 7) + 1;
        let ratio = self.raw[17] & 3;
        amplified(
            self.psg_sum(enables),
            gain,
            if ratio == 0 {
                1
            } else if ratio == 1 {
                2
            } else {
                4
            },
        )
    }

    /// The direct-sound contribution to one side: 8-bit samples at 50 % or
    /// 100 %, where 100 % spans the full 10-bit range.
    pub open spec fn direct_level(self, a_bit: u16, b_bit: u16) -> int {
        let control = self.raw[17];
        let a = self.fifo_a.sample * if control & (1u16 << 2) != 0 {
            4int
        } else {
            2
        };
        let b = self.fifo_b.sample * if control & (1u16 << 3) != 0 {
            4int
        } else {
            2
        };
        gated(control & (1u16 << a_bit) != 0, a) + gated(control & (1u16 << b_bit) != 0, b)
    }

    /// The mixed `(left, right)` pair.
    pub open spec fn mix(self) -> (i16, i16) {
        if !self.master_enabled() {
            (0, 0)
        } else {
            (
                (limited(self.psg_level(12, 4) + self.direct_level(9, 13)) * 64) as i16,
                (limited(self.psg_level(8, 0) + self.direct_level(8, 12)) * 64) as i16,
            )
        }
    }

    /// The state after one output sample.
    pub open spec fn sampled(self) -> ApuView {
        let advanced = if self.master_enabled() {
            self.channels_advanced()
        } else {
            self
        };
        let (left, right) = advanced.mix();
        ApuView { samples: advanced.samples.push(left).push(right), ..advanced }
    }

    /// The state after `count` output samples.
    pub open spec fn sampled_times(self, count: int) -> ApuView
        decreases count,
    {
        if count <= 0 {
            self
        } else {
            self.sampled_times(count - 1).sampled()
        }
    }

    /// The state after `cycles` system cycles: one sample for every 512,
    /// the rest carried over.
    #[verifier::opaque]
    pub open spec fn step(self, cycles: u32) -> ApuView {
        let total = self.cycles + cycles;
        ApuView {
            cycles: (total % 512) as u32,
            ..self.sampled_times(total / 512)
        }
    }

    /// Whether the FIFO whose timer select is bit `bit` follows `timer`.
    pub open spec fn clocked_by(self, bit: u16, timer: usize) -> bool {
        ((self.raw[17] >> bit) & 1) as usize == timer
    }

    /// The state after `timer` overflowed `count` times.
    pub open spec fn timer_overflowed(self, timer: usize, count: u32) -> ApuView {
        ApuView {
            fifo_a: if self.clocked_by(10, timer) {
                self.fifo_a.pops(count as nat)
            } else {
                self.fifo_a
            },
            fifo_b: if self.clocked_by(14, timer) {
                self.fifo_b.pops(count as nat)
            } else {
                self.fifo_b
            },
            ..self
        }
    }

    /// The FIFOs that want a refill after that (bit 0 = A, bit 1 = B).
    pub open spec fn refills(self, timer: usize, count: u32) -> u8 {
        let after = self.timer_overflowed(timer, count);
        let a = count > 0 && self.clocked_by(10, timer) && after.fifo_a.wants_refill();
        let b = count > 0 && self.clocked_by(14, timer) && after.fifo_b.wants_refill();
        if a {
            if b {
                3
            } else {
                1
            }
        } else {
            if b {
                2
            } else {
                0
            }
        }
    }
}

/// `half` with the byte that `offset` selects replaced.
pub open spec fn merged_byte(half: u16, offset: u32, value: u8) -> u16 {
    let shift = ((offset & 1) * 8) as u16;
    (half & !(0xFFu16 << shift)) | ((value as u16) << shift)
}

/// Replaces the byte of `half` that `offset` selects.
pub(crate) fn merge_byte(half: u16, offset: u32, value: u8) -> (merged: u16)
    ensures
        merged == merged_byte(half, offset, value),
{
    let shift: u16 = ((offset & 1) * 8) as u16;
    (half & !(0xFFu16 << shift)) | ((value as u16) << shift)
}

impl Clone for Apu {
    fn clone(&self) -> (copy: Self)
        ensures
            copy@ == self@,
            self.wf() ==> copy.wf(),
    {
        let samples = self.samples.clone();
        assert(samples@ =~= self.samples@);
        Self {
            raw: self.raw,
            square1: self.square1,
            square2: self.square2,
            wave: self.wave,
            noise: self.noise,
            fifo: self.fifo,
            cycles: self.cycles,
            sequencer_samples: self.sequencer_samples,
            sequencer_step: self.sequencer_step,
            samples,
        }
    }
}

impl Default for Apu {
    fn default() -> (apu: Self)
        ensures
            apu.wf(),
            apu@ == ApuView::initial(),
    {
        Self::new()
    }
}

impl Apu {
    /// The channels are within their register widths and less than one
    /// sample and one sequencer interval are pending.
    pub open spec fn wf(&self) -> bool {
        &&& self.square1.wf()
        &&& self.square2.wf()
        &&& self.wave.wf()
        &&& self.noise.wf()
        &&& self.fifo@[0].wf()
        &&& self.fifo@[1].wf()
        &&& self.cycles < CYCLES_PER_SAMPLE
        &&& self.sequencer_samples < SEQUENCER_INTERVAL
        &&& self.sequencer_step < 8
    }

    /// The sound unit in its power-on state.
    #[must_use]
    pub fn new() -> (apu: Self)
        ensures
            apu.wf(),
            apu@ == ApuView::initial(),
    {
        let mut raw: [u16; 24] = [0; 24];
        raw[20] = 0x0200;
        let apu = Self {
            raw,
            square1: Square::default(),
            square2: Square::default(),
            wave: Wave::default(),
            noise: Noise::default(),
            fifo: [Fifo::new(), Fifo::new()],
            cycles: 0,
            sequencer_samples: 0,
            sequencer_step: 0,
            samples: Vec::new(),
        };
        assert(apu@.raw =~= ApuView::initial().raw);
        apu
    }

    /// Index of the halfword register at `offset` in [`Apu::raw`].
    #[must_use]
    pub fn index(offset: u32) -> (index: usize)
        requires
            offset >= reg::SOUND1CNT_L,
        ensures
            index == register_index(offset),
    {
        ((offset - reg::SOUND1CNT_L) / 2) as usize
    }

    /// `SOUNDCNT_X` bit 7.
    fn master_enabled(&self) -> (enabled: bool)
        ensures
            enabled == self@.master_enabled(),
    {
        self.raw[18] & 0x80 != 0
    }

    /// Reads a halfword register.
    #[must_use]
    pub fn read16(&self, offset: u32) -> (value: u16)
        requires
            self.wf(),
        ensures
            value == self@.read16(offset),
    {
        if offset == reg::SOUNDCNT_X {
            let status: u16 = (self.square1.active() as u16) | ((self.square2.active() as u16) << 1)
                | ((self.wave.active() as u16) << 2) | ((self.noise.active() as u16) << 3);
            (self.raw[18] & 0x80) | status
        } else if offset >= reg::SOUND1CNT_L && offset < reg::WAVE_RAM {
            let i: usize = Self::index(offset);
            self.raw[i] & read_mask(i)
        } else if offset >= reg::WAVE_RAM && offset < reg::FIFO_A {
            self.wave.read_ram((offset - reg::WAVE_RAM) as usize)
        } else {
            0
        }
    }

    /// Writes a halfword register.
    pub fn write16(&mut self, offset: u32, value: u16)
        requires
            old(self).wf(),
        ensures
            final(self).wf(),
            final(self)@ == old(self)@.write16(offset, value),
    {
        if offset >= reg::SOUND1CNT_L && offset < reg::SOUNDCNT_H {
            // The channel registers are frozen while the master enable
            // is off.
            if !self.master_enabled() {
                return;
            }
            let i: usize = Self::index(offset);
            self.raw[i] = value;
            self.write_channel_register(offset, value);
        } else if offset == reg::SOUNDCNT_H {
            // Bits 11 and 15 reset the FIFOs and read back as zero.
            if value & (1u16 << 11) != 0 {
                self.fifo[0].reset();
            }
            if value & (1u16 << 15) != 0 {
                self.fifo[1].reset();
            }
            self.raw[17] = value & !0x8800u16;
        } else if offset == reg::SOUNDBIAS {
            self.raw[20] = value;
        } else if offset == reg::SOUNDCNT_X {
            let was_enabled = self.master_enabled();
            self.raw[18] = value & 0x80;
            if was_enabled && !self.master_enabled() {
                self.power_off();
            }
        } else if offset >= reg::WAVE_RAM && offset < reg::FIFO_A {
            self.wave.write_ram((offset - reg::WAVE_RAM) as usize, value);
        } else if offset >= reg::FIFO_A && offset <= REGISTER_LAST {
            let bytes: [u8; 2] = [value as u8, (value >> 8) as u8];
            assert(bytes@ =~= seq![value as u8, (value >> 8) as u8]);
            self.push_fifo(offset, &bytes);
        }
    }

    /// Queues `bytes` in the FIFO that `offset` belongs to.
    fn push_fifo(&mut self, offset: u32, bytes: &[u8])
        requires
            old(self).wf(),
        ensures
            final(self).wf(),
            final(self)@ == old(self)@.fifo_pushed(offset, bytes@),
    {
        if offset >= reg::FIFO_B {
            self.fifo[1].push(bytes);
        } else {
            self.fifo[0].push(bytes);
        }
    }

    /// Writes a byte register by merging it into the last written halfword
    /// (not the readable value, whose write-only fields read as zero).
    pub fn write8(&mut self, offset: u32, value: u8)
        requires
            old(self).wf(),
        ensures
            final(self).wf(),
            final(self)@ == old(self)@.write8(offset, value),
    {
        if offset >= reg::FIFO_A {
            let bytes: [u8; 1] = [value];
            assert(bytes@ =~= seq![value]);
            self.push_fifo(offset, &bytes);
            return;
        }
        let aligned: u32 = offset & !1u32;
        let current: u16 = if aligned >= reg::SOUND1CNT_L && aligned < reg::WAVE_RAM {
            self.raw[Self::index(aligned)]
        } else {
            self.read16(aligned)
        };
        self.write16(aligned, merge_byte(current, offset, value));
    }

    fn write_channel_register(&mut self, offset: u32, value: u16)
        requires
            old(self).wf(),
        ensures
            final(self).wf(),
            final(self)@ == old(self)@.channel_written(offset, value),
    {
        match offset {
            reg::SOUND1CNT_L => self.square1.write_sweep(value),
            reg::SOUND1CNT_H => self.square1.write_length_envelope(value),
            reg::SOUND1CNT_X => self.square1.write_frequency_control(value),
            reg::SOUND2CNT_L => self.square2.write_length_envelope(value),
            reg::SOUND2CNT_H => self.square2.write_frequency_control(value),
            reg::SOUND3CNT_L => self.wave.write_mode(value),
            reg::SOUND3CNT_H => self.wave.write_length_volume(value),
            reg::SOUND3CNT_X => self.wave.write_frequency_control(value),
            reg::SOUND4CNT_L => self.noise.write_length_envelope(value),
            reg::SOUND4CNT_H => self.noise.write_control(value),
            _ => {},
        }
    }

    /// Clearing the master enable resets every PSG register and channel.
    fn power_off(&mut self)
        requires
            old(self).wf(),
        ensures
            final(self).wf(),
            final(self)@ == old(self)@.powered_off(),
    {
        let ghost before = self@.raw;
        for i in 0..17usize
            invariant
                self@.raw.len() == 24,
                before.len() == 24,
                forall|k: int| 0 <= k < i ==> self@.raw[k] == 0,
                forall|k: int| i <= k < 24 ==> self@.raw[k] == before[k],
                *self == (Apu { raw: self.raw, ..*old(self) }),
        {
            self.raw[i] = 0;
        }
        self.square1 = Square::default();
        self.square2 = Square::default();
        self.wave = Wave::default();
        self.noise = Noise::default();
        self.sequencer_step = 0;
        self.sequencer_samples = 0;
        assert(self@.raw =~= old(self)@.powered_off().raw);
    }

    /// Advances the sound unit by `cycles` system cycles, producing
    /// output samples as their instants pass.
    pub fn step(&mut self, cycles: u32)
        requires
            old(self).wf(),
        ensures
            final(self).wf(),
            final(self)@ == old(self)@.step(cycles),
    {
        let ghost start = self@;
        let ghost total = self.cycles + cycles;
        let mut left: u64 = self.cycles as u64 + cycles as u64;
        let ghost mut count: int = 0;
        while left >= 512
            invariant
                self.wf(),
                count >= 0,
                left + 512 * count == total,
                self@ == start.sampled_times(count),
            decreases left,
        {
            left = left - 512;
            self.sample();
            proof {
                count = count + 1;
            }
        }
        self.cycles = left as u32;
        proof {
            reveal(ApuView::step);
            assert(total / 512 == count && total % 512 == left as int);
        }
    }

    /// The samples produced so far (interleaved stereo, left first).
    #[must_use]
    pub fn samples(&self) -> (samples: &[i16])
        ensures
            samples@ == self@.samples,
    {
        self.samples.as_slice()
    }

    /// Discards the buffered samples, typically after copying them out.
    pub fn clear_samples(&mut self)
        ensures
            final(self)@ == (ApuView { samples: Seq::empty(), ..old(self)@ }),
            old(self).wf() ==> final(self).wf(),
    {
        self.samples.clear();
    }

    /// Timer `timer` (0 or 1) overflowed `count` times: every FIFO clocked
    /// by it advances that many samples. Returns a bit mask (bit 0 = A,
    /// bit 1 = B) of the FIFOs that now want a DMA refill.
    pub fn timer_overflow(&mut self, timer: usize, count: u32) -> (refill: u8)
        requires
            old(self).wf(),
        ensures
            final(self).wf(),
            final(self)@ == old(self)@.timer_overflowed(timer, count),
            refill == old(self)@.refills(timer, count),
    {
        let cnt_h: u16 = self.raw[17];
        let a = ((cnt_h >> 10u16) & 1) as usize == timer
            && Self::pop_times(&mut self.fifo[0], count);
        let b = ((cnt_h >> 14u16) & 1) as usize == timer
            && Self::pop_times(&mut self.fifo[1], count);
        match (a, b) {
            (false, false) => 0,
            (true, false) => 1,
            (false, true) => 2,
            (true, true) => 3,
        }
    }

    /// Pops `count` samples; returns whether any of them left the queue low.
    fn pop_times(fifo: &mut Fifo, count: u32) -> (refill: bool)
        requires
            old(fifo).wf(),
        ensures
            final(fifo).wf(),
            final(fifo)@ == old(fifo)@.pops(count as nat),
            refill == (count > 0 && final(fifo)@.wants_refill()),
    {
        let ghost start = fifo@;
        let mut refill = false;
        for k in 0..count
            invariant
                fifo.wf(),
                fifo@ == start.pops(k as nat),
                refill == (k > 0 && fifo@.wants_refill()),
        {
            if fifo.pop() {
                refill = true;
            }
        }
        refill
    }

    fn sample(&mut self)
        requires
            old(self).wf(),
        ensures
            final(self).wf(),
            final(self)@ == old(self)@.sampled(),
    {
        if self.master_enabled() {
            self.square1.tick(CYCLES_PER_SAMPLE);
            self.square2.tick(CYCLES_PER_SAMPLE);
            self.wave.tick(CYCLES_PER_SAMPLE);
            self.noise.tick(CYCLES_PER_SAMPLE);
            self.sequencer_samples = self.sequencer_samples + 1;
            if self.sequencer_samples == SEQUENCER_INTERVAL {
                self.sequencer_samples = 0;
                self.clock_sequencer();
            }
        }
        let (left, right) = self.mix();
        self.samples.push(left);
        self.samples.push(right);
    }

    /// One 512 Hz step: lengths on even steps, sweep on 2 and 6, envelopes
    /// on 7.
    fn clock_sequencer(&mut self)
        requires
            old(self).wf(),
        ensures
            final(self).wf(),
            final(self)@ == old(self)@.sequencer_clocked(),
    {
        let step: u8 = self.sequencer_step;
        self.sequencer_step = (step + 1) % 8;
        if step % 2 == 0 {
            self.square1.clock_length();
            self.square2.clock_length();
            self.wave.clock_length();
            self.noise.clock_length();
        }
        if step == 2 || step == 6 {
            self.square1.clock_sweep();
        }
        if step == 7 {
            self.square1.clock_envelope();
            self.square2.clock_envelope();
            self.noise.clock_envelope();
        }
    }

    /// A channel's level, centred.
    fn centre(level: Option<u8>) -> (value: i32)
        requires
            level matches Some(v) ==> v <= 15,
        ensures
            value == centred(level),
            -15 <= value <= 15,
    {
        match level {
            Some(v) => v as i32 * 2 - 15,
            None => 0,
        }
    }

    /// A channel's level, centred, when it is enabled.
    fn gate(on: bool, level: Option<u8>) -> (value: i32)
        requires
            level matches Some(v) ==> v <= 15,
        ensures
            value == gated(on, centred(level)),
            -15 <= value <= 15,
    {
        if on {
            Self::centre(level)
        } else {
            0
        }
    }

    /// The sum of the enabled channels, centred.
    fn sum(
        on: u16,
        square1: Option<u8>,
        square2: Option<u8>,
        wave: Option<u8>,
        noise: Option<u8>,
    ) -> (sum: i32)
        requires
            square1 matches Some(v) ==> v <= 15,
            square2 matches Some(v) ==> v <= 15,
            wave matches Some(v) ==> v <= 15,
            noise matches Some(v) ==> v <= 15,
        ensures
            sum == channel_sum(on, square1, square2, wave, noise),
            -60 <= sum <= 60,
    {
        let first: i32 = Self::gate(on & 1 != 0, square1);
        let second: i32 = Self::gate(on & 2 != 0, square2);
        let third: i32 = Self::gate(on & 4 != 0, wave);
        let fourth: i32 = Self::gate(on & 8 != 0, noise);
        first + second + third + fourth
    }

    /// Applies a side's volume and the mixer's ratio to a PSG sum.
    fn amplify(sum: i32, gain: i32, scale: i32) -> (level: i32)
        requires
            -60 <= sum <= 60,
            1 <= gain <= 8,
            scale == 1 || scale == 2 || scale == 4,
        ensures
            level == amplified(sum as int, gain as int, scale as int),
            -512 <= level <= 512,
    {
        assert(-480 <= sum * gain <= 480) by (nonlinear_arith)
            requires
                -60 <= sum <= 60,
                1 <= gain <= 8,
        ;
        let product: i32 = sum * gain * scale * OUTPUT_LIMIT;
        if product >= 0 {
            product / 1920
        } else {
            -((-product) / 1920)
        }
    }

    /// The PSG contribution to one side; see [`Apu::mix`].
    fn psg(&self, enables: u16, volume: u16) -> (level: i32)
        requires
            self.wf(),
            enables < 16,
            volume < 16,
        ensures
            level == self@.psg_level(enables, volume),
            -512 <= level <= 512,
    {
        let gain: i32 = ((self.raw[16] >> volume) & 7) as i32 + 1;
        // SOUNDCNT_H bits 1:0 scale the PSG mix to 25/50/100 %.
        let ratio: u16 = self.raw[17] & 3;
        let scale: i32 = match ratio {
            0 => 1,
            1 => 2,
            _ => 4,
        };
        let sum: i32 = Self::sum(
            self.raw[16] >> enables,
            self.square1.output(),
            self.square2.output(),
            self.wave.output(),
            self.noise.output(),
        );
        Self::amplify(sum, gain, scale)
    }

    /// The direct-sound contribution to one side; see [`Apu::mix`].
    fn direct(&self, a_bit: u16, b_bit: u16) -> (level: i32)
        requires
            a_bit < 16,
            b_bit < 16,
        ensures
            level == self@.direct_level(a_bit, b_bit),
            -1024 <= level <= 1024,
    {
        let control: u16 = self.raw[17];
        let mut level: i32 = 0;
        if control & (1u16 << a_bit) != 0 {
            let gain: i32 = if control & (1u16 << 2) != 0 {
                4
            } else {
                2
            };
            level = level + self.fifo[0].sample() as i32 * gain;
        }
        if control & (1u16 << b_bit) != 0 {
            let gain: i32 = if control & (1u16 << 3) != 0 {
                4
            } else {
                2
            };
            level = level + self.fifo[1].sample() as i32 * gain;
        }
        level
    }

    /// Limits a level to the 10-bit output and scales it to 16 bits.
    fn scaled(level: i32) -> (sample: i16)
        requires
            -2000 <= level <= 2000,
        ensures
            sample == (limited(level as int) * 64) as i16,
    {
        let total: i32 = if level < -OUTPUT_LIMIT {
            -OUTPUT_LIMIT
        } else if level > OUTPUT_LIMIT - 1 {
            OUTPUT_LIMIT - 1
        } else {
            level
        };
        (total * 64) as i16
    }

    /// Mixes the channels into a `(left, right)` pair.
    #[must_use]
    pub fn mix(&self) -> (pair: (i16, i16))
        requires
            self.wf(),
        ensures
            pair == self@.mix(),
    {
        if !self.master_enabled() {
            return (0, 0);
        }
        let left: i16 = Self::scaled(self.psg(12, 4) + self.direct(9, 13));
        let right: i16 = Self::scaled(self.psg(8, 0) + self.direct(8, 12));
        (left, right)
    }
}

} // verus!
