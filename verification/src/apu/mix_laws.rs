//! What is heard when the channels come together.

use vstd::prelude::*;

use crate::apu::fifo::FifoView;
use crate::apu::psg_laws::lemma_half_fields;
use crate::apu::ApuView;

verus! {

broadcast use crate::bits::group_mask_bounds;

/// What a channel's level contributes: twice the level, centred around zero,
/// or nothing while its DAC is off.
pub open spec fn heard(level: Option<u8>) -> int {
    match level {
        Some(v) => 2 * v - 15,
        None => 0,
    }
}

/// `value` if bit `i` of `register` is set.
pub open spec fn if_bit(register: u16, i: int, value: int) -> int {
    let bit = if i == 0 {
        register as int
    } else if i == 1 {
        register as int / 2
    } else if i == 2 {
        register as int / 4
    } else if i == 3 {
        register as int / 8
    } else {
        register as int / 16
    };
    if bit % 2 == 1 {
        value
    } else {
        0
    }
}

/// `value` between the limits of a 10-bit output.
pub open spec fn clipped(value: int) -> int {
    if value < -512 {
        -512
    } else if value > 511 {
        511
    } else {
        value
    }
}

/// `n / d`, rounded towards zero.
pub open spec fn towards_zero(n: int, d: int) -> int {
    if n < 0 {
        -((-n) / d)
    } else {
        n / d
    }
}

/// The tone channels on one side: those whose bit is set in the upper byte of
/// the volume register, four to a side, summed and amplified by the side's
/// volume and by a quarter, a half or all of the mixer's ratio.
#[verifier::rlimit(40)]
pub proof fn law_tone_mix(apu: ApuView)
    requires
        apu.raw.len() == 24,
    ensures
        ({
            let volume = apu.raw[16];
            let ratio = if apu.raw[17] % 4 == 0 {
                1int
            } else if apu.raw[17] % 4 == 1 {
                2
            } else {
                4
            };
            let sum = |on: u16|
                if_bit(on, 0, heard(apu.square1.level())) + if_bit(
                    on,
                    1,
                    heard(apu.square2.level()),
                ) + if_bit(on, 2, heard(apu.wave.level())) + if_bit(
                    on,
                    3,
                    heard(apu.noise.level()),
                );
            let right = sum((volume / 256) as u16);
            let left = sum((volume / 4096) as u16);
            &&& apu.psg_level(8, 0) == towards_zero(
                right * (volume as int % 8 + 1) * ratio * 512,
                1920,
            )
            &&& apu.psg_level(12, 4) == towards_zero(
                left * ((volume as int / 16) % 8 + 1) * ratio * 512,
                1920,
            )
        }),
{
    let volume = apu.raw[16];
    lemma_half_fields(volume);
    lemma_half_fields(apu.raw[17]);
    lemma_half_fields((volume / 256) as u16);
    lemma_half_fields((volume / 4096) as u16);
}

/// The sampled sound on one side: each FIFO's sample, doubled at half volume
/// and quadrupled at full, if its bit for that side is set.
#[verifier::rlimit(40)]
pub proof fn law_sample_mix(apu: ApuView)
    requires
        apu.raw.len() == 24,
    ensures
        ({
            let control = apu.raw[17] as int;
            let a = apu.fifo_a.sample * if (control / 4) % 2 == 1 {
                4int
            } else {
                2
            };
            let b = apu.fifo_b.sample * if (control / 8) % 2 == 1 {
                4int
            } else {
                2
            };
            let on = |bit: int, value: int|
                if bit % 2 == 1 {
                    value
                } else {
                    0
                };
            &&& apu.direct_level(8, 12) == on(control / 256, a) + on(control / 4096, b)
            &&& apu.direct_level(9, 13) == on(control / 512, a) + on(control / 8192, b)
        }),
{
    lemma_half_fields(apu.raw[17]);
}

/// What comes out is the sum of both kinds of sound, clipped to ten bits and
/// spread over sixteen, left and right; and nothing while the master switch
/// is off.
#[verifier::rlimit(40)]
pub proof fn law_mix(apu: ApuView)
    requires
        apu.raw.len() == 24,
    ensures
        ({
            let (left, right) = apu.mix();
            if (apu.raw[18] / 128) % 2 == 1 {
                &&& left == 64 * clipped(apu.psg_level(12, 4) + apu.direct_level(9, 13))
                &&& right == 64 * clipped(apu.psg_level(8, 0) + apu.direct_level(8, 12))
            } else {
                left == 0 && right == 0
            }
        }),
{
    lemma_half_fields(apu.raw[18]);
}

/// Of the eight steps of the sequencer every other one moves the lengths on,
/// the third and the seventh the sweep, and the last the envelopes, so that
/// these run at 256, 128 and 64 Hz where the sequencer runs at 512.
pub proof fn law_sequencer_steps(apu: ApuView)
    requires
        apu.sequencer_step < 8,
    ensures
        ({
            let k = apu.sequencer_step;
            let after = apu.sequencer_clocked();
            let lengths = k == 0 || k == 2 || k == 4 || k == 6;
            let sweeps = k == 2 || k == 6;
            let envelopes = k == 7;
            &&& after.sequencer_step == if k == 7 {
                0
            } else {
                k + 1
            }
            &&& after.wave == if lengths {
                apu.wave.length_clocked()
            } else {
                apu.wave
            }
            &&& after.square2 == if lengths {
                apu.square2.length_clocked()
            } else if envelopes {
                apu.square2.envelope_clocked()
            } else {
                apu.square2
            }
            &&& after.noise == if lengths {
                apu.noise.length_clocked()
            } else if envelopes {
                apu.noise.envelope_clocked()
            } else {
                apu.noise
            }
            &&& after.square1 == if sweeps {
                apu.square1.length_clocked().sweep_clocked()
            } else if lengths {
                apu.square1.length_clocked()
            } else if envelopes {
                apu.square1.envelope_clocked()
            } else {
                apu.square1
            }
            &&& after == (ApuView {
                sequencer_step: after.sequencer_step,
                square1: after.square1,
                square2: after.square2,
                wave: after.wave,
                noise: after.noise,
                ..apu
            })
        }),
{
}

/// The sequencer takes a step with every 64th sample.
pub proof fn law_sequencer_interval(apu: ApuView)
    requires
        apu.sequencer_samples < 64,
    ensures
        ({
            let after = apu.channels_advanced();
            if apu.sequencer_samples == 63 {
                after.sequencer_samples == 0 && after.sequencer_step == (apu.sequencer_step + 1) % 8
            } else {
                after.sequencer_samples == apu.sequencer_samples + 1 && after.sequencer_step
                    == apu.sequencer_step
            }
        }),
{
}

/// A FIFO takes bytes up to 32 of them and drops the rest.
pub proof fn law_fifo_capacity(fifo: FifoView, bytes: Seq<u8>)
    requires
        fifo.queue.len() <= 32,
    ensures
        ({
            let after = fifo.push(bytes);
            &&& after.queue.len() == if fifo.queue.len() + bytes.len() > 32 {
                32
            } else {
                fifo.queue.len() + bytes.len()
            }
            &&& forall|i: int|
                0 <= i < after.queue.len() ==> #[trigger] after.queue[i] == if i
                    < fifo.queue.len() {
                    fifo.queue[i]
                } else {
                    bytes[i - fifo.queue.len()]
                }
            &&& after.sample == fifo.sample
        }),
{
}

/// An overflow of a timer moves the FIFOs on that follow it, the first by bit
/// 10 of the control and the second by bit 14, and each of those asks for
/// more once 16 bytes or fewer are left.
#[verifier::rlimit(40)]
pub proof fn law_fifo_timers(apu: ApuView, timer: usize, count: u32)
    requires
        apu.raw.len() == 24,
        timer < 2,
    ensures
        ({
            let follows_a = (apu.raw[17] / 1024) % 2 == timer;
            let follows_b = (apu.raw[17] / 16384) % 2 == timer;
            let after = apu.timer_overflowed(timer, count);
            let asked = apu.refills(timer, count);
            &&& after.fifo_a == if follows_a {
                apu.fifo_a.pops(count as nat)
            } else {
                apu.fifo_a
            }
            &&& after.fifo_b == if follows_b {
                apu.fifo_b.pops(count as nat)
            } else {
                apu.fifo_b
            }
            &&& (asked == 1 || asked == 3) == (follows_a && count > 0 && after.fifo_a.queue.len()
                <= 16)
            &&& (asked == 2 || asked == 3) == (follows_b && count > 0 && after.fifo_b.queue.len()
                <= 16)
            &&& asked < 4
        }),
{
    let control = apu.raw[17];
    vstd::bits::lemma_u16_shr_is_div(control, 10);
    vstd::bits::lemma_u16_shr_is_div(control, 14);
    vstd::arithmetic::power2::lemma2_to64();
    lemma_half_fields(control >> 10);
    lemma_half_fields(control >> 14);
}

/// The channels are set by their own registers, while the sound unit is on.
#[verifier::rlimit(40)]
pub proof fn law_sound_registers(apu: ApuView, value: u16)
    requires
        apu.raw.len() == 24,
        (apu.raw[18] / 128) % 2 == 1,
    ensures
        apu.write16(0x60, value).square1.sweep == apu.square1.sweep.configured(value),
        apu.write16(0x62, value).square1 == apu.square1.length_envelope_written(value),
        apu.write16(0x64, value).square1 == apu.square1.frequency_control_written(value),
        apu.write16(0x68, value).square2 == apu.square2.length_envelope_written(value),
        apu.write16(0x6C, value).square2 == apu.square2.frequency_control_written(value),
        apu.write16(0x70, value).wave == apu.wave.mode_written(value),
        apu.write16(0x72, value).wave == apu.wave.length_volume_written(value),
        apu.write16(0x74, value).wave == apu.wave.frequency_control_written(value),
        apu.write16(0x78, value).noise == apu.noise.length_envelope_written(value),
        apu.write16(0x7C, value).noise == apu.noise.control_written(value),
        apu.write16(0x80, value).raw[16] == value,
{
    lemma_half_fields(apu.raw[18]);
}

/// While the sound unit is off, the registers of the tone channels take no
/// writes; the FIFOs do. Switching it off resets the tone channels.
#[verifier::rlimit(40)]
pub proof fn law_sound_switch(apu: ApuView, offset: u32, value: u16)
    requires
        apu.raw.len() == 24,
        0x60 <= offset < 0x82,
        value < 0x80,
    ensures
        (apu.raw[18] / 128) % 2 == 0 ==> apu.write16(offset, value) == apu,
        (apu.raw[18] / 128) % 2 == 1 ==> {
            let after = apu.write16(0x84, value);
            &&& !after.square1.enabled && !after.square2.enabled
            &&& !after.wave.enabled && !after.noise.enabled
            &&& after.raw[16] == 0
            &&& after.raw[17] == apu.raw[17]
            &&& after.fifo_a == apu.fifo_a
            &&& after.mix() == (0i16, 0i16)
        },
{
    lemma_half_fields(apu.raw[18]);
    lemma_half_fields(value);
    lemma_half_fields(value & 0x80);
}

/// Bytes for a FIFO go in with the low one first, to the first FIFO from 0xA0
/// on and to the second from 0xA4 on.
pub proof fn law_fifo_bytes(apu: ApuView, value: u16)
    requires
        apu.fifo_a.queue.len() <= 30,
        apu.fifo_b.queue.len() <= 30,
    ensures
        ({
            let bytes = seq![(value % 256) as u8, (value / 256) as u8];
            &&& apu.write16(0xA0, value).fifo_a.queue == apu.fifo_a.queue + bytes
            &&& apu.write16(0xA2, value).fifo_a.queue == apu.fifo_a.queue + bytes
            &&& apu.write16(0xA4, value).fifo_b.queue == apu.fifo_b.queue + bytes
            &&& apu.write16(0xA6, value).fifo_b.queue == apu.fifo_b.queue + bytes
            &&& apu.write16(0xA0, value).fifo_b == apu.fifo_b
            &&& apu.write16(0xA4, value).fifo_a == apu.fifo_a
        }),
{
    crate::apu::psg_laws::lemma_wave_fields(value);
}

} // verus!
