//! What the four tone channels sound like.

use vstd::arithmetic::div_mod::{
    lemma_fundamental_div_mod, lemma_fundamental_div_mod_converse, lemma_mod_bound,
};
use vstd::arithmetic::power2::pow2;
use vstd::prelude::*;

use crate::apu::psg::{lfsr_next, Envelope, Length, Noise, Square, Sweep, WaveView};

verus! {

broadcast use crate::bits::group_mask_bounds;

/// The fields of halfword registers, as numbers.
pub(crate) proof fn lemma_half_fields(v: u16)
    by (bit_vector)
    ensures
        v & 7 == v % 8,
        v & 0x3F == v % 64,
        v & 0xFF == v % 256,
        v & 0x7FF == v % 2048,
        (v >> 4) & 7 == (v / 16) % 8,
        (v >> 4) & 0xF == (v / 16) % 16,
        (v >> 6) & 3 == (v / 64) % 4,
        (v >> 6) & 1 == (v / 64) % 2,
        (v >> 8) & 7 == (v / 256) % 8,
        (v >> 13) & 3 == (v / 8192) % 4,
        v >> 12 == v / 4096,
        (v & (1u16 << 3) != 0) == ((v / 8) % 2 == 1),
        (v & (1u16 << 5) != 0) == ((v / 32) % 2 == 1),
        (v & (1u16 << 7) != 0) == ((v / 128) % 2 == 1),
        (v & (1u16 << 11) != 0) == ((v / 2048) % 2 == 1),
        (v & (1u16 << 14) != 0) == ((v / 16384) % 2 == 1),
        (v & (1u16 << 15) != 0) == (v / 32768 == 1),
        v as u8 == (v & 0xFF) as u8,
        v >> 8 == v / 256,
        v & 1 == v % 2,
        v & 3 == v % 4,
        (v & 1 != 0) == (v % 2 == 1),
        (v & 2 != 0) == ((v / 2) % 2 == 1),
        (v & 4 != 0) == ((v / 4) % 2 == 1),
        (v & 8 != 0) == ((v / 8) % 2 == 1),
        (v & 0x80 != 0) == ((v / 128) % 2 == 1),
        v >> 0u16 == v,
        v & 0x1FF == v % 512,
        v & 0x3FF == v % 1024,
        v & 0x7FFF == v % 0x8000,
        (v >> 2) & 3 == (v / 4) % 4,
        (v >> 5) & 3 == (v / 32) % 4,
        (v >> 7) & 3 == (v / 128) % 4,
        (v >> 8) & 3 == (v / 256) % 4,
        (v >> 8) & 0x1F == (v / 256) % 32,
        (v >> 9) & 0x1F == (v / 512) % 32,
        (v >> 10) & 3 == (v / 1024) % 4,
        (v >> 12) & 3 == (v / 4096) % 4,
        (v >> 12) & 0xF == v / 4096,
        (v >> 8) & 0xF == (v / 256) % 16,
        v & 0xF == v % 16,
        v >> 14 == v / 16384,
        (v & (1u16 << 2) != 0) == ((v / 4) % 2 == 1),
        (v & (1u16 << 4) != 0) == ((v / 16) % 2 == 1),
        (v & (1u16 << 6) != 0) == ((v / 64) % 2 == 1),
        (v & (1u16 << 8) != 0) == ((v / 256) % 2 == 1),
        (v & (1u16 << 9) != 0) == ((v / 512) % 2 == 1),
        (v & (1u16 << 10) != 0) == ((v / 1024) % 2 == 1),
        (v & (1u16 << 12) != 0) == ((v / 4096) % 2 == 1),
        (v & (1u16 << 13) != 0) == ((v / 8192) % 2 == 1),
{
}

/// The halves and fractions of a byte, as numbers.
pub(crate) proof fn lemma_byte_fields(b: u8)
    by (bit_vector)
    ensures
        b >> 4 == b / 16,
        b & 0xF == b % 16,
        b >> 1 == b / 2,
        b >> 2 == b / 4,
        b & 0x7F == b % 128,
        b < 100 ==> ((b / 10) << 4) | (b % 10) == (b / 10) * 16 + b % 10,
        b < 0x80 ==> b | 0x80 == b + 0x80,
        b | 0 == b,
        (b >> 1) & 7 == (b / 2) % 8,
        (b & (1u8 << 6) != 0) == ((b / 64) % 2 == 1),
{
}

/// The envelope after `n` steps of its clock.
pub open spec fn envelope_after(envelope: Envelope, n: nat) -> Envelope
    decreases n,
{
    if n == 0 {
        envelope
    } else {
        envelope_after(envelope, (n - 1) as nat).clocked()
    }
}

/// A volume `steps` steps up or down from `initial`, within 0 to 15.
pub open spec fn faded(initial: int, increase: bool, steps: int) -> int {
    if increase {
        if initial + steps > 15 {
            15
        } else {
            initial + steps
        }
    } else {
        if initial - steps < 0 {
            0
        } else {
            initial - steps
        }
    }
}

/// A triggered envelope starts from its initial volume and moves it by one
/// for every whole period that has passed, down to silence or up to 15. A
/// period of zero holds it.
pub proof fn law_envelope(envelope: Envelope, n: nat)
    requires
        envelope.wf(),
    ensures
        ({
            let after = envelope_after(envelope.triggered(), n);
            &&& after.volume == if envelope.period == 0 {
                envelope.initial as int
            } else {
                faded(envelope.initial as int, envelope.increase, n as int / envelope.period as int)
            }
            &&& after.period == envelope.period
            &&& after.increase == envelope.increase
            &&& after.initial == envelope.initial
            &&& envelope.period > 0 ==> after.timer == envelope.period - n as int
                % envelope.period as int
        }),
    decreases n,
{
    let p = envelope.period as int;
    if n > 0 {
        law_envelope(envelope, (n - 1) as nat);
        if p > 0 {
            let m = n as int - 1;
            lemma_fundamental_div_mod(m, p);
            lemma_mod_bound(m, p);
            if m % p == p - 1 {
                assert(p * (m / p + 1) == p * (m / p) + p) by (nonlinear_arith);
                lemma_fundamental_div_mod_converse(m + 1, p, m / p + 1, 0);
            } else {
                lemma_fundamental_div_mod_converse(m + 1, p, m / p, m % p + 1);
            }
        }
    } else if p > 0 {
        lemma_fundamental_div_mod_converse(0, p, 0, 0);
    }
}

/// The fields of a pulse channel's length and envelope register: length in
/// bits 5:0 counted down from 64, duty in 7:6, period of the envelope in 10:8,
/// direction in 11, initial volume in 15:12. A channel that could only be
/// silent is switched off.
#[verifier::rlimit(40)]
pub proof fn law_square_envelope_register(square: Square, value: u16)
    ensures
        ({
            let after = square.length_envelope_written(value);
            &&& after.length.counter == 64 - value % 64
            &&& after.duty == (value / 64) % 4
            &&& after.envelope.period == (value / 256) % 8
            &&& after.envelope.increase == ((value / 2048) % 2 == 1)
            &&& after.envelope.initial == value / 4096
            &&& after.enabled == (square.enabled && value / 2048 != 0)
            &&& after.frequency == square.frequency
        }),
{
    lemma_half_fields(value);
}

/// The fields of a pulse channel's frequency register: frequency in bits
/// 10:0, whether the length runs in 14, restart in 15. A restart plays at the
/// initial volume from a full period on, for the length that is set, or the
/// longest one where it has run out.
#[verifier::rlimit(40)]
pub proof fn law_square_frequency_register(square: Square, value: u16)
    requires
        square.wf(),
    ensures
        ({
            let after = square.frequency_control_written(value);
            &&& after.frequency == value % 2048
            &&& after.length.enabled == ((value / 16384) % 2 == 1)
            &&& value < 0x8000 ==> after.enabled == square.enabled && after.envelope
                == square.envelope && after.length.counter == square.length.counter
            &&& value >= 0x8000 ==> {
                &&& after.envelope.volume == square.envelope.initial
                &&& after.timer == 16 * (2048 - after.frequency)
                &&& after.length.counter == if square.length.counter == 0 {
                    64
                } else {
                    square.length.counter
                }
                &&& square.envelope.initial == 0 && !square.envelope.increase ==> !after.enabled
                &&& square.sweep.shift == 0 && (square.envelope.initial > 0
                    || square.envelope.increase) ==> after.enabled
                &&& after.sweep.shadow == after.frequency
            }
        }),
{
    lemma_half_fields(value);
}

/// The pulse channel after `n` steps of the length clock.
pub open spec fn square_lengths(square: Square, n: nat) -> Square
    decreases n,
{
    if n == 0 {
        square
    } else {
        square_lengths(square, (n - 1) as nat).length_clocked()
    }
}

/// A pulse channel whose length runs plays for that many steps of the length
/// clock and no longer; one whose length does not run plays on.
pub proof fn law_square_length(square: Square, n: nat)
    requires
        square.enabled,
        square.length.counter > 0,
    ensures
        ({
            let after = square_lengths(square, n);
            &&& after.enabled == (!square.length.enabled || n < square.length.counter)
            &&& after.length.enabled == square.length.enabled
            &&& after.length.counter == if !square.length.enabled {
                square.length.counter as int
            } else if n < square.length.counter {
                square.length.counter - n
            } else {
                0
            }
            &&& after == (Square { enabled: after.enabled, length: after.length, ..square })
        }),
    decreases n,
{
    if n > 0 {
        law_square_length(square, (n - 1) as nat);
    }
}

/// The wave channel after `n` steps of the length clock.
pub open spec fn wave_lengths(wave: WaveView, n: nat) -> WaveView
    decreases n,
{
    if n == 0 {
        wave
    } else {
        wave_lengths(wave, (n - 1) as nat).length_clocked()
    }
}

/// The wave channel plays for as long as its length says.
pub proof fn law_wave_length(wave: WaveView, n: nat)
    requires
        wave.enabled,
        wave.length.counter > 0,
    ensures
        ({
            let after = wave_lengths(wave, n);
            &&& after.enabled == (!wave.length.enabled || n < wave.length.counter)
            &&& after.length.enabled == wave.length.enabled
            &&& after.length.counter == if !wave.length.enabled {
                wave.length.counter as int
            } else if n < wave.length.counter {
                wave.length.counter - n
            } else {
                0
            }
            &&& after == (WaveView { enabled: after.enabled, length: after.length, ..wave })
        }),
    decreases n,
{
    if n > 0 {
        law_wave_length(wave, (n - 1) as nat);
    }
}

/// The noise channel after `n` steps of the length clock.
pub open spec fn noise_lengths(noise: Noise, n: nat) -> Noise
    decreases n,
{
    if n == 0 {
        noise
    } else {
        noise_lengths(noise, (n - 1) as nat).length_clocked()
    }
}

/// The noise channel plays for as long as its length says.
pub proof fn law_noise_length(noise: Noise, n: nat)
    requires
        noise.enabled,
        noise.length.counter > 0,
    ensures
        ({
            let after = noise_lengths(noise, n);
            &&& after.enabled == (!noise.length.enabled || n < noise.length.counter)
            &&& after.length.enabled == noise.length.enabled
            &&& after.length.counter == if !noise.length.enabled {
                noise.length.counter as int
            } else if n < noise.length.counter {
                noise.length.counter - n
            } else {
                0
            }
            &&& after == (Noise { enabled: after.enabled, length: after.length, ..noise })
        }),
    decreases n,
{
    if n > 0 {
        law_noise_length(noise, (n - 1) as nat);
    }
}

/// The parts of a period in which a playing pulse channel is heard, at its
/// volume: the last eighth; the last and the first; the last three and the
/// first; or all but the last and the first.
pub proof fn law_duty(square: Square)
    requires
        square.wf(),
        square.envelope.initial > 0 || square.envelope.increase,
    ensures
        ({
            let near_edge = square.phase == 7 || square.phase == 0;
            let high = if square.duty == 0 {
                square.phase == 7
            } else if square.duty == 1 {
                near_edge
            } else if square.duty == 2 {
                near_edge || square.phase == 5 || square.phase == 6
            } else {
                !near_edge
            };
            square.level() == Some(
                if square.enabled && high {
                    square.envelope.volume
                } else {
                    0
                },
            )
        }),
{
}

/// A pulse channel moves on by one eighth of its period, and is as far into
/// it as before, after 16 cycles for each unit that its frequency is below
/// 2048.
pub proof fn law_square_pitch(square: Square)
    requires
        square.wf(),
        1 <= square.timer <= 16 * (2048 - square.frequency),
    ensures
        ({
            let after = square.ticked((16 * (2048 - square.frequency)) as u32);
            &&& after.phase == (square.phase + 1) % 8
            &&& after == (Square { phase: after.phase, ..square })
        }),
{
    let period = 16 * (2048 - square.frequency);
    let past = period - square.timer;
    lemma_fundamental_div_mod_converse(past, period, 0, past);
}

/// Less than what is left of an eighth changes nothing that is heard.
pub proof fn law_square_holds(square: Square, cycles: u32)
    requires
        square.wf(),
        cycles < square.timer,
    ensures
        square.ticked(cycles) == (Square { timer: (square.timer - cycles) as u32, ..square }),
{
}

/// A due sweep step of a channel that sweeps moves the frequency up or down
/// by its value shifted down, and an overflow, in this step or the one that
/// would follow, switches the channel off.
pub proof fn law_sweep_step(square: Square)
    requires
        square.wf(),
        square.sweep.timer <= 1,
        square.sweep.enabled,
        square.sweep.period > 0,
        square.sweep.shift > 0,
    ensures
        ({
            let after = square.sweep_clocked();
            let f = square.sweep.shadow as int;
            let d = f / pow2(square.sweep.shift as nat) as int;
            let next = if square.sweep.decrease {
                f - d
            } else {
                f + d
            };
            let beyond = next + next / pow2(square.sweep.shift as nat) as int;
            &&& after.sweep.timer == square.sweep.period
            &&& next > 2047 ==> !after.enabled && after.frequency == square.frequency
            &&& next <= 2047 ==> after.frequency == next && after.sweep.shadow == next
            &&& next <= 2047 && (square.sweep.decrease || beyond <= 2047) ==> after.enabled
                == square.enabled
            &&& next <= 2047 && !square.sweep.decrease && beyond > 2047 ==> !after.enabled
        }),
{
    let shift = square.sweep.shift as u16;
    vstd::bits::lemma_u16_shr_is_div(square.sweep.shadow, shift);
    let after = square.sweep_clocked();
    vstd::bits::lemma_u16_shr_is_div(after.sweep.shadow, shift);
    vstd::arithmetic::power2::lemma_pow2_pos(shift as nat);
    lemma_quotient(square.sweep.shadow as int, pow2(shift as nat) as int);
    lemma_quotient(after.sweep.shadow as int, pow2(shift as nat) as int);
}

proof fn lemma_quotient(n: int, d: int)
    requires
        n >= 0,
        d > 0,
    ensures
        0 <= n / d <= n,
{
    vstd::arithmetic::div_mod::lemma_div_is_ordered_by_denominator(n, 1, d);
    vstd::arithmetic::div_mod::lemma_div_pos_is_pos(n, d);
}

/// The sweep waits for as many steps as its period says, eight for zero, and
/// changes nothing meanwhile.
pub proof fn law_sweep_waits(square: Square)
    ensures
        square.sweep.timer > 1 ==> square.sweep_clocked() == (Square {
            sweep: Sweep { timer: (square.sweep.timer - 1) as u8, ..square.sweep },
            ..square
        }),
        square.triggered().sweep.timer == if square.sweep.period == 0 {
            8
        } else {
            square.sweep.period
        },
        square.sweep.timer <= 1 && (square.sweep.period == 0 || !square.sweep.enabled)
            ==> square.sweep_clocked().frequency == square.frequency
            && square.sweep_clocked().enabled == square.enabled,
{
}

/// The fields of the sweep register: shift in bits 2:0, direction in 3,
/// period in 6:4.
#[verifier::rlimit(40)]
pub proof fn law_sweep_register(sweep: Sweep, value: u16)
    ensures
        sweep.configured(value).shift == value % 8,
        sweep.configured(value).decrease == ((value / 8) % 2 == 1),
        sweep.configured(value).period == (value / 16) % 8,
{
    lemma_half_fields(value);
}

/// What the processor writes to wave memory is played, high nibble first, once
/// the bank that it wrote to is the one that plays.
pub proof fn law_wave_plays_what_was_written(
    wave: WaveView,
    offset: usize,
    value: u16,
    mode: u16,
    position: u8,
)
    requires
        wave.wf(),
        offset < 16,
        offset % 2 == 0,
        mode == 0x80 + 0x40 * (1 - wave.bank),
        2 * offset <= position < 2 * offset + 4,
    ensures
        ({
            let playing = WaveView {
                position,
                ..wave.ram_written(offset, value).mode_written(mode)
            };
            let byte = if position < 2 * offset + 2 {
                value % 256
            } else {
                value / 256
            };
            playing.current_sample() == if position % 2 == 0 {
                byte / 16
            } else {
                byte % 16
            }
        }),
{
    lemma_wave_fields(value);
    lemma_wave_fields(mode);
    lemma_byte_fields(value as u8);
    lemma_byte_fields((value >> 8) as u8);
    lemma_even_offset(offset);
    let written = wave.ram_written(offset, value);
    let playing = WaveView { position, ..written.mode_written(mode) };
    let start = 16 * (1 - wave.bank) + offset;
    assert(playing.bank == 1 - wave.bank && !playing.two_banks);
    assert(playing.ram[start] == value as u8);
    assert(playing.ram[start + 1] == (value >> 8) as u8);
    assert(position as int % 32 == position);
    if position < 2 * offset + 2 {
        assert(position as int / 2 == offset);
    } else {
        assert(position as int / 2 == offset + 1);
    }
}

/// The fields of a halfword of wave memory and of its control.
#[verifier::rlimit(40)]
pub(crate) proof fn lemma_wave_fields(v: u16)
    ensures
        v as u8 == v % 256,
        (v >> 8) as u8 == v / 256,
        (v & (1u16 << 5) != 0) == ((v / 32) % 2 == 1),
        (v >> 6) & 1 == (v / 64) % 2,
{
    lemma_half_fields(v);
}

proof fn lemma_even_offset(offset: usize)
    by (bit_vector)
    requires
        offset < 16,
        offset % 2 == 0,
    ensures
        offset & 0xE == offset,
{
}

/// With two banks the channel plays one after the other, with one it repeats
/// it; either way a sample lasts 8 cycles for each unit that the frequency is
/// below 2048.
pub proof fn law_wave_pitch(wave: WaveView)
    requires
        wave.wf(),
        1 <= wave.timer <= 8 * (2048 - wave.frequency),
    ensures
        ({
            let after = wave.ticked((8 * (2048 - wave.frequency)) as u32);
            &&& after.position == (wave.position + 1) % if wave.two_banks {
                64
            } else {
                32int
            }
            &&& after == (WaveView { position: after.position, ..wave })
        }),
{
    let period = 8 * (2048 - wave.frequency);
    let past = period - wave.timer;
    lemma_fundamental_div_mod_converse(past, period, 0, past);
}

/// The second half of the positions of a two-bank wave is the other bank.
pub proof fn law_wave_banks(wave: WaveView)
    requires
        wave.wf(),
        wave.position < 32,
    ensures
        ({
            let other = WaveView { bank: 1 - wave.bank, ..wave };
            &&& WaveView { two_banks: true, ..wave }.current_sample() == WaveView {
                two_banks: false,
                ..wave
            }.current_sample()
            &&& WaveView {
                two_banks: true,
                position: (wave.position + 32) as u8,
                ..wave
            }.current_sample() == WaveView { two_banks: false, ..other }.current_sample()
        }),
{
    assert((wave.position + 32) % 32 == wave.position as int % 32);
}

/// The volume settings of the wave channel are silence, all, a half and a
/// quarter, or three quarters where that is forced; it is off without its
/// DAC, and silent while it does not play.
pub proof fn law_wave_volume(wave: WaveView)
    requires
        wave.wf(),
    ensures
        ({
            let full = wave.current_sample() as int;
            &&& !wave.playing ==> wave.level() is None
            &&& wave.playing ==> wave.level() == Some(
                (if !wave.enabled {
                    0
                } else if wave.force_three_quarters {
                    full * 3 / 4
                } else if wave.volume == 0 {
                    0
                } else if wave.volume == 1 {
                    full
                } else if wave.volume == 2 {
                    full / 2
                } else {
                    full / 4
                }) as u8,
            )
        }),
{
    lemma_byte_fields(wave.current_sample());
}

/// The fields of the wave channel's registers.
#[verifier::rlimit(40)]
pub proof fn law_wave_registers(wave: WaveView, value: u16)
    requires
        wave.wf(),
    ensures
        wave.mode_written(value).two_banks == ((value / 32) % 2 == 1),
        wave.mode_written(value).bank == (value / 64) % 2,
        wave.mode_written(value).playing == ((value / 128) % 2 == 1),
        wave.mode_written(value).enabled == (wave.enabled && (value / 128) % 2 == 1),
        wave.length_volume_written(value).length.counter == 256 - value % 256,
        wave.length_volume_written(value).volume == (value / 8192) % 4,
        wave.length_volume_written(value).force_three_quarters == (value >= 0x8000),
        wave.frequency_control_written(value).frequency == value % 2048,
        wave.frequency_control_written(value).length.enabled == ((value / 16384) % 2 == 1),
        value >= 0x8000 ==> {
            let after = wave.frequency_control_written(value);
            &&& after.enabled == wave.playing
            &&& after.position == 0
            &&& after.timer == 8 * (2048 - after.frequency)
            &&& after.length.counter == if wave.length.counter == 0 {
                256
            } else {
                wave.length.counter
            }
        },
        value < 0x8000 ==> {
            let after = wave.frequency_control_written(value);
            &&& after.enabled == wave.enabled
            &&& after.position == wave.position
            &&& after.timer == wave.timer
            &&& after.length.counter == wave.length.counter
        },
{
    lemma_half_fields(value);
}

/// The bits of the noise generator one step on.
proof fn lemma_noise_bits(lfsr: u16, i: u16)
    by (bit_vector)
    requires
        i < 14,
        lfsr < 0x8000,
    ensures
        (((lfsr >> 1) | (((lfsr ^ (lfsr >> 1)) & 1) << 14)) >> i) & 1 == (lfsr >> ((i + 1) as u16))
            & 1,
        (((lfsr >> 1) | (((lfsr ^ (lfsr >> 1)) & 1) << 14)) >> 14) & 1 == (lfsr & 1) ^ ((lfsr >> 1) & 1),
        ((lfsr >> 1) | (((lfsr ^ (lfsr >> 1)) & 1) << 14)) < 0x8000,
        i != 6 ==> (((((lfsr >> 1) | (((lfsr ^ (lfsr >> 1)) & 1) << 14)) & !(1u16 << 6)) | (((lfsr
            ^ (lfsr >> 1)) & 1) << 6)) >> i) & 1 == (lfsr >> ((i + 1) as u16)) & 1,
        (((((lfsr >> 1) | (((lfsr ^ (lfsr >> 1)) & 1) << 14)) & !(1u16 << 6)) | (((lfsr ^ (lfsr
            >> 1)) & 1) << 6)) >> 6) & 1 == (lfsr & 1) ^ ((lfsr >> 1) & 1),
        (((((lfsr >> 1) | (((lfsr ^ (lfsr >> 1)) & 1) << 14)) & !(1u16 << 6)) | (((lfsr ^ (lfsr
            >> 1)) & 1) << 6)) >> 14) & 1 == (lfsr & 1) ^ ((lfsr >> 1) & 1),
        ((((lfsr >> 1) | (((lfsr ^ (lfsr >> 1)) & 1) << 14)) & !(1u16 << 6)) | (((lfsr ^ (lfsr
            >> 1)) & 1) << 6)) < 0x8000,
{
}

/// The noise generator is a 15-bit shift register: every bit moves down by
/// one, and the sum of the two lowest, without carry, comes in at the top; in
/// narrow mode it replaces bit 6 too.
pub proof fn law_noise_generator(lfsr: u16, narrow: bool, i: u16)
    requires
        lfsr < 0x8000,
        i < 14,
    ensures
        ({
            let next = lfsr_next(lfsr, narrow);
            let fed_back = (lfsr & 1) ^ ((lfsr >> 1) & 1);
            &&& next < 0x8000
            &&& (next >> 14) & 1 == fed_back
            &&& (next >> i) & 1 == if narrow && i == 6 {
                fed_back
            } else {
                (lfsr >> ((i + 1) as u16)) & 1
            }
        }),
{
    lemma_noise_bits(lfsr, i);
}

/// The noise generator moves on by one step, and is as far into it as
/// before, after 32 cycles for each unit of its ratio, 16 for zero, doubled
/// once and once more for each unit of its shift. A shift of 14 or 15 stops
/// it.
pub proof fn law_noise_pitch(noise: Noise)
    requires
        noise.wf(),
        1 <= noise.timer <= noise.shift_period(),
    ensures
        noise.shift_period() == (if noise.ratio == 0 {
            16
        } else {
            32 * noise.ratio
        }) * pow2((noise.shift + 1) as nat),
        noise.shift < 14 ==> {
            let after = noise.ticked(noise.shift_period());
            &&& after == (Noise { lfsr: after.lfsr, ..noise })
            &&& after.lfsr == lfsr_next(noise.lfsr, noise.narrow)
        },
        noise.shift >= 14 ==> noise.ticked(noise.shift_period()) == noise,
{
    let d: u32 = if noise.ratio == 0 {
        16
    } else {
        (32 * noise.ratio) as u32
    };
    let shift = (noise.shift + 1) as u32;
    vstd::arithmetic::power2::lemma_pow2_strictly_increases(0, shift as nat);
    if shift < 16 {
        vstd::arithmetic::power2::lemma_pow2_strictly_increases(shift as nat, 16);
    }
    vstd::arithmetic::power2::lemma2_to64();
    assert(d * pow2(shift as nat) <= u32::MAX) by (nonlinear_arith)
        requires
            d <= 224,
            pow2(shift as nat) <= 0x1_0000,
    ;
    vstd::bits::lemma_u32_shl_is_mul(d, shift);
    let period = noise.shift_period() as int;
    let past = period - noise.timer;
    lemma_fundamental_div_mod_converse(past, period, 0, past);
    reveal_with_fuel(crate::apu::psg::lfsr_after, 2);
}

/// The noise channel is heard, at its volume, where the lowest bit of its
/// generator is clear.
#[verifier::rlimit(40)]
pub proof fn law_noise_level(noise: Noise)
    requires
        noise.envelope.initial > 0 || noise.envelope.increase,
    ensures
        noise.level() == Some(
            if noise.enabled && noise.lfsr % 2 == 0 {
                noise.envelope.volume
            } else {
                0
            },
        ),
{
    let lfsr = noise.lfsr;
    lemma_half_fields(lfsr);
}

/// The fields of the noise channel's registers.
#[verifier::rlimit(40)]
pub proof fn law_noise_registers(noise: Noise, value: u16)
    requires
        noise.wf(),
    ensures
        ({
            let after = noise.length_envelope_written(value);
            &&& after.length.counter == 64 - value % 64
            &&& after.envelope.period == (value / 256) % 8
            &&& after.envelope.increase == ((value / 2048) % 2 == 1)
            &&& after.envelope.initial == value / 4096
            &&& after.enabled == (noise.enabled && value / 2048 != 0)
        }),
        ({
            let after = noise.control_written(value);
            &&& after.ratio == value % 8
            &&& after.narrow == ((value / 8) % 2 == 1)
            &&& after.shift == (value / 16) % 16
            &&& after.length.enabled == ((value / 16384) % 2 == 1)
            &&& value < 0x8000 ==> after.enabled == noise.enabled && after.lfsr == noise.lfsr
                && after.envelope == noise.envelope
            &&& value >= 0x8000 ==> {
                &&& after.enabled == (noise.envelope.initial > 0 || noise.envelope.increase)
                &&& after.lfsr == 0x7FFF
                &&& after.envelope.volume == noise.envelope.initial
                &&& after.timer == after.shift_period()
                &&& after.length.counter == if noise.length.counter == 0 {
                    64
                } else {
                    noise.length.counter
                }
            }
        }),
{
    lemma_half_fields(value);
}

} // verus!
