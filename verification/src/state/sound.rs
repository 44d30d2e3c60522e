//! How a state file lays out the sound unit.

use vstd::prelude::*;

use crate::apu::fifo::Fifo;
use crate::apu::psg::{Envelope, Length, Noise, Square, Sweep, Wave, MAX_FREQUENCY};
use crate::apu::{Apu, CYCLES_PER_SAMPLE, SEQUENCER_INTERVAL};

verus! {

/// A length counter as plain values, in the order of its fields.
pub type LengthParts = (u16, bool);

/// What a state file holds of a length counter.
pub open spec fn length_layout(length: Length) -> LengthParts {
    (length.counter, length.enabled)
}

/// An envelope as plain values, in the order of its fields.
pub type EnvelopeParts = (u8, bool, u8, u8, u8);

/// What a state file holds of an envelope.
pub open spec fn envelope_layout(envelope: Envelope) -> EnvelopeParts {
    (envelope.initial, envelope.increase, envelope.period, envelope.volume, envelope.timer)
}

/// Takes an envelope apart.
fn take_envelope(envelope: &Envelope) -> (parts: EnvelopeParts)
    ensures
        parts == envelope_layout(*envelope),
{
    (envelope.initial, envelope.increase, envelope.period, envelope.volume, envelope.timer)
}

/// Puts an envelope together, if its volumes are in range.
fn put_envelope(parts: EnvelopeParts) -> (put: Option<Envelope>)
    ensures
        match put {
            Some(envelope) => envelope.wf() && envelope_layout(envelope) == parts,
            None => forall|envelope: Envelope|
                envelope.wf() ==> #[trigger] envelope_layout(envelope) != parts,
        },
{
    let (initial, increase, period, volume, timer) = parts;
    if initial <= 15 && volume <= 15 {
        Some(Envelope { initial, increase, period, volume, timer })
    } else {
        None
    }
}

/// A frequency sweep as plain values, in the order of its fields.
pub type SweepParts = (u8, bool, u8, u8, bool, u16);

/// What a state file holds of a frequency sweep.
pub open spec fn sweep_layout(sweep: Sweep) -> SweepParts {
    (sweep.shift, sweep.decrease, sweep.period, sweep.timer, sweep.enabled, sweep.shadow)
}

/// Takes a frequency sweep apart.
fn take_sweep(sweep: &Sweep) -> (parts: SweepParts)
    ensures
        parts == sweep_layout(*sweep),
{
    (sweep.shift, sweep.decrease, sweep.period, sweep.timer, sweep.enabled, sweep.shadow)
}

/// Puts a frequency sweep together, if its shift and frequency are in range.
fn put_sweep(parts: SweepParts) -> (put: Option<Sweep>)
    ensures
        match put {
            Some(sweep) => sweep.wf() && sweep_layout(sweep) == parts,
            None => forall|sweep: Sweep| sweep.wf() ==> #[trigger] sweep_layout(sweep) != parts,
        },
{
    let (shift, decrease, period, timer, enabled, shadow) = parts;
    if shift <= 7 && shadow <= MAX_FREQUENCY {
        Some(Sweep { shift, decrease, period, timer, enabled, shadow })
    } else {
        None
    }
}

/// A square channel as plain values, in the order of its fields.
pub type SquareParts = (bool, u8, u16, u32, u8, LengthParts, EnvelopeParts, SweepParts);

/// What a state file holds of a square channel.
pub open spec fn square_layout(square: Square) -> SquareParts {
    (
        square.enabled,
        square.duty,
        square.frequency,
        square.timer,
        square.phase,
        length_layout(square.length),
        envelope_layout(square.envelope),
        sweep_layout(square.sweep),
    )
}

/// Takes a square channel apart.
fn take_square(square: &Square) -> (parts: SquareParts)
    ensures
        parts == square_layout(*square),
{
    (
        square.enabled,
        square.duty,
        square.frequency,
        square.timer,
        square.phase,
        (square.length.counter, square.length.enabled),
        take_envelope(&square.envelope),
        take_sweep(&square.sweep),
    )
}

/// Puts a square channel together, if there is one with these parts.
fn put_square(parts: SquareParts) -> (put: Option<Square>)
    ensures
        match put {
            Some(square) => square.wf() && square_layout(square) == parts,
            None => forall|square: Square|
                square.wf() ==> #[trigger] square_layout(square) != parts,
        },
{
    let (enabled, duty, frequency, timer, phase, length, envelope, sweep) = parts;
    let length = Length { counter: length.0, enabled: length.1 };
    if duty > 3 || phase > 7 || frequency > MAX_FREQUENCY {
        return None;
    }
    match (put_envelope(envelope), put_sweep(sweep)) {
        (Some(envelope), Some(sweep)) => Some(
            Square { enabled, duty, frequency, timer, phase, length, envelope, sweep },
        ),
        _ => None,
    }
}

/// The wave channel as plain values.
pub type WaveParts = (bool, bool, bool, usize, [u8; 32], u8, u16, u32, u8, bool, LengthParts);

/// The wave channel in a state file: its fields in order, both banks of wave
/// RAM one behind the other.
pub type WaveLayout = (bool, bool, bool, usize, Seq<u8>, u8, u16, u32, u8, bool, LengthParts);

/// What a state file holds of the wave channel.
pub open spec fn wave_layout(wave: Wave) -> WaveLayout {
    (
        wave.enabled,
        wave.playing,
        wave.two_banks,
        wave.bank,
        wave.ram@,
        wave.position,
        wave.frequency,
        wave.timer,
        wave.volume,
        wave.force_three_quarters,
        length_layout(wave.length),
    )
}

/// Takes the wave channel apart.
fn take_wave(wave: &Wave) -> (parts: WaveParts)
    ensures
        parts@ == wave_layout(*wave),
{
    (
        wave.enabled,
        wave.playing,
        wave.two_banks,
        wave.bank,
        wave.ram,
        wave.position,
        wave.frequency,
        wave.timer,
        wave.volume,
        wave.force_three_quarters,
        (wave.length.counter, wave.length.enabled),
    )
}

/// Puts a wave channel together, if its fields are in range.
fn put_wave(parts: WaveParts) -> (put: Option<Wave>)
    ensures
        match put {
            Some(wave) => wave.wf() && wave_layout(wave) == parts@,
            None => forall|wave: Wave| wave.wf() ==> #[trigger] wave_layout(wave) != parts@,
        },
{
    let (
        enabled,
        playing,
        two_banks,
        bank,
        ram,
        position,
        frequency,
        timer,
        volume,
        force_three_quarters,
        length,
    ) = parts;
    if bank <= 1 && position <= 63 && frequency <= MAX_FREQUENCY && volume <= 3 {
        Some(
            Wave {
                enabled,
                playing,
                two_banks,
                bank,
                ram,
                position,
                frequency,
                timer,
                volume,
                force_three_quarters,
                length: Length { counter: length.0, enabled: length.1 },
            },
        )
    } else {
        None
    }
}

/// The noise channel as plain values, in the order of its fields.
pub type NoiseParts = (bool, u16, bool, u8, u8, u32, LengthParts, EnvelopeParts);

/// What a state file holds of the noise channel.
pub open spec fn noise_layout(noise: Noise) -> NoiseParts {
    (
        noise.enabled,
        noise.lfsr,
        noise.narrow,
        noise.shift,
        noise.ratio,
        noise.timer,
        length_layout(noise.length),
        envelope_layout(noise.envelope),
    )
}

/// Takes the noise channel apart.
fn take_noise(noise: &Noise) -> (parts: NoiseParts)
    ensures
        parts == noise_layout(*noise),
{
    (
        noise.enabled,
        noise.lfsr,
        noise.narrow,
        noise.shift,
        noise.ratio,
        noise.timer,
        (noise.length.counter, noise.length.enabled),
        take_envelope(&noise.envelope),
    )
}

/// Puts a noise channel together, if there is one with these parts.
fn put_noise(parts: NoiseParts) -> (put: Option<Noise>)
    ensures
        match put {
            Some(noise) => noise.wf() && noise_layout(noise) == parts,
            None => forall|noise: Noise| noise.wf() ==> #[trigger] noise_layout(noise) != parts,
        },
{
    let (enabled, lfsr, narrow, shift, ratio, timer, length, envelope) = parts;
    let length = Length { counter: length.0, enabled: length.1 };
    if shift > 15 || ratio > 7 {
        return None;
    }
    match put_envelope(envelope) {
        Some(envelope) => Some(
            Noise { enabled, lfsr, narrow, shift, ratio, timer, length, envelope },
        ),
        None => None,
    }
}

/// A sound FIFO as plain values.
pub type FifoParts = ([u8; 32], usize, usize, i8);

/// A sound FIFO in a state file: its fields in order.
pub type FifoLayout = (Seq<u8>, usize, usize, i8);

/// What a state file holds of a sound FIFO.
pub open spec fn fifo_layout(fifo: Fifo) -> FifoLayout {
    (fifo.buffer@, fifo.read, fifo.len, fifo.sample)
}

/// Takes a sound FIFO apart.
fn take_fifo(fifo: &Fifo) -> (parts: FifoParts)
    ensures
        parts@ == fifo_layout(*fifo),
{
    (fifo.buffer, fifo.read, fifo.len, fifo.sample)
}

/// Puts a sound FIFO together, if it fits its buffer.
fn put_fifo(parts: FifoParts) -> (put: Option<Fifo>)
    ensures
        match put {
            Some(fifo) => fifo.wf() && fifo_layout(fifo) == parts@,
            None => forall|fifo: Fifo| fifo.wf() ==> #[trigger] fifo_layout(fifo) != parts@,
        },
{
    let (buffer, read, len, sample) = parts;
    if read < 32 && len <= 32 {
        Some(Fifo { buffer, read, len, sample })
    } else {
        None
    }
}

/// The sound unit as plain values.
pub type ApuParts = (
    [u16; 24],
    SquareParts,
    SquareParts,
    WaveParts,
    NoiseParts,
    (FifoParts, FifoParts),
    u32,
    u32,
    u8,
    Vec<i16>,
);

/// The sound unit in a state file: its fields in order.
pub type ApuLayout = (
    Seq<u16>,
    SquareParts,
    SquareParts,
    WaveLayout,
    NoiseParts,
    (FifoLayout, FifoLayout),
    u32,
    u32,
    u8,
    Seq<i16>,
);

/// What a state file holds of the sound unit.
pub open spec fn apu_layout(apu: Apu) -> ApuLayout {
    (
        apu.raw@,
        square_layout(apu.square1),
        square_layout(apu.square2),
        wave_layout(apu.wave),
        noise_layout(apu.noise),
        (fifo_layout(apu.fifo@[0]), fifo_layout(apu.fifo@[1])),
        apu.cycles,
        apu.sequencer_samples,
        apu.sequencer_step,
        apu.samples@,
    )
}

/// Takes the sound unit apart.
pub(crate) fn take_apu(apu: &Apu) -> (parts: ApuParts)
    ensures
        parts@ == apu_layout(*apu),
{
    let samples = apu.samples.clone();
    assert(samples@ =~= apu.samples@);
    (
        apu.raw,
        take_square(&apu.square1),
        take_square(&apu.square2),
        take_wave(&apu.wave),
        take_noise(&apu.noise),
        (take_fifo(&apu.fifo[0]), take_fifo(&apu.fifo[1])),
        apu.cycles,
        apu.sequencer_samples,
        apu.sequencer_step,
        samples,
    )
}

/// Puts a sound unit together, if there is one with these parts.
pub(crate) fn put_apu(parts: ApuParts) -> (put: Option<Apu>)
    ensures
        match put {
            Some(apu) => apu.wf() && apu_layout(apu) == parts@,
            None => forall|apu: Apu| apu.wf() ==> #[trigger] apu_layout(apu) != parts@,
        },
{
    let (raw, square1, square2, wave, noise, fifos, cycles, waiting, step, samples) = parts;
    if cycles >= CYCLES_PER_SAMPLE || waiting >= SEQUENCER_INTERVAL || step > 7 {
        return None;
    }
    let fifo = match (put_fifo(fifos.0), put_fifo(fifos.1)) {
        (Some(a), Some(b)) => [a, b],
        _ => {
            return None;
        },
    };
    match (put_square(square1), put_square(square2), put_wave(wave), put_noise(noise)) {
        (Some(square1), Some(square2), Some(wave), Some(noise)) => Some(
            Apu {
                raw,
                square1,
                square2,
                wave,
                noise,
                fifo,
                cycles,
                sequencer_samples: waiting,
                sequencer_step: step,
                samples,
            },
        ),
        _ => None,
    }
}

/// The layout tells a square channel from any other.
proof fn lemma_square(a: Square, b: Square)
    requires
        square_layout(a) == square_layout(b),
    ensures
        a == b,
{
    assert(a.length == b.length);
    assert(a.envelope == b.envelope);
    assert(a.sweep == b.sweep);
}

/// The layout tells the wave channel from any other.
proof fn lemma_wave(a: Wave, b: Wave)
    requires
        wave_layout(a) == wave_layout(b),
    ensures
        a@ == b@,
{
    assert(a.length == b.length);
}

/// The layout tells the noise channel from any other.
proof fn lemma_noise(a: Noise, b: Noise)
    requires
        noise_layout(a) == noise_layout(b),
    ensures
        a == b,
{
    assert(a.length == b.length);
    assert(a.envelope == b.envelope);
}

/// The layout tells a sound FIFO from any other.
proof fn lemma_fifo(a: Fifo, b: Fifo)
    requires
        fifo_layout(a) == fifo_layout(b),
    ensures
        a@ == b@,
{
    assert(a@.queue =~= b@.queue);
}

/// The layout tells a sound unit from any other.
pub(crate) proof fn lemma_apu(a: Apu, b: Apu)
    requires
        apu_layout(a) == apu_layout(b),
    ensures
        a@ == b@,
{
    lemma_square(a.square1, b.square1);
    lemma_square(a.square2, b.square2);
    lemma_wave(a.wave, b.wave);
    lemma_noise(a.noise, b.noise);
    lemma_fifo(a.fifo@[0], b.fifo@[0]);
    lemma_fifo(a.fifo@[1], b.fifo@[1]);
}

} // verus!
