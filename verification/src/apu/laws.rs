//! What holds of the sound unit as a whole.

use vstd::arithmetic::div_mod::lemma_mod_bound;
use vstd::prelude::*;

use crate::apu::ApuView;

verus! {

/// The sound unit with another count of cycles towards the next sample.
spec fn at_cycle(apu: ApuView, cycles: u32) -> ApuView {
    ApuView { cycles, ..apu }
}

proof fn lemma_sample_ignores_cycles(apu: ApuView, cycles: u32)
    ensures
        at_cycle(apu, cycles).sampled() == at_cycle(apu.sampled(), cycles),
{
    let other = at_cycle(apu, cycles);
    assert(other.channels_advanced() == at_cycle(apu.channels_advanced(), cycles));
    let a = if apu.master_enabled() {
        apu.channels_advanced()
    } else {
        apu
    };
    assert(at_cycle(a, cycles).mix() == a.mix());
}

proof fn lemma_sampling_ignores_cycles(apu: ApuView, cycles: u32, count: int)
    ensures
        at_cycle(apu, cycles).sampled_times(count) == at_cycle(apu.sampled_times(count), cycles),
    decreases count,
{
    if count > 0 {
        lemma_sampling_ignores_cycles(apu, cycles, count - 1);
        lemma_sample_ignores_cycles(apu.sampled_times(count - 1), cycles);
    }
}

proof fn lemma_sampling_adds(apu: ApuView, a: int, b: int)
    requires
        a >= 0,
        b >= 0,
    ensures
        apu.sampled_times(a).sampled_times(b) == apu.sampled_times(a + b),
    decreases b,
{
    if b > 0 {
        lemma_sampling_adds(apu, a, b - 1);
    }
}

/// The sound unit does not care how time is cut into steps, as long as nobody
/// touches its registers in between.
pub proof fn law_apu_steps_add(apu: ApuView, a: u32, b: u32)
    requires
        a + b <= u32::MAX,
    ensures
        apu.step(a).step(b) == apu.step((a + b) as u32),
{
    reveal(ApuView::step);
    let first = apu.cycles + a;
    let second = first % 512 + b;
    lemma_mod_bound(first, 512);
    assert((first + b) / 512 == first / 512 + second / 512 && (first + b) % 512 == second % 512);
    let m = apu.sampled_times(first / 512);
    lemma_sampling_ignores_cycles(m, (first % 512) as u32, second / 512);
    lemma_sampling_adds(apu, first / 512, second / 512);
}

proof fn lemma_samples(apu: ApuView, count: int)
    requires
        count >= 0,
    ensures
        apu.sampled_times(count).samples.len() == apu.samples.len() + 2 * count,
        apu.samples.is_prefix_of(apu.sampled_times(count).samples),
        !apu.master_enabled() ==> apu.sampled_times(count) == (ApuView {
            samples: apu.sampled_times(count).samples,
            ..apu
        }) && forall|i: int|
            apu.samples.len() <= i < apu.samples.len() + 2 * count ==> apu.sampled_times(
                count,
            ).samples[i] == 0,
    decreases count,
{
    if count > 0 {
        lemma_samples(apu, count - 1);
    }
}

/// One stereo pair comes out every 512 cycles, behind those that are there.
pub proof fn law_sample_rate(apu: ApuView, cycles: u32)
    ensures
        apu.step(cycles).samples.len() == apu.samples.len() + 2 * ((apu.cycles + cycles) as int
            / 512),
        apu.samples.is_prefix_of(apu.step(cycles).samples),
{
    reveal(ApuView::step);
    lemma_samples(apu, (apu.cycles + cycles) as int / 512);
}

/// A sound unit that is switched off puts out silence.
pub proof fn law_silence_while_off(apu: ApuView, cycles: u32)
    requires
        !apu.master_enabled(),
    ensures
        forall|i: int|
            apu.samples.len() <= i < apu.step(cycles).samples.len() ==> apu.step(
                cycles,
            ).samples[i] == 0,
{
    reveal(ApuView::step);
    lemma_samples(apu, (apu.cycles + cycles) as int / 512);
}

} // verus!
