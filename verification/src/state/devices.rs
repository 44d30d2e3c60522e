//! How a state file lays out the timers, the DMA controller, the wait states
//! and the GPIO port.

use vstd::prelude::*;

use crate::memory::dma::{Channel, Dma};
use crate::memory::gpio::{parameter_bytes, DateTime, Gpio, Phase, Rtc};
use crate::memory::timers::{Timer, Timers};
use crate::memory::wait::{Access, WaitStates};

verus! {

/// A timer as plain values, in the order of its fields.
pub type TimerParts = (u16, u16, u16, u32);

/// What a state file holds of a timer.
pub open spec fn timer_layout(timer: Timer) -> TimerParts {
    (timer.reload, timer.counter, timer.control, timer.fraction)
}

/// Takes a timer apart.
fn take_timer(timer: &Timer) -> (parts: TimerParts)
    ensures
        parts == timer_layout(*timer),
{
    (timer.reload, timer.counter, timer.control, timer.fraction)
}

/// Puts a timer together.
fn put_timer(parts: TimerParts) -> (timer: Timer)
    ensures
        timer_layout(timer) == parts,
{
    let (reload, counter, control, fraction) = parts;
    Timer { reload, counter, control, fraction }
}

/// The four timers as plain values.
pub type TimersParts = (TimerParts, TimerParts, TimerParts, TimerParts);

/// What a state file holds of the four timers.
pub open spec fn timers_layout(timers: Timers) -> TimersParts {
    (
        timer_layout(timers.timers@[0]),
        timer_layout(timers.timers@[1]),
        timer_layout(timers.timers@[2]),
        timer_layout(timers.timers@[3]),
    )
}

/// Takes the four timers apart.
pub(crate) fn take_timers(timers: &Timers) -> (parts: TimersParts)
    ensures
        parts@ == timers_layout(*timers),
{
    (
        take_timer(&timers.timers[0]),
        take_timer(&timers.timers[1]),
        take_timer(&timers.timers[2]),
        take_timer(&timers.timers[3]),
    )
}

/// Puts four timers together, if their fractions are in range.
pub(crate) fn put_timers(parts: TimersParts) -> (put: Option<Timers>)
    ensures
        match put {
            Some(timers) => timers.wf() && timers_layout(timers) == parts@,
            None => forall|timers: Timers|
                timers.wf() ==> #[trigger] timers_layout(timers) != parts@,
        },
{
    let (t0, t1, t2, t3) = parts;
    if t0.3 < 1024 && t1.3 < 1024 && t2.3 < 1024 && t3.3 < 1024 {
        Some(Timers { timers: [put_timer(t0), put_timer(t1), put_timer(t2), put_timer(t3)] })
    } else {
        proof {
            assert forall|timers: Timers| timers.wf() implies #[trigger] timers_layout(timers)
                != parts@ by {
                assert(timers.timers@[0].wf());
                assert(timers.timers@[1].wf());
                assert(timers.timers@[2].wf());
                assert(timers.timers@[3].wf());
            }
        }
        None
    }
}

/// The layout tells the four timers from any others.
pub(crate) proof fn lemma_timers(a: Timers, b: Timers)
    requires
        timers_layout(a) == timers_layout(b),
    ensures
        a@ == b@,
{
    assert(a@ =~= b@);
}

/// A DMA channel as plain values, in the order of its fields.
pub type ChannelParts = (u32, u32, u16, u16, u32, u32);

/// What a state file holds of a DMA channel.
pub open spec fn channel_layout(channel: Channel) -> ChannelParts {
    (
        channel.source,
        channel.dest,
        channel.count,
        channel.control,
        channel.latched_source,
        channel.latched_dest,
    )
}

/// Takes a DMA channel apart.
fn take_channel(channel: &Channel) -> (parts: ChannelParts)
    ensures
        parts == channel_layout(*channel),
{
    (
        channel.source,
        channel.dest,
        channel.count,
        channel.control,
        channel.latched_source,
        channel.latched_dest,
    )
}

/// Puts a DMA channel together.
fn put_channel(parts: ChannelParts) -> (channel: Channel)
    ensures
        channel_layout(channel) == parts,
{
    let (source, dest, count, control, latched_source, latched_dest) = parts;
    Channel { source, dest, count, control, latched_source, latched_dest }
}

/// The DMA controller as plain values: the four channels, and those that are
/// ready to run.
pub type DmaParts = ((ChannelParts, ChannelParts, ChannelParts, ChannelParts), u8);

/// What a state file holds of the DMA controller.
pub open spec fn dma_layout(dma: Dma) -> DmaParts {
    (
        (
            channel_layout(dma.channels@[0]),
            channel_layout(dma.channels@[1]),
            channel_layout(dma.channels@[2]),
            channel_layout(dma.channels@[3]),
        ),
        dma.pending,
    )
}

/// Takes the DMA controller apart.
pub(crate) fn take_dma(dma: &Dma) -> (parts: DmaParts)
    ensures
        parts@ == dma_layout(*dma),
{
    let channels = (
        take_channel(&dma.channels[0]),
        take_channel(&dma.channels[1]),
        take_channel(&dma.channels[2]),
        take_channel(&dma.channels[3]),
    );
    (channels, dma.pending)
}

/// Puts a DMA controller together.
pub(crate) fn put_dma(parts: DmaParts) -> (dma: Dma)
    ensures
        dma_layout(dma) == parts@,
{
    let ((c0, c1, c2, c3), pending) = parts;
    Dma {
        channels: [put_channel(c0), put_channel(c1), put_channel(c2), put_channel(c3)],
        pending,
    }
}

/// The layout tells a DMA controller from any other.
pub(crate) proof fn lemma_dma(a: Dma, b: Dma)
    requires
        dma_layout(a) == dma_layout(b),
    ensures
        a@ == b@,
{
    assert(a.channels@ =~= b.channels@);
}

/// The costs of a page as plain values, in the order of the fields.
pub type AccessParts = (u8, u8, u8, u8);

/// What a state file holds of the costs of a page.
pub open spec fn access_layout(access: Access) -> AccessParts {
    (access.n16, access.s16, access.n32, access.s32)
}

/// The wait states as plain values.
pub type WaitParts = ([AccessParts; 16], bool);

/// The wait states in a state file: the costs of each page, and whether the
/// prefetch buffer is enabled.
pub type WaitLayout = (Seq<AccessParts>, bool);

/// What a state file holds of the wait states.
pub open spec fn wait_layout(wait: WaitStates) -> WaitLayout {
    (wait.pages@.map_values(|access: Access| access_layout(access)), wait.prefetch)
}

/// Takes the wait states apart.
pub(crate) fn take_wait(wait: &WaitStates) -> (parts: WaitParts)
    ensures
        parts@ == wait_layout(*wait),
{
    let mut pages: [AccessParts; 16] = [(0, 0, 0, 0); 16];
    for i in 0..16usize
        invariant
            forall|k: int| 0 <= k < i ==> pages@[k] == access_layout(wait.pages@[k]),
    {
        let access = &wait.pages[i];
        pages[i] = (access.n16, access.s16, access.n32, access.s32);
    }
    assert(pages@ =~= wait_layout(*wait).0);
    (pages, wait.prefetch)
}

/// Puts wait states together, if every cost is in range.
pub(crate) fn put_wait(parts: WaitParts) -> (put: Option<WaitStates>)
    ensures
        match put {
            Some(wait) => wait.wf() && wait_layout(wait) == parts@,
            None => forall|wait: WaitStates| wait.wf() ==> #[trigger] wait_layout(wait) != parts@,
        },
{
    let (pages, prefetch) = parts;
    let mut wait = WaitStates { prefetch, ..WaitStates::default() };
    for i in 0..16usize
        invariant
            parts@ == (pages@, prefetch),
            wait.prefetch == prefetch,
            wait.wf(),
            forall|k: int| 0 <= k < i ==> access_layout(wait.pages@[k]) == pages@[k],
    {
        let (n16, s16, n32, s32) = pages[i];
        let access = Access { n16, s16, n32, s32 };
        if n16 < 1 || n16 > 18 || s16 < 1 || s16 > 18 || n32 < 1 || n32 > 18 || s32 < 1 || s32
            > 18 {
            proof {
                assert forall|other: WaitStates| other.wf() implies #[trigger] wait_layout(other)
                    != parts@ by {
                    assert(other.pages@[i as int].wf());
                    assert(wait_layout(other).0[i as int] == access_layout(
                        other.pages@[i as int],
                    ));
                }
            }
            return None;
        }
        wait.pages[i] = access;
    }
    assert(wait_layout(wait).0 =~= pages@);
    Some(wait)
}

/// The layout tells wait states from any others.
pub(crate) proof fn lemma_wait(a: WaitStates, b: WaitStates)
    requires
        wait_layout(a) == wait_layout(b),
    ensures
        a@ == b@,
{
    assert forall|i: int| 0 <= i < 16 implies a.pages@[i] == b.pages@[i] by {
        assert(wait_layout(a).0[i] == wait_layout(b).0[i]);
    }
    assert(a.pages@ =~= b.pages@);
}

/// The phase of a clock transfer as plain values: the number of the variant,
/// then the fields of `Parameters` where it is that.
pub type PhaseParts = (u32, Option<u8>, Option<bool>);

/// What a state file holds of the phase of a clock transfer.
pub open spec fn phase_layout(phase: Phase) -> PhaseParts {
    match phase {
        Phase::Idle => (0, None, None),
        Phase::Command => (1, None, None),
        Phase::Parameters { command, read } => (2, Some(command), Some(read)),
        Phase::Done => (3, None, None),
    }
}

/// Takes the phase of a clock transfer apart.
fn take_phase(phase: Phase) -> (parts: PhaseParts)
    ensures
        parts == phase_layout(phase),
{
    match phase {
        Phase::Idle => (0, None, None),
        Phase::Command => (1, None, None),
        Phase::Parameters { command, read } => (2, Some(command), Some(read)),
        Phase::Done => (3, None, None),
    }
}

/// Puts the phase of a clock transfer together, if it is one.
fn put_phase(parts: PhaseParts) -> (put: Option<Phase>)
    ensures
        match put {
            Some(phase) => phase_layout(phase) == parts,
            None => forall|phase: Phase| #[trigger] phase_layout(phase) != parts,
        },
{
    match parts {
        (0, None, None) => Some(Phase::Idle),
        (1, None, None) => Some(Phase::Command),
        (2, Some(command), Some(read)) => Some(Phase::Parameters { command, read }),
        (3, None, None) => Some(Phase::Done),
        _ => None,
    }
}

/// The clock chip as plain values.
pub type RtcParts = (PhaseParts, u8, u8, u8, [u8; 7], u8, bool);

/// The clock chip in a state file: its fields in order.
pub type RtcLayout = (PhaseParts, u8, u8, u8, Seq<u8>, u8, bool);

/// What a state file holds of the clock chip.
pub open spec fn rtc_layout(rtc: Rtc) -> RtcLayout {
    (
        phase_layout(rtc.phase),
        rtc.shift,
        rtc.bits,
        rtc.index,
        rtc.buffer@,
        rtc.status,
        rtc.sio,
    )
}

/// Takes the clock chip apart.
fn take_rtc(rtc: &Rtc) -> (parts: RtcParts)
    ensures
        parts@ == rtc_layout(*rtc),
{
    (
        take_phase(rtc.phase),
        rtc.shift,
        rtc.bits,
        rtc.index,
        rtc.buffer,
        rtc.status,
        rtc.sio,
    )
}

/// Puts a clock chip together, if there is one with these parts.
fn put_rtc(parts: RtcParts) -> (put: Option<Rtc>)
    ensures
        match put {
            Some(rtc) => rtc.wf() && rtc_layout(rtc) == parts@,
            None => forall|rtc: Rtc| rtc.wf() ==> #[trigger] rtc_layout(rtc) != parts@,
        },
{
    let (phase, shift, bits, index, buffer, status, sio) = parts;
    match put_phase(phase) {
        Some(phase) => {
            let in_range = match phase {
                Phase::Parameters { command, .. } => index < parameter_bytes(command),
                _ => true,
            };
            if bits <= 7 && in_range {
                Some(Rtc { phase, shift, bits, index, buffer, status, sio })
            } else {
                None
            }
        },
        None => None,
    }
}

/// A date and time as plain values, in the order of its fields.
pub type DateParts = (u16, u8, u8, u8, u8, u8, u8);

/// What a state file holds of a date and time.
pub open spec fn date_layout(date: DateTime) -> DateParts {
    (date.year, date.month, date.day, date.weekday, date.hour, date.minute, date.second)
}

/// The GPIO port as plain values.
pub type GpioParts = (u8, u8, bool, RtcParts, DateParts);

/// The GPIO port in a state file: its fields in order.
pub type GpioLayout = (u8, u8, bool, RtcLayout, DateParts);

/// What a state file holds of the GPIO port.
pub open spec fn gpio_layout(gpio: Gpio) -> GpioLayout {
    (gpio.data, gpio.direction, gpio.readable, rtc_layout(gpio.rtc), date_layout(gpio.clock))
}

/// Takes the GPIO port apart.
pub(crate) fn take_gpio(gpio: &Gpio) -> (parts: GpioParts)
    ensures
        parts@ == gpio_layout(*gpio),
{
    let date = &gpio.clock;
    let clock: DateParts = (
        date.year,
        date.month,
        date.day,
        date.weekday,
        date.hour,
        date.minute,
        date.second,
    );
    (gpio.data, gpio.direction, gpio.readable, take_rtc(&gpio.rtc), clock)
}

/// Puts a GPIO port together, if there is one with these parts.
pub(crate) fn put_gpio(parts: GpioParts) -> (put: Option<Gpio>)
    ensures
        match put {
            Some(gpio) => gpio.wf() && gpio_layout(gpio) == parts@,
            None => forall|gpio: Gpio| gpio.wf() ==> #[trigger] gpio_layout(gpio) != parts@,
        },
{
    let (data, direction, readable, rtc, clock) = parts;
    let (year, month, day, weekday, hour, minute, second) = clock;
    let clock = DateTime { year, month, day, weekday, hour, minute, second };
    match put_rtc(rtc) {
        Some(rtc) => Some(Gpio { data, direction, readable, rtc, clock }),
        None => None,
    }
}

/// The layout tells a GPIO port from any other.
pub(crate) proof fn lemma_gpio(a: Gpio, b: Gpio)
    requires
        gpio_layout(a) == gpio_layout(b),
    ensures
        a@ == b@,
{
    assert(a.rtc.phase == b.rtc.phase);
}

} // verus!
