//! The four 16-bit timers.
//!
//! Each timer counts up at the system clock divided by a prescaler, or
//! (for timers 1–3) once per overflow of the previous timer. On overflow
//! it reloads from `TMxCNT_L` and may raise an interrupt.

use vstd::arithmetic::div_mod::lemma_div_is_ordered_by_denominator;
use vstd::prelude::*;

use crate::memory::interrupt::Interrupt;

verus! {

broadcast use crate::bits::group_mask_bounds;

/// State of one timer.
#[derive(Debug, Clone, Copy, PartialEq, Eq, Structural)]
pub struct Timer {
    /// Value written to `TMxCNT_L`, loaded on enable and on overflow.
    pub reload: u16,
    /// Current count, readable through `TMxCNT_L`.
    pub counter: u16,
    /// Raw `TMxCNT_H`.
    pub control: u16,
    /// Accumulated cycles not yet converted into ticks.
    pub fraction: u32,
}

/// Control bit: the timer counts.
pub const TIMER_ENABLE: u16 = 1 << 7;
/// Control bit: an overflow raises an interrupt.
pub const TIMER_IRQ: u16 = 1 << 6;
/// Control bit: count overflows of the previous timer.
pub const TIMER_CASCADE: u16 = 1 << 2;

impl Timer {
    /// The stopped timer.
    pub open spec fn idle() -> Timer {
        Timer { reload: 0, counter: 0, control: 0, fraction: 0 }
    }

    /// Less than one tick is pending at the slowest prescaler.
    pub open spec fn wf(self) -> bool {
        self.fraction < 1024
    }

    /// Whether the timer counts.
    #[verifier::allow_in_spec]
    fn enabled(self) -> bool
        returns
            self.is_enabled(),
    {
        self.control & TIMER_ENABLE != 0
    }

    /// Whether the timer counts.
    pub open spec fn is_enabled(self) -> bool {
        self.control & TIMER_ENABLE != 0
    }

    /// Whether the timer counts overflows of the previous one.
    pub open spec fn is_cascade(self) -> bool {
        self.control & TIMER_CASCADE != 0
    }

    fn cascade(self) -> (cascade: bool)
        ensures
            cascade == self.is_cascade(),
    {
        self.control & TIMER_CASCADE != 0
    }

    /// Cycles per tick.
    pub open spec fn cycles_per_tick(self) -> int {
        let field = self.control & 0b11;
        if field == 0 {
            1
        } else if field == 1 {
            64
        } else if field == 2 {
            256
        } else {
            1024
        }
    }

    fn prescaler(self) -> (cycles: u32)
        ensures
            cycles == self.cycles_per_tick(),
            1 <= cycles <= 1024,
    {
        let field: u16 = self.control & 0b11;
        match field {
            0 => 1,
            1 => 64,
            2 => 256,
            _ => 1024,
        }
    }

    /// Ticks until the counter overflows.
    pub open spec fn to_overflow(self) -> int {
        0x1_0000 - self.counter
    }

    /// Times that `ticks` ticks overflow the counter: once when it runs
    /// out, then once per full pass from the reload value.
    pub open spec fn overflows(self, ticks: int) -> int {
        if ticks < self.to_overflow() {
            0
        } else {
            1 + (ticks - self.to_overflow()) / (0x1_0000 - self.reload)
        }
    }

    /// The counter after `ticks` ticks.
    pub open spec fn counter_after(self, ticks: int) -> u16 {
        if ticks < self.to_overflow() {
            (self.counter + ticks) as u16
        } else {
            (self.reload + (ticks - self.to_overflow()) % (0x1_0000 - self.reload)) as u16
        }
    }

    /// Advances by `ticks`; returns how many times the timer overflowed.
    fn tick(&mut self, ticks: u64) -> (overflows: u64)
        ensures
            *final(self) == (Timer {
                counter: old(self).counter_after(ticks as int),
                ..*old(self)
            }),
            overflows == old(self).overflows(ticks as int),
            overflows <= ticks,
    {
        let to_overflow: u64 = 0x1_0000 - self.counter as u64;
        if ticks < to_overflow {
            self.counter = self.counter + ticks as u16;
            return 0;
        }
        let past: u64 = ticks - to_overflow;
        let pass: u64 = 0x1_0000 - self.reload as u64;
        proof {
            lemma_div_is_ordered_by_denominator(past as int, 1, pass as int);
        }
        self.counter = self.reload + (past % pass) as u16;
        1 + past / pass
    }
}

/// All four timers.
#[derive(Debug, Clone, Copy)]
pub struct Timers {
    /// Timers 0–3.
    pub timers: [Timer; 4],
}

impl View for Timers {
    type V = Seq<Timer>;

    open spec fn view(&self) -> Seq<Timer> {
        self.timers@
    }
}

/// Timers in their power-on state.
pub open spec fn initial_timers() -> Seq<Timer> {
    Seq::new(4, |n: int| Timer::idle())
}

/// Ticks that timer `n` sees in `cycles`: overflows of the previous timer
/// when it cascades, prescaled cycles otherwise.
pub open spec fn ticks_of(timers: Seq<Timer>, cycles: u32, n: int) -> int
    decreases n, 0int,
{
    let timer = timers[n];
    if n > 0 && timer.is_cascade() {
        overflows_of(timers, cycles, n - 1)
    } else {
        (timer.fraction + cycles) / timer.cycles_per_tick()
    }
}

/// Times that timer `n` overflows in `cycles`.
pub open spec fn overflows_of(timers: Seq<Timer>, cycles: u32, n: int) -> int
    decreases n, 1int,
{
    let timer = timers[n];
    if n < 0 || !timer.is_enabled() {
        0
    } else {
        timer.overflows(ticks_of(timers, cycles, n))
    }
}

/// Timer `n` after `cycles`.
pub open spec fn timer_stepped(timers: Seq<Timer>, cycles: u32, n: int) -> Timer {
    let timer = timers[n];
    if !timer.is_enabled() {
        timer
    } else {
        Timer {
            counter: timer.counter_after(ticks_of(timers, cycles, n)),
            fraction: if n > 0 && timer.is_cascade() {
                timer.fraction
            } else {
                ((timer.fraction + cycles) % timer.cycles_per_tick()) as u32
            },
            ..timer
        }
    }
}

/// The four timers after `cycles`.
pub open spec fn timers_stepped(timers: Seq<Timer>, cycles: u32) -> Seq<Timer> {
    Seq::new(4, |n: int| timer_stepped(timers, cycles, n))
}

/// Whether timer `n` raises its interrupt in `cycles`.
pub open spec fn timer_irq(timers: Seq<Timer>, cycles: u32, n: int) -> bool {
    overflows_of(timers, cycles, n) > 0 && timers[n].control & TIMER_IRQ != 0
}

/// Bit `n` when `on`.
pub open spec fn bit_if(on: bool, n: u8) -> u8 {
    if on {
        1u8 << n
    } else {
        0
    }
}

/// The mask of timers that raise their interrupt in `cycles`.
pub open spec fn timer_irqs(timers: Seq<Timer>, cycles: u32) -> u8 {
    bit_if(timer_irq(timers, cycles, 0), 0) | bit_if(timer_irq(timers, cycles, 1), 1) | bit_if(
        timer_irq(timers, cycles, 2),
        2,
    ) | bit_if(timer_irq(timers, cycles, 3), 3)
}

/// The interrupt source of timer `n`.
pub open spec fn timer_interrupt(n: int) -> Interrupt {
    if n == 0 {
        Interrupt::Timer0
    } else if n == 1 {
        Interrupt::Timer1
    } else if n == 2 {
        Interrupt::Timer2
    } else {
        Interrupt::Timer3
    }
}

impl Default for Timers {
    fn default() -> (timers: Self)
        ensures
            timers.wf(),
            timers@ == initial_timers(),
    {
        Self::new()
    }
}

impl Timers {
    /// Each timer has less than one tick pending.
    pub open spec fn wf(&self) -> bool {
        forall|n: int| 0 <= n < 4 ==> (#[trigger] self.timers@[n]).wf()
    }

    /// Timers in their power-on state.
    #[must_use]
    pub fn new() -> (timers: Self)
        ensures
            timers.wf(),
            timers@ == initial_timers(),
    {
        let idle = Timer { reload: 0, counter: 0, control: 0, fraction: 0 };
        let timers = Self { timers: [idle, idle, idle, idle] };
        assert(timers@ =~= initial_timers());
        timers
    }

    /// Current counter of timer `n` (`TMxCNT_L` read).
    #[must_use]
    pub fn counter(&self, n: usize) -> (counter: u16)
        requires
            n < 4,
        ensures
            counter == self@[n as int].counter,
    {
        self.timers[n].counter
    }

    /// Control register of timer `n` (`TMxCNT_H` read).
    #[must_use]
    pub fn control(&self, n: usize) -> (control: u16)
        requires
            n < 4,
        ensures
            control == self@[n as int].control,
    {
        self.timers[n].control
    }

    /// Sets the reload value (`TMxCNT_L` write). Takes effect on the next
    /// enable or overflow.
    pub fn set_reload(&mut self, n: usize, value: u16)
        requires
            old(self).wf(),
            n < 4,
        ensures
            final(self).wf(),
            final(self)@ == reload_written(old(self)@, n as int, value),
    {
        let mut timer = self.timers[n];
        timer.reload = value;
        self.timers[n] = timer;
    }

    /// Writes `TMxCNT_H`. Enabling a stopped timer loads the counter.
    pub fn set_control(&mut self, n: usize, value: u16)
        requires
            old(self).wf(),
            n < 4,
        ensures
            final(self).wf(),
            final(self)@ == control_written(old(self)@, n as int, value),
    {
        let mut timer = self.timers[n];
        let was_enabled = timer.enabled();
        timer.control = value & 0x00C7;
        if !was_enabled && timer.enabled() {
            timer.counter = timer.reload;
            timer.fraction = 0;
        }
        self.timers[n] = timer;
    }

    /// Advances all timers by `cycles`. Returns how often each overflowed.
    pub fn advance(&mut self, cycles: u32) -> (overflows: [u64; 4])
        requires
            old(self).wf(),
        ensures
            final(self).wf(),
            final(self)@ == timers_stepped(old(self)@, cycles),
            forall|n: int|
                0 <= n < 4 ==> #[trigger] overflows@[n] == overflows_of(old(self)@, cycles, n),
    {
        let ghost before = self@;
        let mut counts: [u64; 4] = [0; 4];
        let mut carried: u64 = 0;
        for n in 0..4usize
            invariant
                self.wf(),
                before.len() == 4,
                forall|k: int| 0 <= k < 4 ==> (#[trigger] before[k]).wf(),
                carried <= 0x1_0000_0400,
                n > 0 ==> carried == overflows_of(before, cycles, n - 1),
                forall|k: int|
                    0 <= k < n ==> #[trigger] counts@[k] == overflows_of(before, cycles, k),
                forall|k: int|
                    0 <= k < n ==> #[trigger] self@[k] == timer_stepped(before, cycles, k),
                forall|k: int| n <= k < 4 ==> #[trigger] self@[k] == before[k],
        {
            assert(self@[n as int] == before[n as int]);
            let mut timer = self.timers[n];
            let overflows: u64 = if !timer.enabled() {
                0
            } else if timer.cascade() && n > 0 {
                timer.tick(carried)
            } else {
                let total: u64 = timer.fraction as u64 + cycles as u64;
                let prescaler: u64 = timer.prescaler() as u64;
                proof {
                    lemma_div_is_ordered_by_denominator(total as int, 1, prescaler as int);
                }
                timer.fraction = (total % prescaler) as u32;
                timer.tick(total / prescaler)
            };
            self.timers[n] = timer;
            counts[n] = overflows;
            carried = overflows;
        }
        assert(self@ =~= timers_stepped(before, cycles));
        counts
    }

    /// The mask of timers that raise their interrupt, given how often each
    /// overflowed (bit `n` = timer `n`).
    #[must_use]
    pub fn irq_mask(&self, overflows: [u64; 4]) -> (mask: u8)
        ensures
            mask == bit_if(overflows@[0] > 0 && self@[0].control & TIMER_IRQ != 0, 0) | bit_if(
                overflows@[1] > 0 && self@[1].control & TIMER_IRQ != 0,
                1,
            ) | bit_if(overflows@[2] > 0 && self@[2].control & TIMER_IRQ != 0, 2) | bit_if(
                overflows@[3] > 0 && self@[3].control & TIMER_IRQ != 0,
                3,
            ),
    {
        let b0: u8 = if overflows[0] > 0 && self.timers[0].control & TIMER_IRQ != 0 {
            1u8 << 0u8
        } else {
            0
        };
        let b1: u8 = if overflows[1] > 0 && self.timers[1].control & TIMER_IRQ != 0 {
            1u8 << 1u8
        } else {
            0
        };
        let b2: u8 = if overflows[2] > 0 && self.timers[2].control & TIMER_IRQ != 0 {
            1u8 << 2u8
        } else {
            0
        };
        let b3: u8 = if overflows[3] > 0 && self.timers[3].control & TIMER_IRQ != 0 {
            1u8 << 3u8
        } else {
            0
        };
        b0 | b1 | b2 | b3
    }

    /// Advances all timers by `cycles`. Returns a bit mask (bit `n` = timer
    /// `n`) of timers that overflowed with their IRQ enabled; see
    /// [`Timers::interrupt`].
    pub fn step(&mut self, cycles: u32) -> (irqs: u8)
        requires
            old(self).wf(),
        ensures
            final(self).wf(),
            final(self)@ == timers_stepped(old(self)@, cycles),
            irqs == timer_irqs(old(self)@, cycles),
    {
        let overflows: [u64; 4] = self.advance(cycles);
        proof {
            assert(overflows@[0] == overflows_of(old(self)@, cycles, 0));
            assert(overflows@[1] == overflows_of(old(self)@, cycles, 1));
            assert(overflows@[2] == overflows_of(old(self)@, cycles, 2));
            assert(overflows@[3] == overflows_of(old(self)@, cycles, 3));
        }
        self.irq_mask(overflows)
    }

    /// The interrupt source for timer `n`.
    #[must_use]
    pub fn interrupt(n: usize) -> (source: Interrupt)
        ensures
            source == timer_interrupt(n as int),
    {
        match n {
            0 => Interrupt::Timer0,
            1 => Interrupt::Timer1,
            2 => Interrupt::Timer2,
            _ => Interrupt::Timer3,
        }
    }
}

/// The timers after the reload value of timer `n` is written.
pub open spec fn reload_written(timers: Seq<Timer>, n: int, value: u16) -> Seq<Timer> {
    timers.update(n, Timer { reload: value, ..timers[n] })
}

/// The timers after the control register of timer `n` is written: a rising
/// enable bit loads the counter.
pub open spec fn control_written(timers: Seq<Timer>, n: int, value: u16) -> Seq<Timer> {
    let timer = timers[n];
    let set = Timer { control: value & 0x00C7, ..timer };
    timers.update(
        n,
        if !timer.is_enabled() && set.is_enabled() {
            Timer { counter: timer.reload, fraction: 0, ..set }
        } else {
            set
        },
    )
}

} // verus!
