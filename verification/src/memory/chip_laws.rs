//! What timers, DMA, wait states and interrupts do, said of their registers.

use vstd::prelude::*;

use crate::apu::psg_laws::lemma_half_fields;
use crate::memory::dma::{stepped, timing_of, Channel, DmaView, Timing, Transfer};
use crate::memory::io::dma_written;
use crate::memory::interrupt::{interrupt_mask, Interrupt};
use crate::memory::plain::plain;
use crate::memory::timers::{
    bit_if, control_written, overflows_of, reload_written, ticks_of, timer_irq, timer_stepped,
    Timer,
};
use crate::memory::wait::{Access, WaitStatesView};
use crate::memory::Memory;

verus! {

broadcast use crate::bits::group_mask_bounds;

/// The fields of a timer's control: cycles per tick in bits 1:0 (1, 64, 256
/// or 1024), counting the timer before it in 2, interrupt in 6, running in 7.
#[verifier::rlimit(40)]
pub proof fn law_timer_control(timer: Timer)
    ensures
        timer.cycles_per_tick() == if timer.control % 4 == 0 {
            1int
        } else if timer.control % 4 == 1 {
            64
        } else if timer.control % 4 == 2 {
            256
        } else {
            1024
        },
        timer.is_cascade() == ((timer.control / 4) % 2 == 1),
        timer.is_enabled() == ((timer.control / 128) % 2 == 1),
{
    lemma_half_fields(timer.control);
}

/// A timer that is started counts up from its reload value, and from it again
/// after every overflow: `n` ticks in, it has overflowed once for every whole
/// pass, and stands as far above the reload value as is left over.
pub proof fn law_timer_counts(timer: Timer, n: int)
    requires
        timer.counter == timer.reload,
        n >= 0,
    ensures
        ({
            let pass = 0x1_0000 - timer.reload;
            &&& timer.overflows(n) == n / pass
            &&& timer.counter_after(n) == timer.reload + n % pass
        }),
{
    let pass = 0x1_0000 - timer.reload;
    vstd::arithmetic::div_mod::lemma_fundamental_div_mod(n, pass);
    vstd::arithmetic::div_mod::lemma_mod_bound(n, pass);
    if n < pass {
        vstd::arithmetic::div_mod::lemma_fundamental_div_mod_converse(n, pass, 0, n);
    } else {
        let m = n - pass;
        vstd::arithmetic::div_mod::lemma_fundamental_div_mod(m, pass);
        vstd::arithmetic::div_mod::lemma_mod_bound(m, pass);
        assert(pass * (m / pass + 1) == pass * (m / pass) + pass) by (nonlinear_arith);
        vstd::arithmetic::div_mod::lemma_fundamental_div_mod_converse(
            n,
            pass,
            m / pass + 1,
            m % pass,
        );
    }
}

/// A running timer ticks once for every so many cycles, or, where it counts
/// the timer before it, once for every overflow of that; a stopped one stays.
/// It raises its interrupt where it overflows and is to.
#[verifier::rlimit(40)]
pub proof fn law_timer_ticks(timers: Seq<Timer>, cycles: u32, n: int)
    requires
        timers.len() == 4,
        0 <= n < 4,
    ensures
        ({
            let timer = timers[n];
            let running = (timer.control / 128) % 2 == 1;
            let counts_other = n > 0 && (timer.control / 4) % 2 == 1;
            let ticks = if counts_other {
                overflows_of(timers, cycles, n - 1)
            } else {
                (timer.fraction + cycles) / timer.cycles_per_tick()
            };
            &&& !running ==> timer_stepped(timers, cycles, n) == timer
            &&& !running ==> overflows_of(timers, cycles, n) == 0
            &&& running ==> timer_stepped(timers, cycles, n).counter == timer.counter_after(ticks)
            &&& running ==> overflows_of(timers, cycles, n) == timer.overflows(ticks)
            &&& timer_irq(timers, cycles, n) == (overflows_of(timers, cycles, n) > 0 && (
            timer.control / 64) % 2 == 1)
        }),
{
    lemma_half_fields(timers[n].control);
}

/// Writing the reload value leaves the count alone; starting a timer loads
/// it; writing the control of one that runs does not.
#[verifier::rlimit(40)]
pub proof fn law_timer_registers(timers: Seq<Timer>, n: int, value: u16)
    requires
        timers.len() == 4,
        0 <= n < 4,
    ensures
        reload_written(timers, n, value)[n].reload == value,
        reload_written(timers, n, value)[n].counter == timers[n].counter,
        ({
            let after = control_written(timers, n, value)[n];
            let was = (timers[n].control / 128) % 2 == 1;
            let is = (value / 128) % 2 == 1;
            &&& after.is_enabled() == is
            &&& after.counter == if is && !was {
                timers[n].reload
            } else {
                timers[n].counter
            }
            &&& after.reload == timers[n].reload
        }),
{
    lemma_half_fields(timers[n].control);
    lemma_half_fields(value);
    let kept = value & 0x00C7;
    lemma_half_fields(kept);
    lemma_enable_kept(value);
}

#[verifier::rlimit(40)]
proof fn lemma_enable_kept(value: u16)
    ensures
        (value & 0x00C7) & (1u16 << 7) == value & (1u16 << 7),
{
    crate::bits::half_facts(value, 0);
}

/// The fields of a channel's control: destination steps in bits 6:5, source
/// steps in 8:7, repeating in 9, words in 10, when it starts in 13:12,
/// interrupt in 14, armed in 15.
#[verifier::rlimit(40)]
pub proof fn law_dma_control(ch: Channel)
    ensures
        ({
            let c = ch.control as int;
            let start = (c / 4096) % 4;
            let t = ch.transfer();
            &&& ch.is_enabled() == (c / 32768 == 1)
            &&& timing_of(ch.control) == if start == 0 {
                Timing::Immediate
            } else if start == 1 {
                Timing::VBlank
            } else if start == 2 {
                Timing::HBlank
            } else {
                Timing::Special
            }
            &&& t.word == (start == 3 || (c / 1024) % 2 == 1)
            &&& t.source_control == (c / 128) % 4
            &&& t.dest_control == if start == 3 {
                2
            } else {
                (c / 32) % 4
            }
            &&& ch.repeats() == (start == 3 || (start != 0 && (c / 512) % 2 == 1))
        }),
{
    lemma_half_fields(ch.control);
}

/// A transfer moves as many units as its count says, a full count for zero,
/// and four words to a sound FIFO.
#[verifier::rlimit(40)]
pub proof fn law_dma_units(ch: Channel, n: int)
    ensures
        ch.transfer_units(n) == if (ch.control / 4096) % 4 == 3 {
            4
        } else if ch.count != 0 {
            ch.count as int
        } else if n == 3 {
            0x1_0000
        } else {
            0x4000
        },
{
    lemma_half_fields(ch.control);
}

/// Addresses go up, down or nowhere by the size of a unit.
pub proof fn law_dma_steps(address: u32, control: u16, unit: u32)
    requires
        unit == 2 || unit == 4,
        control < 4,
    ensures
        stepped(address, control, unit) == if control == 1 {
            (address - unit) % 0x1_0000_0000
        } else if control == 2 {
            address as int
        } else {
            (address + unit) % 0x1_0000_0000
        },
{
}

/// The address of unit `i` where addresses go up.
proof fn lemma_rising(t: Transfer, i: int)
    requires
        t.word,
        0 <= i,
        t.source_control == 0 || t.source_control == 3,
        t.dest_control == 0 || t.dest_control == 3,
        t.source + 4 * i <= u32::MAX,
        t.dest + 4 * i <= u32::MAX,
    ensures
        t.source_at(i) == t.source + 4 * i,
        t.dest_at(i) == t.dest + 4 * i,
    decreases i,
{
    if i > 0 {
        lemma_rising(t, i - 1);
    }
}

/// A word transfer upwards between two places of plain memory that do not
/// overlap copies every word, and changes no other.
pub proof fn law_dma_copies<M: Memory>(
    ok: spec_fn(M::State) -> bool,
    area: spec_fn(u32) -> bool,
    t: Transfer,
    s: M::State,
    count: int,
    at: u32,
)
    requires
        plain::<M>(ok, area),
        ok(s),
        t.word,
        t.source_control == 0 || t.source_control == 3,
        t.dest_control == 0 || t.dest_control == 3,
        0 <= count,
        t.source + 4 * count <= u32::MAX,
        t.dest + 4 * count <= u32::MAX,
        t.source + 4 * count <= t.dest || t.dest + 4 * count <= t.source,
        forall|i: int| 0 <= i < count ==> area(#[trigger] (t.source + 4 * i) as u32),
        forall|i: int| 0 <= i < count ==> area(#[trigger] (t.dest + 4 * i) as u32),
        area(at),
    ensures
        ({
            let after = t.run::<M>(s, count);
            &&& ok(after)
            &&& forall|i: int|
                0 <= i < count && at == t.dest + 4 * i ==> M::value32(after, at) == M::value32(
                    s,
                    #[trigger] ((t.source + 4 * i) as u32),
                )
            &&& (forall|i: int| 0 <= i < count ==> at != #[trigger] (t.dest + 4 * i))
                ==> M::value32(after, at) == M::value32(s, at)
        }),
    decreases count,
{
    if count > 0 {
        let last = count - 1;
        let source = (t.source + 4 * last) as u32;
        let dest = (t.dest + 4 * last) as u32;
        assert(area(source) && area(dest)) by {
            assert(area((t.source + 4 * last) as u32));
            assert(area((t.dest + 4 * last) as u32));
        }
        lemma_rising(t, last);
        law_dma_copies::<M>(ok, area, t, s, last, at);
        law_dma_copies::<M>(ok, area, t, s, last, source);
        let before = t.run::<M>(s, last);
        assert forall|i: int| 0 <= i < last implies source != #[trigger] (t.dest + 4 * i) by {}
        assert(M::value32(before, source) == M::value32(s, source));
        let read = M::loaded32(before, source);
        let after = t.run::<M>(s, count);
        assert(after == M::stored32(read, dest, M::value32(before, source)));
        if at == dest {
            assert(M::value32(after, at) == M::value32(s, source));
        } else {
            assert(M::value32(after, at) == M::value32(read, at));
            assert(M::value32(read, at) == M::value32(before, at));
        }
        assert forall|i: int| 0 <= i < count && at == t.dest + 4 * i implies M::value32(after, at)
            == M::value32(s, #[trigger] ((t.source + 4 * i) as u32)) by {
            if i == last {
                assert(at == dest);
            }
        }
        if forall|i: int| 0 <= i < count ==> at != #[trigger] (t.dest + 4 * i) {
            assert(at != t.dest + 4 * last);
        }
    }
}

/// Arming a channel takes its addresses over, and starts it at once where it
/// is to start immediately. A channel waits for its own event only.
#[verifier::rlimit(40)]
pub proof fn law_dma_arming(dma: DmaView, n: int, value: u16)
    requires
        dma.channels.len() == 4,
        1 <= n < 3,
        !dma.channels[n].is_enabled(),
        value >= 0x8000,
        dma.channels[n].source < 0x0800_0000,
        dma.channels[n].dest < 0x0800_0000,
    ensures
        ({
            let after = dma.write_control(n, value);
            &&& after.channels[n].latched_source == dma.channels[n].source
            &&& after.channels[n].latched_dest == dma.channels[n].dest
            &&& after.channels[n].is_enabled()
            &&& (value / 4096) % 4 != 0 ==> after.pending == dma.pending
            &&& (value / 4096) % 4 == 0 ==> after.pending == dma.pending | (1u8 << (n as u8))
        }),
{
    let kept = value & 0xFFE0;
    lemma_half_fields(value);
    lemma_half_fields(kept);
    crate::bits::half_facts(value, 0);
    crate::bits::word_facts(dma.channels[n].source, 0, 0, 0);
    crate::bits::word_facts(dma.channels[n].dest, 0, 0, 0);
}

/// Cycles of a first access, by a field of the wait control.
pub open spec fn first_cycles(field: int) -> int {
    if field == 0 {
        5
    } else if field == 1 {
        4
    } else if field == 2 {
        3
    } else {
        9
    }
}

/// Whether a page costs `n` cycles for a first halfword and `s` for the ones
/// that follow, and a word as much as its two halfwords.
pub open spec fn costs(access: Access, n: int, s: int) -> bool {
    &&& access.cost(2, false) == n
    &&& access.cost(1, false) == n
    &&& access.cost(2, true) == s
    &&& access.cost(1, true) == s
    &&& access.cost(4, false) == n + s
    &&& access.cost(4, true) == s + s
}

/// The wait control register: save memory in bits 1:0; each copy of the
/// cartridge with three bits for its first access and the ones that follow;
/// the prefetch buffer in 14. The rest has fixed costs.
#[verifier::rlimit(40)]
pub proof fn law_wait_control(value: u16)
    ensures
        ({
            let v = value as int;
            let wait = WaitStatesView::decoded(value);
            let save = first_cycles(v % 4);
            let later = |bit: int, slow: int|
                if bit % 2 == 1 {
                    2
                } else {
                    slow
                };
            &&& wait.prefetch == ((v / 16384) % 2 == 1)
            &&& costs(wait.pages[2], 3, 3)
            &&& costs(wait.pages[8], first_cycles((v / 4) % 4), later(v / 16, 3))
            &&& costs(wait.pages[9], first_cycles((v / 4) % 4), later(v / 16, 3))
            &&& costs(wait.pages[10], first_cycles((v / 32) % 4), later(v / 128, 5))
            &&& costs(wait.pages[11], first_cycles((v / 32) % 4), later(v / 128, 5))
            &&& costs(wait.pages[12], first_cycles((v / 256) % 4), later(v / 1024, 9))
            &&& costs(wait.pages[13], first_cycles((v / 256) % 4), later(v / 1024, 9))
            &&& forall|width: u32, sequential: bool| #[trigger]
                wait.pages[14].cost(width, sequential) == save
            &&& forall|width: u32, sequential: bool| #[trigger]
                wait.pages[3].cost(width, sequential) == 1
            &&& forall|width: u32, sequential: bool| #[trigger]
                wait.pages[6].cost(width, sequential) == if width == 4 {
                    2int
                } else {
                    1
                }
        }),
{
    lemma_half_fields(value);
}

/// The bits of the interrupt sources, as numbers: VBlank, HBlank and the line
/// counter; the four timers; the serial port; the four DMA channels; keys;
/// cartridge.
pub proof fn law_interrupt_bits()
    ensures
        interrupt_mask(Interrupt::VBlank) == 1,
        interrupt_mask(Interrupt::HBlank) == 2,
        interrupt_mask(Interrupt::VCount) == 4,
        interrupt_mask(Interrupt::Timer0) == 8,
        interrupt_mask(Interrupt::Timer1) == 16,
        interrupt_mask(Interrupt::Timer2) == 32,
        interrupt_mask(Interrupt::Timer3) == 64,
        interrupt_mask(Interrupt::Serial) == 128,
        interrupt_mask(Interrupt::Dma0) == 256,
        interrupt_mask(Interrupt::Dma1) == 512,
        interrupt_mask(Interrupt::Dma2) == 1024,
        interrupt_mask(Interrupt::Dma3) == 2048,
        interrupt_mask(Interrupt::Keypad) == 4096,
        interrupt_mask(Interrupt::GamePak) == 8192,
{
    vstd::arithmetic::power2::lemma2_to64();
    vstd::bits::lemma_u16_shl_is_mul(1, 0);
    vstd::bits::lemma_u16_shl_is_mul(1, 1);
    vstd::bits::lemma_u16_shl_is_mul(1, 2);
    vstd::bits::lemma_u16_shl_is_mul(1, 3);
    vstd::bits::lemma_u16_shl_is_mul(1, 4);
    vstd::bits::lemma_u16_shl_is_mul(1, 5);
    vstd::bits::lemma_u16_shl_is_mul(1, 6);
    vstd::bits::lemma_u16_shl_is_mul(1, 7);
    vstd::bits::lemma_u16_shl_is_mul(1, 8);
    vstd::bits::lemma_u16_shl_is_mul(1, 9);
    vstd::bits::lemma_u16_shl_is_mul(1, 10);
    vstd::bits::lemma_u16_shl_is_mul(1, 11);
    vstd::bits::lemma_u16_shl_is_mul(1, 12);
    vstd::bits::lemma_u16_shl_is_mul(1, 13);
}

/// A channel after its transfer: it goes on from where it stopped, but for a
/// destination that is to be loaded anew where it repeats; and it stays armed
/// only where it repeats.
#[verifier::rlimit(40)]
pub proof fn law_dma_after(ch: Channel, n: int)
    requires
        ch.is_enabled(),
    ensures
        ({
            let t = ch.transfer();
            let units = ch.transfer_units(n) as int;
            let after = ch.transferred(n);
            let start = (ch.control as int / 4096) % 4;
            let again = start == 3 || (start != 0 && (ch.control / 512) % 2 == 1);
            let anew = again && start != 3 && (ch.control / 32) % 4 == 3;
            &&& after.latched_source == t.source_at(units)
            &&& after.latched_dest == if anew {
                ch.dest
            } else {
                t.dest_at(units)
            }
            &&& after.is_enabled() == again
            &&& after.source == ch.source && after.dest == ch.dest && after.count == ch.count
        }),
{
    lemma_half_fields(ch.control);
    crate::bits::small_facts(0, ch.control, 0, 0);
}

/// The two halves of an address register, and the count.
#[verifier::rlimit(40)]
pub proof fn law_dma_registers(dma: DmaView, n: int, low: u16, high: u16)
    requires
        dma.channels.len() == 4,
        0 <= n < 4,
    ensures
        ({
            let source = dma_written(dma_written(dma, n, 0, low), n, 2, high).channels[n];
            let dest = dma_written(dma_written(dma, n, 4, low), n, 6, high).channels[n];
            &&& source.source == low + 0x1_0000 * high
            &&& dest.dest == low + 0x1_0000 * high
            &&& dma_written(dma, n, 8, low).channels[n].count == low
        }),
{
    let ch = dma.channels[n];
    crate::bits::word_facts(low as u32, high as u32, ch.source, 0);
    crate::bits::word_facts(low as u32, high as u32, ch.dest, 0);
}

/// One more bit of a mask.
proof fn lemma_bit_added(mask: u8, on: bool, n: u8, m: u8)
    requires
        n < 4,
        m < 4,
    ensures
        ((mask | bit_if(on, n)) >> m) & 1 == if on && n == m {
            1
        } else {
            (mask >> m) & 1
        },
{
    crate::bits::small_facts(mask, 0, 0, 0);
    assert(((mask | (1u8 << n)) >> m) & 1 == if n == m {
        1
    } else {
        (mask >> m) & 1
    });
}

/// At VBlank and HBlank the channels that are armed for it are scheduled, and
/// no other.
pub proof fn law_dma_triggers(dma: DmaView, hblank: bool, m: u8)
    requires
        dma.channels.len() == 4,
        m < 4,
    ensures
        ({
            let after = dma.trigger(
                if hblank {
                    Timing::HBlank
                } else {
                    Timing::VBlank
                },
            );
            let c = dma.channels[m as int].control as int;
            let start: int = if hblank {
                2
            } else {
                1
            };
            &&& after.channels == dma.channels
            &&& (after.pending >> m) & 1 == if c >= 0x8000 && (c / 4096) % 4 == start {
                1
            } else {
                (dma.pending >> m) & 1
            }
        }),
{
    let timing = if hblank {
        Timing::HBlank
    } else {
        Timing::VBlank
    };
    law_dma_control(dma.channels[m as int]);
    let p0 = dma.pending;
    let p1 = p0 | bit_if(dma.waits_for(0, timing), 0);
    let p2 = p1 | bit_if(dma.waits_for(1, timing), 1);
    let p3 = p2 | bit_if(dma.waits_for(2, timing), 2);
    lemma_bit_added(p0, dma.waits_for(0, timing), 0, m);
    lemma_bit_added(p1, dma.waits_for(1, timing), 1, m);
    lemma_bit_added(p2, dma.waits_for(2, timing), 2, m);
    lemma_bit_added(p3, dma.waits_for(3, timing), 3, m);
}

/// When a sound FIFO runs low, channel 1 or 2 is scheduled if it is armed for
/// that and writes to the FIFO: the first at 0x040000A0, the other at
/// 0x040000A4.
pub proof fn law_fifo_refills(dma: DmaView, fifo: usize, m: u8)
    requires
        dma.channels.len() == 4,
        fifo < 2,
        m < 4,
    ensures
        ({
            let after = dma.trigger_fifo(fifo);
            let channel = dma.channels[m as int];
            let c = channel.control as int;
            &&& after.channels == dma.channels
            &&& (after.pending >> m) & 1 == if (m == 1 || m == 2) && c >= 0x8000 && (c / 4096) % 4
                == 3 && channel.latched_dest == 0x0400_00A0 + 4 * fifo {
                1
            } else {
                (dma.pending >> m) & 1
            }
        }),
{
    law_dma_control(dma.channels[m as int]);
    let target = crate::memory::dma::fifo_address(fifo);
    let p0 = dma.pending;
    let p1 = p0 | bit_if(dma.feeds(1, target), 1);
    lemma_bit_added(p0, dma.feeds(1, target), 1, m);
    lemma_bit_added(p1, dma.feeds(2, target), 2, m);
}

} // verus!
