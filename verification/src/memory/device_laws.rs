//! What holds of the devices on the bus.

use vstd::arithmetic::div_mod::{
    lemma_fundamental_div_mod, lemma_fundamental_div_mod_converse, lemma_mod_bound,
};
use vstd::prelude::*;

use crate::bytes::{half_at, law_half_round_trip};
use crate::memory::backup::{lemma_low_bits, BackupView, FlashView};
use crate::memory::dma::{DmaView, DMA_ENABLE};
use crate::memory::eeprom::{big_endian_byte, EepromView, State};
use crate::memory::gpio::{
    latched, parameters_of, DateTime, Phase, RtcView, COMMAND_DATE_TIME, COMMAND_TIME,
};
use crate::memory::interrupt::{interrupt_mask, Interrupt};
use crate::memory::io::{lemma_register_offsets, IoView};
use crate::memory::reg;
use crate::memory::timers::{overflows_of, ticks_of, timer_stepped, timers_stepped, Timer};
use crate::memory::IO_SIZE;

verus! {

broadcast use crate::bits::group_mask_bounds;

/// Writing ones to `IF` clears those bits and no others.
pub proof fn law_if_is_write_to_clear(io: IoView, value: u16)
    requires
        io.raw.len() == IO_SIZE,
    ensures
        io.write16(reg::IF, value).flags() == io.flags() & !value,
{
    lemma_register_offsets();
    reveal(IoView::register);
    reveal(IoView::register_written);
    law_half_round_trip(io.raw, 0x202, half_at(io.raw, 0x202) & !value);
}

/// A write to `DISPSTAT` leaves the three status flags to the PPU.
pub proof fn law_dispstat_flags_survive(io: IoView, value: u16)
    requires
        io.raw.len() == IO_SIZE,
    ensures
        io.write16(reg::DISPSTAT, value).read16(reg::DISPSTAT) == (value & !0x7u16) | (io.read16(
            reg::DISPSTAT,
        ) & 0x7),
{
    lemma_register_offsets();
    reveal(IoView::register);
    reveal(IoView::register_written);
    law_half_round_trip(
        io.raw,
        0x004,
        (value & !0x7u16) | (half_at(io.raw, 0x004) & 0x7),
    );
}

/// `KEYINPUT` and `VCOUNT` take no writes.
pub proof fn law_read_only_registers(io: IoView, value: u16)
    ensures
        io.write16(reg::KEYINPUT, value) == io,
        io.write16(reg::VCOUNT, value) == io,
{
    lemma_register_offsets();
    reveal(IoView::register_written);
}

/// Raising an interrupt sets its bit in `IF` and changes nothing but `IF`.
pub proof fn law_interrupt_request(io: IoView, source: Interrupt)
    requires
        io.raw.len() == IO_SIZE,
    ensures
        io.request_interrupt(source).flags() == io.flags() | interrupt_mask(source),
        io.request_interrupt(source) == (IoView { raw: io.request_interrupt(source).raw, ..io }),
        forall|i: int|
            0 <= i < IO_SIZE && i != reg::IF && i != reg::IF + 1 ==> io.request_interrupt(
                source,
            ).raw[i] == io.raw[i],
{
    lemma_register_offsets();
    reveal(IoView::register);
    reveal(IoView::request_interrupt);
    law_half_round_trip(io.raw, 0x202, io.flags() | interrupt_mask(source));
}

/// Masking with more bits only clears.
proof fn lemma_and_clears(a: u8, b: u8)
    by (bit_vector)
    ensures
        (a & b) & !a == 0,
        0xFFu8 & b == b,
        a & !a == 0,
        0xFFu8 & !a == !a,
{
}

/// The flash chip after the two unlock writes and a command.
pub open spec fn unlocked(flash: FlashView, command: u8) -> FlashView {
    flash.write(0x5555, 0xAA).write(0x2AAA, 0x55).write(0x5555, command)
}

/// The addresses of the unlock sequence lie in a bank.
proof fn lemma_unlock_addresses()
    ensures
        0x5555u32 & 0xFFFF == 0x5555,
        0x2AAAu32 & 0xFFFF == 0x2AAA,
        0u32 & 0xFFFF == 0,
{
    crate::bits::constant_facts();
}

/// Programming a flash byte clears bits of that byte and touches nothing
/// else.
pub proof fn law_flash_program(flash: FlashView, address: u32, value: u8)
    requires
        flash.wf(),
        flash.state is Idle,
    ensures
        ({
            let programmed = unlocked(flash, 0xA0).write(address, value);
            let at = flash.index(address);
            &&& programmed.data == flash.data.update(at, flash.data[at] & value)
            &&& programmed == (FlashView { data: programmed.data, ..flash })
            &&& programmed.data[at] & !flash.data[at] == 0
        }),
{
    lemma_unlock_addresses();
    let at = flash.index(address);
    lemma_mod_bound(flash.bank * 0x1_0000 + (address & 0xFFFF), flash.data.len() as int);
    lemma_and_clears(flash.data[at], value);
    lemma_low_bits(address);
}

/// After a chip erase every byte can be programmed to any value, and reads
/// back as it.
pub proof fn law_flash_erase_then_program(flash: FlashView, address: u32, value: u8)
    requires
        flash.wf(),
        flash.state is Idle,
        !flash.id_mode,
    ensures
        ({
            let erased = unlocked(unlocked(flash, 0x80), 0x10);
            let programmed = unlocked(erased, 0xA0).write(address, value);
            &&& forall|i: int| 0 <= i < flash.data.len() ==> erased.data[i] == 0xFF
            &&& programmed.value(address) == value
        }),
{
    lemma_unlock_addresses();
    let erased = unlocked(unlocked(flash, 0x80), 0x10);
    lemma_mod_bound(flash.bank * 0x1_0000 + (address & 0xFFFF), flash.data.len() as int);
    assert(erased.data.len() == flash.data.len());
    law_flash_program(erased, address, value);
    lemma_and_clears(0xFF, value);
}

/// Selecting another bank keeps what every bank holds.
pub proof fn law_flash_bank_select(flash: FlashView, bank: u8)
    requires
        flash.wf(),
        flash.state is Idle,
    ensures
        unlocked(flash, 0xB0).write(0, bank).data == flash.data,
        flash.data.len() >= 0x2_0000 ==> unlocked(flash, 0xB0).write(0, bank).bank == bank & 1,
{
    lemma_unlock_addresses();
    assert(flash.data.len() >= 0x2_0000 ==> flash.data.len() as int / 0x1_0000 >= 2);
}

/// Whether `b` is a device of the same kind and size as `a`, that does not
/// know its size otherwise.
pub open spec fn same_kind(a: BackupView, b: BackupView) -> bool {
    match (a, b) {
        (BackupView::Sram(x), BackupView::Sram(y)) => x.len() == y.len(),
        (BackupView::Flash(x), BackupView::Flash(y)) => x.data.len() == y.data.len(),
        (BackupView::Eeprom(x), BackupView::Eeprom(y)) => y.address_bits is None
            || y.address_bits == x.address_bits,
        _ => false,
    }
}

/// A save file restores what the device that it was taken from held.
pub proof fn law_save_data_round_trip(a: BackupView, b: BackupView)
    requires
        a.wf(),
        b.wf(),
        same_kind(a, b),
    ensures
        b.load(a.contents()).contents() == a.contents(),
{
    assert(b.load(a.contents()).contents() =~= a.contents());
}

/// A byte written to SRAM is read back, at every mirror of its address.
pub proof fn law_sram_round_trip(data: Seq<u8>, a: u32, b: u32, value: u8)
    requires
        data.len() > 0,
        a as int % data.len() as int == b as int % data.len() as int,
    ensures
        BackupView::Sram(data).write(a, value).value(b) == value,
{
    lemma_mod_bound(a as int, data.len() as int);
}

/// A transfer that ran leaves the channel armed exactly if it repeats, and
/// the other channels alone.
pub proof fn law_dma_disarms_when_done(dma: DmaView, n: int)
    requires
        dma.channels.len() == 4,
        0 <= n < 4,
        dma.channels[n].runs(n),
    ensures
        dma.ran(n).channels[n].is_enabled() == dma.channels[n].repeats(),
        forall|k: int| 0 <= k < 4 && k != n ==> dma.ran(n).channels[k] == dma.channels[k],
        dma.ran(n).pending == dma.pending,
{
    let control = dma.channels[n].control;
    crate::bits::small_facts(0, control, 0, 0);
}

/// Two stretches of `x` and `y` make quotient and remainder of their sum.
proof fn lemma_div_mod_add(x: int, y: int, d: int)
    requires
        x >= 0,
        y >= 0,
        d > 0,
    ensures
        (x + y) / d == x / d + (x % d + y) / d,
        (x + y) % d == (x % d + y) % d,
{
    let r = x % d + y;
    lemma_fundamental_div_mod(x, d);
    lemma_fundamental_div_mod(r, d);
    lemma_mod_bound(r, d);
    assert(d * (x / d + r / d) == d * (x / d) + d * (r / d)) by (nonlinear_arith);
    assert(x + y == (x / d + r / d) * d + r % d) by (nonlinear_arith)
        requires
            x == d * (x / d) + x % d,
            r == d * (r / d) + r % d,
            r == x % d + y,
    ;
    lemma_fundamental_div_mod_converse(x + y, d, x / d + r / d, r % d);
}

/// A counter that counts `x` ticks and then `y` ends where it would after
/// both at once, and overflows as often.
proof fn lemma_ticks_add(t: Timer, x: int, y: int)
    requires
        x >= 0,
        y >= 0,
    ensures
        ({
            let between = Timer { counter: t.counter_after(x), ..t };
            &&& between.counter_after(y) == t.counter_after(x + y)
            &&& t.overflows(x) + between.overflows(y) == t.overflows(x + y)
            &&& t.overflows(x) >= 0
            &&& between.overflows(y) >= 0
        }),
{
    let pass = 0x1_0000 - t.reload;
    let p = x - t.to_overflow();
    let between = Timer { counter: t.counter_after(x), ..t };
    if x < t.to_overflow() {
        let q = y - between.to_overflow();
        if q >= 0 {
            lemma_fundamental_div_mod(q, pass);
            lemma_mod_bound(q, pass);
            assert(q / pass >= 0) by (nonlinear_arith)
                requires
                    q >= 0,
                    pass > 0,
            ;
        }
    } else {
        lemma_mod_bound(p, pass);
        lemma_fundamental_div_mod(p, pass);
        assert(p / pass >= 0) by (nonlinear_arith)
            requires
                p >= 0,
                pass > 0,
        ;
        lemma_div_mod_add(p, y, pass);
        let r = p % pass + y;
        let q = y - between.to_overflow();
        assert(q == r - pass);
        if q < 0 {
            lemma_fundamental_div_mod_converse(r, pass, 0, r);
        } else {
            lemma_fundamental_div_mod(q, pass);
            lemma_mod_bound(q, pass);
            assert(q / pass >= 0) by (nonlinear_arith)
                requires
                    q >= 0,
                    pass > 0,
            ;
            assert(r == (q / pass + 1) * pass + q % pass) by (nonlinear_arith)
                requires
                    r == q + pass,
                    q == pass * (q / pass) + q % pass,
            ;
            lemma_fundamental_div_mod_converse(r, pass, q / pass + 1, q % pass);
        }
    }
}

/// One timer over two stretches of time, given what it counts.
proof fn lemma_timer_steps_add(timers: Seq<Timer>, a: u32, b: u32, n: int)
    requires
        timers.len() == 4,
        0 <= n < 4,
        a + b <= u32::MAX,
    ensures
        ({
            let between = timers_stepped(timers, a);
            let both = (a + b) as u32;
            &&& timer_stepped(between, b, n) == timer_stepped(timers, both, n)
            &&& overflows_of(timers, a, n) + overflows_of(between, b, n) == overflows_of(
                timers,
                both,
                n,
            )
            &&& overflows_of(timers, a, n) >= 0
            &&& overflows_of(between, b, n) >= 0
        }),
    decreases n,
{
    let between = timers_stepped(timers, a);
    let both = (a + b) as u32;
    let t = timers[n];
    if t.is_enabled() {
        if n > 0 {
            lemma_timer_steps_add(timers, a, b, n - 1);
        }
        let d = t.cycles_per_tick();
        lemma_div_mod_add(t.fraction + a, b as int, d);
        lemma_mod_bound(t.fraction + a, d);
        lemma_mod_bound(t.fraction + a + b, d);
        assert((t.fraction + a) / d >= 0 && ((t.fraction + a) % d + b) / d >= 0)
            by (nonlinear_arith)
            requires
                t.fraction + a >= 0,
                (t.fraction + a) % d + b >= 0,
                d > 0,
        ;
        let x = ticks_of(timers, a, n);
        let y = ticks_of(between, b, n);
        assert(between[n] == timer_stepped(timers, a, n));
        assert(ticks_of(timers, both, n) == x + y);
        lemma_ticks_add(t, x, y);
        let counted = Timer { counter: t.counter_after(x), ..t };
        assert(between[n].counter_after(y) == counted.counter_after(y));
        assert(between[n].overflows(y) == counted.overflows(y));
    }
}

/// Timers do not care how time is cut into steps: stepping by `a` and then by
/// `b` is stepping by both at once, cascades and all.
pub proof fn law_timer_steps_add(timers: Seq<Timer>, a: u32, b: u32)
    requires
        timers.len() == 4,
        a + b <= u32::MAX,
    ensures
        timers_stepped(timers_stepped(timers, a), b) == timers_stepped(timers, (a + b) as u32),
        forall|n: int|
            0 <= n < 4 ==> #[trigger] overflows_of(timers, (a + b) as u32, n) == overflows_of(
                timers,
                a,
                n,
            ) + overflows_of(timers_stepped(timers, a), b, n),
{
    assert forall|n: int| 0 <= n < 4 implies #[trigger] overflows_of(timers, (a + b) as u32, n)
        == overflows_of(timers, a, n) + overflows_of(timers_stepped(timers, a), b, n) by {
        lemma_timer_steps_add(timers, a, b, n);
    }
    lemma_timer_steps_add(timers, a, b, 0);
    lemma_timer_steps_add(timers, a, b, 1);
    lemma_timer_steps_add(timers, a, b, 2);
    lemma_timer_steps_add(timers, a, b, 3);
    assert(timers_stepped(timers_stepped(timers, a), b) =~= timers_stepped(
        timers,
        (a + b) as u32,
    ));
}

/// The chip after a sequence of request bits.
pub open spec fn sent(eeprom: EepromView, bits: Seq<u16>) -> EepromView
    decreases bits.len(),
{
    if bits.len() == 0 {
        eeprom
    } else {
        sent(eeprom, bits.drop_last()).write(bits.last())
    }
}

/// The low `width` bits of `value`, highest first.
pub open spec fn bits_of(value: u64, width: int) -> Seq<u16> {
    Seq::new(width as nat, |i: int| ((value >> ((width - 1 - i) as u64)) & 1) as u16)
}

/// The bits that ask to write `data` to block `address`, ended by `stop`.
pub open spec fn write_request(width: int, address: u16, data: u64, stop: u16) -> Seq<u16> {
    seq![1u16, 0] + bits_of(address as u64, width) + bits_of(data, 64) + seq![stop]
}

/// The bits that ask to read block `address`, ended by `stop`.
pub open spec fn read_request(width: int, address: u16, stop: u16) -> Seq<u16> {
    seq![1u16, 1] + bits_of(address as u64, width) + seq![stop]
}

/// The chip after `n` reply bits have been read.
pub open spec fn replied(eeprom: EepromView, n: nat) -> EepromView
    decreases n,
{
    if n == 0 {
        eeprom
    } else {
        replied(eeprom, (n - 1) as nat).read()
    }
}

/// Bits that are sent one after the other.
proof fn lemma_sent_parts(eeprom: EepromView, a: Seq<u16>, b: Seq<u16>)
    ensures
        sent(eeprom, a + b) == sent(sent(eeprom, a), b),
    decreases b.len(),
{
    if b.len() == 0 {
        assert(a + b =~= a);
    } else {
        assert((a + b).drop_last() =~= a + b.drop_last());
        lemma_sent_parts(eeprom, a, b.drop_last());
    }
}

/// Collecting bits, highest first, builds the value up from its high end.
proof fn lemma_collected_bit(address: u16, data: u64, s: u16, d: u64)
    by (bit_vector)
    requires
        s < 15,
        d < 63,
    ensures
        ((address >> ((s + 1) as u16)) << 1) | ((((address as u64) >> (s as u64)) & 1) as u16) & 1
            == address >> s,
        ((data >> ((d + 1) as u64)) << 1) | ((((data >> d) & 1) as u16) & 1) as u64 == data >> d,
        ((((data >> 63) & 1) as u16) & 1) as u64 == data >> 63,
        address >> 0u16 == address,
        data >> 0u64 == data,
{
}

/// The command bits of a request.
proof fn lemma_command_sent(eeprom: EepromView, read: bool)
    requires
        eeprom.state == State::idle(),
    ensures
        sent(
            eeprom,
            seq![
                1u16,
                if read {
                    1
                } else {
                    0
                },
            ],
        ) == eeprom.in_state(State::Address { read, address: 0, count: 0 }),
{
    let second: u16 = if read {
        1
    } else {
        0
    };
    let command = seq![1u16, second];
    assert(command.drop_last() =~= seq![1u16]);
    assert(seq![1u16].drop_last() =~= Seq::<u16>::empty());
    reveal_with_fuel(sent, 3);
    crate::bits::constant_facts();
}

/// The first `k` address bits of a request.
proof fn lemma_address_sent(eeprom: EepromView, read: bool, address: u16, width: u8, k: int)
    requires
        eeprom.expected_bits() == width,
        width == 6 || width == 14,
        address >> (width as u16) == 0,
        0 <= k < width,
    ensures
        sent(
            eeprom.in_state(State::Address { read, address: 0, count: 0 }),
            bits_of(address as u64, width as int).take(k),
        ) == eeprom.in_state(
            State::Address {
                read,
                address: address >> ((width - k) as u16),
                count: k as u8,
            },
        ),
    decreases k,
{
    let start = eeprom.in_state(State::Address { read, address: 0, count: 0 });
    let bits = bits_of(address as u64, width as int);
    if k > 0 {
        lemma_address_sent(eeprom, read, address, width, k - 1);
        assert(bits.take(k).drop_last() =~= bits.take(k - 1));
        assert(bits.take(k).last() == bits[k - 1]);
        lemma_collected_bit(address, 0, (width - k) as u16, 0);
    } else {
        assert(bits.take(0) =~= Seq::<u16>::empty());
    }
}

/// The address bits of a request.
proof fn lemma_address_complete(eeprom: EepromView, read: bool, address: u16, width: u8)
    requires
        eeprom.expected_bits() == width,
        width == 6 || width == 14,
        address >> (width as u16) == 0,
    ensures
        sent(
            eeprom.in_state(State::Address { read, address: 0, count: 0 }),
            bits_of(address as u64, width as int),
        ) == eeprom.in_state(
            if read {
                State::ReadStop { address }
            } else {
                State::WriteData { address, data: 0, count: 0 }
            },
        ),
{
    let bits = bits_of(address as u64, width as int);
    lemma_address_sent(eeprom, read, address, width, width - 1);
    assert(bits.drop_last() =~= bits.take(width - 1));
    lemma_collected_bit(address, 0, 0, 0);
}

/// The first `k` data bits of a request.
proof fn lemma_data_sent(eeprom: EepromView, address: u16, data: u64, k: int)
    requires
        1 <= k < 64,
    ensures
        sent(
            eeprom.in_state(State::WriteData { address, data: 0, count: 0 }),
            bits_of(data, 64).take(k),
        ) == eeprom.in_state(
            State::WriteData { address, data: data >> ((64 - k) as u64), count: k as u8 },
        ),
    decreases k,
{
    let bits = bits_of(data, 64);
    assert(bits.take(k).drop_last() =~= bits.take(k - 1));
    assert(bits.take(k).last() == bits[k - 1]);
    if k > 1 {
        lemma_data_sent(eeprom, address, data, k - 1);
        lemma_collected_bit(0, data, 0, (64 - k) as u64);
    } else {
        assert(bits.take(0) =~= Seq::<u16>::empty());
        lemma_collected_bit(0, data, 0, 0);
        let top = data >> 63;
        crate::bits::small_facts(0, 0, 0, top);
    }
}

/// The data bits of a request.
proof fn lemma_data_complete(eeprom: EepromView, address: u16, data: u64)
    ensures
        sent(
            eeprom.in_state(State::WriteData { address, data: 0, count: 0 }),
            bits_of(data, 64),
        ) == eeprom.in_state(State::WriteStop { address, data }),
{
    let bits = bits_of(data, 64);
    lemma_data_sent(eeprom, address, data, 63);
    assert(bits.drop_last() =~= bits.take(63));
    lemma_collected_bit(0, data, 0, 0);
}

/// What sending a bit sequence of one bit does.
proof fn lemma_bit_sent(eeprom: EepromView, bit: u16)
    ensures
        sent(eeprom, seq![bit]) == eeprom.write(bit),
{
    assert(seq![bit].drop_last() =~= Seq::<u16>::empty());
    reveal_with_fuel(sent, 2);
}

/// A write request, sent to an idle chip, replaces exactly the addressed
/// block and leaves the chip idle, whatever its stop bit.
pub proof fn law_eeprom_write(eeprom: EepromView, address: u16, data: u64, stop: u16)
    requires
        eeprom.wf(),
        eeprom.state == State::idle(),
        address >> (eeprom.expected_bits() as u16) == 0,
    ensures
        sent(eeprom, write_request(eeprom.expected_bits() as int, address, data, stop)) == (
        EepromView { data: eeprom.block_written(address, data), ..eeprom }),
{
    let width = eeprom.expected_bits();
    let command = seq![1u16, 0];
    let place = bits_of(address as u64, width as int);
    let contents = bits_of(data, 64);
    lemma_sent_parts(eeprom, command + place + contents, seq![stop]);
    lemma_sent_parts(eeprom, command + place, contents);
    lemma_sent_parts(eeprom, command, place);
    lemma_command_sent(eeprom, false);
    lemma_address_complete(eeprom, false, address, width);
    lemma_data_complete(eeprom, address, data);
    lemma_bit_sent(eeprom.in_state(State::WriteStop { address, data }), stop);
}

/// After `n` bits of a reply; when it is over, nothing moves any more.
proof fn lemma_replied(eeprom: EepromView, address: u16, n: nat)
    requires
        eeprom.state == (State::Reply { address }),
        eeprom.reply_pos == 0,
    ensures
        replied(eeprom, n) == (EepromView {
            reply_pos: if n < 68 {
                n as u8
            } else {
                68
            },
            ..eeprom
        }),
    decreases n,
{
    if n > 0 {
        lemma_replied(eeprom, address, (n - 1) as nat);
    }
}

/// A block lies within the chip; the blocks of the chip lie one behind the
/// other.
proof fn lemma_block(eeprom: EepromView, address: u16)
    ensures
        0 <= eeprom.block(address),
        eeprom.block(address) + 8 <= eeprom.size(),
        address * 8 < eeprom.size() ==> eeprom.block(address) == address * 8,
{
    lemma_mod_bound(address * 8, eeprom.size());
    assert((address * 8) % 0x200 % 8 == 0 && (address * 8) % 0x2000 % 8 == 0);
}

/// Reply bit `n` to a read of the block at `start`: four dummy bits, the
/// block's bytes, each highest bit first, and then "ready".
pub open spec fn reply_bit(data: Seq<u8>, start: int, n: nat) -> u16 {
    if n < 4 {
        0
    } else if n < 68 {
        ((data[start + (n - 4) / 8] >> ((7 - (n - 4) % 8) as u8)) & 1) as u16
    } else {
        1
    }
}

/// A read request, sent to an idle chip, is answered with what the addressed
/// block holds, and changes nothing of what the chip holds, for any block and
/// whatever its stop bit: four dummy bits, the 64 bits of the block, and
/// "ready" from then on.
pub proof fn law_eeprom_read(eeprom: EepromView, address: u16, stop: u16, n: nat)
    requires
        eeprom.wf(),
        eeprom.state == State::idle(),
        address >> (eeprom.expected_bits() as u16) == 0,
    ensures
        ({
            let width = eeprom.expected_bits() as int;
            let asked = sent(eeprom, read_request(width, address, stop));
            &&& replied(asked, n).reply() == reply_bit(eeprom.data, eeprom.block(address), n)
            &&& replied(asked, n).data == eeprom.data
            &&& replied(asked, n).size() == eeprom.size()
            &&& address * 8 < eeprom.size() ==> eeprom.block(address) == address * 8
        }),
{
    let width = eeprom.expected_bits();
    let command = seq![1u16, 1];
    let place = bits_of(address as u64, width as int);
    lemma_sent_parts(eeprom, command + place, seq![stop]);
    lemma_sent_parts(eeprom, command, place);
    lemma_command_sent(eeprom, true);
    lemma_address_complete(eeprom, true, address, width);
    lemma_bit_sent(eeprom.in_state(State::ReadStop { address }), stop);
    lemma_replied(sent(eeprom, read_request(width as int, address, stop)), address, n);
    lemma_block(eeprom, address);
}

/// The bits of a value within the bytes of its big-endian encoding.
proof fn lemma_big_endian_bit(data: u64, byte: u64, bit: u8)
    by (bit_vector)
    requires
        byte < 8,
        bit < 8,
    ensures
        (((data >> ((56 - 8 * byte) as u64)) as u8) >> ((7 - bit) as u8)) & 1 == ((data >> ((63 - 8
            * byte - bit) as u64)) & 1) as u8,
        ((data >> ((63 - 8 * byte - bit) as u64)) & 1) <= 1,
{
}

/// What is written to a block is what a later read request is answered with:
/// four dummy bits, the 64 data bits, highest first, and then "ready".
pub proof fn law_eeprom_round_trip(
    eeprom: EepromView,
    address: u16,
    data: u64,
    write_stop: u16,
    read_stop: u16,
    n: nat,
)
    requires
        eeprom.wf(),
        eeprom.state == State::idle(),
        address >> (eeprom.expected_bits() as u16) == 0,
    ensures
        ({
            let width = eeprom.expected_bits() as int;
            let written = sent(eeprom, write_request(width, address, data, write_stop));
            let asked = sent(written, read_request(width, address, read_stop));
            replied(asked, n).reply() == if n < 4 {
                0
            } else if n < 68 {
                bits_of(data, 64)[n - 4]
            } else {
                1
            }
        }),
{
    let width = eeprom.expected_bits();
    law_eeprom_write(eeprom, address, data, write_stop);
    let written = sent(eeprom, write_request(width as int, address, data, write_stop));
    assert(written.data.len() == eeprom.data.len());
    law_eeprom_read(written, address, read_stop, n);
    if 4 <= n < 68 {
        let bit = n - 4;
        let start = eeprom.block(address);
        lemma_block(eeprom, address);
        assert(written.block(address) == start);
        assert(written.data[start + bit / 8] == big_endian_byte(data, bit / 8));
        let (byte, low) = ((bit / 8) as u64, (bit % 8) as u8);
        lemma_big_endian_bit(data, byte, low);
        assert(8 * byte + low == bit);
        assert(bits_of(data, 64)[bit] == ((data >> ((63 - bit) as u64)) & 1) as u16);
    }
}

/// The clock chip after rising clock edges with `bits` on its data pin, while
/// the calendar reads `now`.
pub open spec fn edges(rtc: RtcView, bits: Seq<bool>, now: DateTime) -> RtcView
    decreases bits.len(),
{
    if bits.len() == 0 {
        rtc
    } else {
        edges(rtc, bits.drop_last(), now).clocked(bits.last(), now)
    }
}

/// The bits of a command byte, highest first.
pub open spec fn command_bits(byte: u8) -> Seq<bool> {
    Seq::new(8, |i: int| (byte >> ((7 - i) as u8)) & 1 != 0)
}

/// The clock chip after `n` rising edges of a read, whatever is on the data
/// pin and whatever the calendar has come to read.
pub open spec fn read_edges(rtc: RtcView, later: spec_fn(int) -> DateTime, n: nat) -> RtcView
    decreases n,
{
    if n == 0 {
        rtc
    } else {
        read_edges(rtc, later, (n - 1) as nat).clocked(false, later(n - 1))
    }
}

/// A command byte builds up from its high end, and says what it says.
proof fn lemma_command_bits(byte: u8, k: u8, command: u8)
    by (bit_vector)
    requires
        k < 8,
        command < 8,
    ensures
        k < 7 ==> ((byte >> ((k + 1) as u8)) << 1) | ((byte >> k) & 1) == byte >> k,
        (0u8 << 1) | ((byte >> 7) & 1) == byte >> 7,
        (byte >> k) & 1 <= 1,
        byte >> 0u8 == byte,
        (0x61 | (command << 1)) >> 4u8 == 0b0110,
        ((0x61 | (command << 1)) >> 1u8) & 7 == command,
        (0x61 | (command << 1)) & 1 == 1,
{
}

proof fn lemma_command_edges(rtc: RtcView, byte: u8, now: DateTime, k: int)
    requires
        rtc.phase is Command,
        rtc.shift == 0,
        rtc.bits == 0,
        1 <= k < 8,
    ensures
        edges(rtc, command_bits(byte).take(k), now) == (RtcView {
            shift: byte >> ((8 - k) as u8),
            bits: k as u8,
            ..rtc
        }),
    decreases k,
{
    let bits = command_bits(byte);
    assert(bits.take(k).drop_last() =~= bits.take(k - 1));
    assert(bits.take(k).last() == bits[k - 1]);
    lemma_command_bits(byte, (8 - k) as u8, 0);
    if k > 1 {
        lemma_command_edges(rtc, byte, now, k - 1);
    } else {
        assert(bits.take(0) =~= Seq::<bool>::empty());
        assert(edges(rtc, bits.take(0), now) == rtc);
    }
}

/// What the chip has sent after `n` bits of a read.
proof fn lemma_read_edges(
    rtc: RtcView,
    command: u8,
    later: spec_fn(int) -> DateTime,
    n: nat,
)
    requires
        rtc.phase == (Phase::Parameters { command, read: true }),
        rtc.index == 0,
        rtc.bits == 0,
        n <= 8 * parameters_of(command),
    ensures
        ({
            let sent = read_edges(rtc, later, n);
            &&& sent.buffer == rtc.buffer
            &&& n < 8 * parameters_of(command) ==> sent.phase == rtc.phase && sent.index == n as int
                / 8 && sent.bits == n as int % 8
            &&& n > 0 ==> sent.sio == ((rtc.buffer[(n - 1) / 8] >> (((n - 1) % 8) as u8)) & 1 != 0)
        }),
    decreases n,
{
    if n > 0 {
        lemma_read_edges(rtc, command, later, (n - 1) as nat);
    }
}

/// A game that asks the clock chip for the date and time, or for the time
/// alone, is sent the calendar as it read when the command was complete, in
/// BCD, each byte lowest bit first, however the calendar goes on.
pub proof fn law_clock_reads_the_calendar(
    rtc: RtcView,
    command: u8,
    now: DateTime,
    later: spec_fn(int) -> DateTime,
    n: nat,
)
    requires
        rtc.phase is Command,
        rtc.shift == 0,
        rtc.bits == 0,
        command == COMMAND_DATE_TIME || command == COMMAND_TIME,
        0 < n <= 8 * parameters_of(command),
    ensures
        ({
            let asked = edges(rtc, command_bits(0x61 | (command << 1)), now);
            let byte = latched(now, rtc.status, command)[(n - 1) / 8];
            read_edges(asked, later, n).sio == ((byte >> (((n - 1) % 8) as u8)) & 1 != 0)
        }),
{
    let byte: u8 = 0x61 | (command << 1);
    let bits = command_bits(byte);
    lemma_command_bits(byte, 0, command);
    lemma_command_edges(rtc, byte, now, 7);
    assert(bits.drop_last() =~= bits.take(7));
    let asked = edges(rtc, bits, now);
    assert(asked.phase == (Phase::Parameters { command, read: true }));
    assert(asked.buffer == latched(now, rtc.status, command));
    lemma_read_edges(asked, command, later, n);
}

} // verus!
