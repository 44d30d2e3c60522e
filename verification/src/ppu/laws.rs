//! What holds of the PPU as a whole.

use vstd::arithmetic::div_mod::{lemma_fundamental_div_mod, lemma_mod_bound};
use vstd::prelude::*;

use crate::bits::mask_bound_u16;
use crate::bytes::law_half_round_trip;
use crate::memory::interrupt::{interrupt_mask, Interrupt};
use crate::memory::io::{lemma_register_offsets, reg, IoView};
use crate::memory::video::VideoView;
use crate::memory::IO_SIZE;
use crate::ppu::compose::{bg_visible, front_backgrounds, Backgrounds, WindowMask};
use crate::ppu::obj::{front_object, is_window_object, object_color};
use crate::ppu::tiled::{bg_control_of, snapped, text_pixel, TRANSPARENT};
use crate::ppu::{dispstat, Events, PpuView, CYCLES_PER_FRAME, CYCLES_PER_LINE};

verus! {

/// Lines until VBlank begins.
pub open spec fn lines_to_vblank(vcount: u16) -> int {
    if vcount < 160 {
        160 - vcount
    } else {
        388 - vcount
    }
}

/// Cycles until VBlank begins, when line `vcount` has come to `cycle`.
pub open spec fn cycles_to_vblank(vcount: u16, cycle: int) -> int {
    lines_to_vblank(vcount) * 1232 - cycle
}

/// Where running to `cycle` of the current line ends, and whether VBlank
/// begins on the way.
proof fn lemma_run(p: PpuView, io: IoView, v: VideoView, cycle: int)
    requires
        p.vcount < 228,
        cycle >= 0,
    ensures
        ({
            let (last, _, events) = p.run(io, v, cycle);
            &&& last.vcount == (p.vcount + cycle / 1232) % 228
            &&& last.line_cycle == cycle % 1232
            &&& events.vblank == (cycles_to_vblank(p.vcount, cycle) <= 0)
            &&& !events.vblank ==> cycles_to_vblank(last.vcount, last.line_cycle as int)
                == cycles_to_vblank(p.vcount, cycle)
        }),
    decreases cycle,
{
    reveal(PpuView::enter_hblank);
    let (drawn, io1, _) = if !p.in_hblank && cycle >= 960 {
        p.enter_hblank(io, v)
    } else {
        (p, io, false)
    };
    if cycle >= 1232 {
        reveal(PpuView::end_line);
        let (next, io2, vblank) = drawn.end_line(io1);
        lemma_run(next, io2, v, cycle - 1232);
    }
}

/// A step reports VBlank exactly if it reaches the start of line 160, and
/// otherwise brings it closer by exactly the cycles that passed.
pub proof fn law_vblank_comes_in_time(p: PpuView, io: IoView, v: VideoView, cycles: u32)
    requires
        p.vcount < 228,
        p.line_cycle < 1232,
    ensures
        ({
            let (last, _, events) = p.step(cycles, io, v);
            let left = cycles_to_vblank(p.vcount, p.line_cycle as int);
            &&& events.vblank == (cycles >= left)
            &&& !events.vblank ==> cycles_to_vblank(last.vcount, last.line_cycle as int) == left
                - cycles
        }),
{
    reveal(PpuView::step);
    lemma_run(p, io, v, p.line_cycle + cycles);
}

/// Every frame takes the same time: a frame's worth of cycles comes back to
/// the same place on the same line, with one VBlank on the way.
pub proof fn law_frame_takes_its_cycles(p: PpuView, io: IoView, v: VideoView)
    requires
        p.vcount < 228,
        p.line_cycle < 1232,
    ensures
        ({
            let (last, _, events) = p.step(CYCLES_PER_FRAME, io, v);
            &&& last.vcount == p.vcount
            &&& last.line_cycle == p.line_cycle
            &&& events.vblank
        }),
{
    reveal(PpuView::step);
    let cycle = p.line_cycle + CYCLES_PER_FRAME;
    lemma_run(p, io, v, cycle);
    assert(cycle / 1232 == 228 && cycle % 1232 == p.line_cycle);
}

/// A step of at most one line that reports VBlank ends on line 160.
pub proof fn law_vblank_begins_on_line_160(p: PpuView, io: IoView, v: VideoView, cycles: u32)
    requires
        p.vcount < 228,
        p.line_cycle < 1232,
        cycles <= CYCLES_PER_LINE,
        p.step(cycles, io, v).2.vblank,
    ensures
        p.step(cycles, io, v).0.vcount == 160,
{
    reveal(PpuView::step);
    let cycle = p.line_cycle + cycles;
    lemma_run(p, io, v, cycle);
    assert(cycle / 1232 <= 1);
}

/// The position within the line that a run starts from does not matter: the
/// run is told where it goes.
proof fn lemma_run_ignores_position(p: PpuView, io: IoView, v: VideoView, x: u32, cycle: int)
    ensures
        (PpuView { line_cycle: x, ..p }).run(io, v, cycle) == p.run(io, v, cycle),
    decreases cycle,
{
    reveal(PpuView::enter_hblank);
    let q = PpuView { line_cycle: x, ..p };
    let (drawn, io1, _) = if !p.in_hblank && cycle >= 960 {
        p.enter_hblank(io, v)
    } else {
        (p, io, false)
    };
    let (drawn_q, io1_q, _) = if !q.in_hblank && cycle >= 960 {
        q.enter_hblank(io, v)
    } else {
        (q, io, false)
    };
    assert(drawn_q == PpuView { line_cycle: x, ..drawn });
    if cycle >= 1232 {
        reveal(PpuView::end_line);
        let (next, io2, _) = drawn.end_line(io1);
        assert(drawn_q.end_line(io1_q).0 == PpuView { line_cycle: x, ..next });
        lemma_run_ignores_position(next, io2, v, x, cycle - 1232);
    }
}

/// What happened in either of two steps.
pub open spec fn either(a: Events, b: Events) -> Events {
    Events { vblank: a.vblank || b.vblank, hblank: a.hblank || b.hblank }
}

/// Running to `cycle` and then for `more` is running to both at once.
proof fn lemma_run_splits(p: PpuView, io: IoView, v: VideoView, cycle: int, more: int)
    requires
        cycle >= 0,
        more >= 0,
    ensures
        ({
            let (m, io1, first) = p.run(io, v, cycle);
            let (last, io2, second) = m.run(io1, v, m.line_cycle + more);
            p.run(io, v, cycle + more) == (last, io2, either(first, second))
        }),
    decreases cycle,
{
    reveal(PpuView::enter_hblank);
    let (drawn, io1, hblank) = if !p.in_hblank && cycle >= 960 {
        p.enter_hblank(io, v)
    } else {
        (p, io, false)
    };
    if cycle >= 1232 {
        reveal(PpuView::end_line);
        let (next, io2, _) = drawn.end_line(io1);
        lemma_run_splits(next, io2, v, cycle - 1232, more);
        let whole = next.run(io2, v, cycle + more - 1232);
        assert(p.run(io, v, cycle + more).0 == whole.0);
    } else {
        let m = PpuView { line_cycle: cycle as u32, ..drawn };
        assert(m.line_cycle == cycle);
        lemma_run_ignores_position(drawn, io1, v, cycle as u32, cycle + more);
        let second = drawn.run(io1, v, cycle + more);
        let whole = p.run(io, v, cycle + more);
        assert(whole.0 == second.0 && whole.1 == second.1);
        assert(whole.2 == either(Events { vblank: false, hblank }, second.2));
    }
}

/// The PPU does not care how time is cut into steps, as long as nobody
/// touches its registers in between.
pub proof fn law_ppu_steps_add(p: PpuView, io: IoView, v: VideoView, a: u32, b: u32)
    requires
        a + b <= u32::MAX,
    ensures
        ({
            let (m, io1, first) = p.step(a, io, v);
            let (last, io2, second) = m.step(b, io1, v);
            p.step((a + b) as u32, io, v) == (last, io2, either(first, second))
        }),
{
    reveal(PpuView::step);
    lemma_run_splits(p, io, v, p.line_cycle + a, b as int);
}

/// Storing a halfword of the register block leaves the others alone.
proof fn lemma_raw_elsewhere(io: IoView, offset: u32, value: u16)
    requires
        io.raw.len() == IO_SIZE,
        offset == reg::DISPSTAT || offset == reg::VCOUNT || offset == reg::IF,
    ensures
        io.set_raw16(offset, value).raw.len() == IO_SIZE,
        offset != reg::VCOUNT ==> io.set_raw16(offset, value).read16(reg::VCOUNT) == io.read16(
            reg::VCOUNT,
        ),
        offset == reg::VCOUNT ==> io.set_raw16(offset, value).read16(reg::VCOUNT) == value,
{
    lemma_register_offsets();
    reveal(IoView::register);
    law_half_round_trip(io.raw, offset as int, value);
}

/// Raising an interrupt leaves `VCOUNT` alone.
proof fn lemma_request_elsewhere(io: IoView, source: Interrupt)
    requires
        io.raw.len() == IO_SIZE,
    ensures
        io.request_interrupt(source).raw.len() == IO_SIZE,
        io.request_interrupt(source).read16(reg::VCOUNT) == io.read16(reg::VCOUNT),
{
    reveal(IoView::request_interrupt);
    lemma_raw_elsewhere(io, reg::IF, io.flags() | interrupt_mask(source));
}

proof fn lemma_hblank_keeps_vcount(p: PpuView, io: IoView, v: VideoView)
    requires
        io.raw.len() == IO_SIZE,
    ensures
        p.enter_hblank(io, v).0.vcount == p.vcount,
        p.enter_hblank(io, v).1.raw.len() == IO_SIZE,
        p.enter_hblank(io, v).1.read16(reg::VCOUNT) == io.read16(reg::VCOUNT),
{
    reveal(PpuView::enter_hblank);
    let stat = io.read16(reg::DISPSTAT);
    lemma_raw_elsewhere(io, reg::DISPSTAT, stat | dispstat::HBLANK);
    let flagged = io.set_raw16(reg::DISPSTAT, stat | dispstat::HBLANK);
    lemma_request_elsewhere(flagged, Interrupt::HBlank);
}

proof fn lemma_end_line_sets_vcount(p: PpuView, io: IoView)
    requires
        io.raw.len() == IO_SIZE,
    ensures
        p.end_line(io).1.raw.len() == IO_SIZE,
        p.end_line(io).1.read16(reg::VCOUNT) == p.end_line(io).0.vcount,
{
    reveal(PpuView::end_line);
    let vcount = ((p.vcount + 1) % 228) as u16;
    lemma_raw_elsewhere(io, reg::VCOUNT, vcount);
    let counted = io.set_raw16(reg::VCOUNT, vcount);
    let cleared = counted.read16(reg::DISPSTAT) & !(dispstat::HBLANK | dispstat::VCOUNT_MATCH);
    lemma_request_elsewhere(counted, Interrupt::VBlank);
    let (io1, stat1) = PpuView::vblank_updated(counted, vcount, cleared);
    lemma_request_elsewhere(io1, Interrupt::VCount);
    let (io2, stat2) = PpuView::match_updated(io1, vcount, stat1);
    lemma_raw_elsewhere(io2, reg::DISPSTAT, stat2);
}

proof fn lemma_run_keeps_vcount(p: PpuView, io: IoView, v: VideoView, cycle: int)
    requires
        io.raw.len() == IO_SIZE,
        io.read16(reg::VCOUNT) == p.vcount,
    ensures
        p.run(io, v, cycle).1.raw.len() == IO_SIZE,
        p.run(io, v, cycle).1.read16(reg::VCOUNT) == p.run(io, v, cycle).0.vcount,
    decreases cycle,
{
    lemma_hblank_keeps_vcount(p, io, v);
    let (drawn, io1, _) = if !p.in_hblank && cycle >= 960 {
        p.enter_hblank(io, v)
    } else {
        (p, io, false)
    };
    if cycle >= 1232 {
        lemma_end_line_sets_vcount(drawn, io1);
        let (next, io2, _) = drawn.end_line(io1);
        lemma_run_keeps_vcount(next, io2, v, cycle - 1232);
    }
}

/// The `VCOUNT` register follows the line that the PPU is on, which is one of
/// the 228 of a frame.
pub proof fn law_vcount_follows_the_line(p: PpuView, io: IoView, v: VideoView, cycles: u32)
    requires
        p.vcount < 228,
        io.raw.len() == IO_SIZE,
        io.read16(reg::VCOUNT) == p.vcount,
    ensures
        p.step(cycles, io, v).1.read16(reg::VCOUNT) == p.step(cycles, io, v).0.vcount,
        p.step(cycles, io, v).0.vcount < 228,
        p.step(cycles, io, v).1.raw.len() == IO_SIZE,
{
    reveal(PpuView::step);
    lemma_run_keeps_vcount(p, io, v, p.line_cycle + cycles);
    lemma_run(p, io, v, p.line_cycle + cycles);
}

/// Scrolling a text background by one pixel, around the edge of the scroll
/// register too, moves every line to the left by one; scrolling it down moves
/// it up by one.
pub proof fn law_text_scrolling(
    io: IoView,
    scrolled: IoView,
    v: VideoView,
    bg: int,
    y: int,
    x: int,
)
    requires
        0 <= bg < 4,
        bg_control_of(scrolled, bg) == bg_control_of(io, bg),
    ensures
        ({
            let h = (reg::BG0HOFS + 4 * bg) as u32;
            let w = (reg::BG0VOFS + 4 * bg) as u32;
            let right = (scrolled.read16(h) & 0x1FF) == ((io.read16(h) & 0x1FF) + 1) % 512
                && scrolled.read16(w) == io.read16(w);
            let down = scrolled.read16(h) == io.read16(h) && (scrolled.read16(w) & 0x1FF) == ((
            io.read16(w) & 0x1FF) + 1) % 512;
            &&& right ==> text_pixel(scrolled, v, bg, y, x) == text_pixel(io, v, bg, y, x + 1)
            &&& down ==> text_pixel(scrolled, v, bg, y, x) == text_pixel(io, v, bg, y + 1, x)
        }),
{
    let h = io.read16((reg::BG0HOFS + 4 * bg) as u32) & 0x1FF;
    let w = io.read16((reg::BG0VOFS + 4 * bg) as u32) & 0x1FF;
    mask_bound_u16(io.read16((reg::BG0HOFS + 4 * bg) as u32), 0x1FF);
    mask_bound_u16(io.read16((reg::BG0VOFS + 4 * bg) as u32), 0x1FF);
    assert((x + (h + 1) % 512) % 256 == (x + 1 + h) % 256);
    assert((x + (h + 1) % 512) % 512 == (x + 1 + h) % 512);
    assert((y + (w + 1) % 512) % 256 == (y + 1 + w) % 256);
    assert((y + (w + 1) % 512) % 512 == (y + 1 + w) % 512);
}

/// Snapping to a mosaic block goes back to its first pixel: never forward,
/// by less than a block, and no further when done again.
pub proof fn law_mosaic_snap(coord: int, size: int)
    requires
        coord >= 0,
        size > 0,
    ensures
        coord - size < snapped(coord, size) <= coord,
        snapped(coord, size) >= 0,
        snapped(snapped(coord, size), size) == snapped(coord, size),
{
    lemma_mod_bound(coord, size);
    lemma_fundamental_div_mod(coord, size);
    vstd::arithmetic::div_mod::lemma_mod_multiples_basic(coord / size, size);
    assert(coord - coord % size == (coord / size) * size) by (nonlinear_arith)
        requires
            coord == size * (coord / size) + coord % size,
    ;
    assert((coord / size) * size >= 0) by (nonlinear_arith)
        requires
            coord >= 0,
            size > 0,
    ;
}

/// Whether OAM entry `index` draws at `(x, y)`.
pub open spec fn draws(v: VideoView, dispcnt: u16, index: int, x: int, y: int) -> bool {
    !is_window_object(v, index) && object_color(v, dispcnt, index, x, y) != TRANSPARENT
}

/// Between sprites the order in OAM decides, whatever their priorities: the
/// one that shows draws there, and none before it does.
pub proof fn law_first_sprite_wins(v: VideoView, dispcnt: u16, x: int, y: int, upto: int)
    ensures
        match front_object(v, dispcnt, x, y, upto) {
            Some(index) => {
                &&& 0 <= index < upto
                &&& draws(v, dispcnt, index, x, y)
                &&& forall|earlier: int|
                    0 <= earlier < index ==> !draws(v, dispcnt, earlier, x, y)
            },
            None => forall|index: int| 0 <= index < upto ==> !draws(v, dispcnt, index, x, y),
        },
    decreases upto,
{
    if upto > 0 {
        law_first_sprite_wins(v, dispcnt, x, y, upto - 1);
    }
}

/// The front background is a visible one; no visible one has a better
/// priority, and of those with the same priority it has the lowest number.
pub proof fn law_best_priority_background_wins(
    b: Backgrounds,
    mask: WindowMask,
    x: int,
    upto: int,
)
    requires
        upto <= 4,
    ensures
        match front_backgrounds(b, mask, x, upto).0 {
            Some((color, layer, priority)) => {
                &&& 0 <= layer < upto
                &&& bg_visible(b, mask, layer as int, x)
                &&& color == b.lines[layer as int][x]
                &&& priority == b.priority[layer as int]
                &&& forall|bg: int|
                    0 <= bg < upto && #[trigger] bg_visible(b, mask, bg, x) ==> priority
                        < b.priority[bg] || (priority == b.priority[bg] && layer <= bg)
            },
            None => forall|bg: int| 0 <= bg < upto ==> !(#[trigger] bg_visible(b, mask, bg, x)),
        },
    decreases upto,
{
    if upto > 0 {
        law_best_priority_background_wins(b, mask, x, upto - 1);
    }
}

} // verus!
