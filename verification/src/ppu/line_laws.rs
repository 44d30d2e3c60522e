//! What the status register shows as lines go by.

use vstd::prelude::*;

use crate::bytes::law_half_round_trip;
use crate::memory::interrupt::{interrupt_mask, Interrupt};
use crate::memory::io::{lemma_register_offsets, IoView};
use crate::memory::video::VideoView;
use crate::memory::IO_SIZE;
use crate::ppu::tiled::{affine_params, affine_pixel, bg_control_of, walked};
use crate::ppu::{dispstat, PpuView};

verus! {

broadcast use crate::bits::group_mask_bounds;

/// Storing a register changes what that one reads as, of the display status,
/// the line counter and the interrupt flags.
proof fn lemma_stored(io: IoView, offset: u32, value: u16)
    requires
        io.raw.len() == IO_SIZE,
        offset == 4 || offset == 6 || offset == 0x202,
    ensures
        ({
            let after = io.set_raw16(offset, value);
            &&& after.raw.len() == IO_SIZE
            &&& after.read16(4) == if offset == 4 {
                value
            } else {
                io.read16(4)
            }
            &&& after.read16(6) == if offset == 6 {
                value
            } else {
                io.read16(6)
            }
            &&& after.read16(0x202) == if offset == 0x202 {
                value
            } else {
                io.read16(0x202)
            }
        }),
{
    lemma_register_offsets();
    reveal(IoView::register);
    law_half_round_trip(io.raw, offset as int, value);
}

/// Raising an interrupt changes the interrupt flags alone.
proof fn lemma_raised(io: IoView, source: Interrupt)
    requires
        io.raw.len() == IO_SIZE,
    ensures
        ({
            let after = io.request_interrupt(source);
            &&& after.raw.len() == IO_SIZE
            &&& after.read16(4) == io.read16(4)
            &&& after.read16(6) == io.read16(6)
            &&& after.read16(0x202) == io.read16(0x202) | interrupt_mask(source)
        }),
{
    reveal(IoView::request_interrupt);
    lemma_stored(io, 0x202, io.flags() | interrupt_mask(source));
}

/// When HBlank begins its flag, bit 1 of the status, is set, and its interrupt
/// is raised where bit 4 asks for it. A line that is on the screen is drawn.
#[verifier::rlimit(40)]
pub proof fn law_hblank_begins(p: PpuView, io: IoView, v: VideoView)
    requires
        io.raw.len() == IO_SIZE,
    ensures
        ({
            let (after, regs, visible) = p.enter_hblank(io, v);
            let (was, is) = (io.read16(4), regs.read16(4));
            &&& (is >> 1) & 1 == 1
            &&& is & 1 == was & 1
            &&& is >> 2 == was >> 2
            &&& regs.read16(0x202) == if (was >> 4) & 1 == 1 {
                io.read16(0x202) | 2
            } else {
                io.read16(0x202)
            }
            &&& visible == (p.vcount < 160)
            &&& p.vcount >= 160 ==> after.framebuffer == p.framebuffer
            &&& after.vcount == p.vcount
            &&& after.in_hblank
        }),
{
    reveal(PpuView::enter_hblank);
    let stat = io.read16(4);
    crate::bits::half_facts(stat, 0);
    crate::memory::chip_laws::law_interrupt_bits();
    lemma_stored(io, 4, stat | dispstat::HBLANK);
    lemma_raised(io.set_raw16(4, stat | dispstat::HBLANK), Interrupt::HBlank);
}

/// At the end of a line the counter moves on, around 228. The HBlank flag
/// drops; the VBlank flag, bit 0, is set on line 160 and drops on line 227;
/// the match flag, bit 2, says whether the counter equals the upper byte. The
/// interrupts for the last two are raised where bits 3 and 5 ask for them.
#[verifier::rlimit(40)]
pub proof fn law_line_ends(p: PpuView, io: IoView)
    requires
        io.raw.len() == IO_SIZE,
        p.vcount < 228,
    ensures
        ({
            let (after, regs, vblank) = p.end_line(io);
            let line = if p.vcount == 227 {
                0
            } else {
                p.vcount + 1
            };
            let (was, is) = (io.read16(4), regs.read16(4));
            let matched = line == was >> 8;
            &&& after.vcount == line
            &&& regs.read16(6) == line
            &&& vblank == (line == 160)
            &&& is & 1 == if line == 160 {
                1
            } else if line == 227 {
                0
            } else {
                was & 1
            }
            &&& (is >> 1) & 1 == 0
            &&& ((is >> 2) & 1 == 1) == matched
            &&& is >> 3 == was >> 3
            &&& regs.read16(0x202) == match (
                line == 160 && (was >> 3) & 1 == 1,
                matched && (was >> 5) & 1 == 1,
            ) {
                (false, false) => io.read16(0x202),
                (true, false) => io.read16(0x202) | 1,
                (false, true) => io.read16(0x202) | 4,
                (true, true) => io.read16(0x202) | 1 | 4,
            }
        }),
{
    reveal(PpuView::end_line);
    crate::memory::chip_laws::law_interrupt_bits();
    let vcount = ((p.vcount + 1) % 228) as u16;
    let stat = io.read16(4);
    lemma_stored(io, 6, vcount);
    let counted = io.set_raw16(6, vcount);
    let cleared = stat & !(dispstat::HBLANK | dispstat::VCOUNT_MATCH);
    crate::bits::half_facts(stat, 0);
    crate::bits::half_facts(cleared, 0);
    lemma_raised(counted, Interrupt::VBlank);
    let (io1, stat1) = PpuView::vblank_updated(counted, vcount, cleared);
    crate::bits::half_facts(stat1, 0);
    lemma_raised(io1, Interrupt::VCount);
    let (io2, stat2) = PpuView::match_updated(io1, vcount, stat1);
    crate::bits::half_facts(stat1 | dispstat::VCOUNT_MATCH, 0);
    lemma_stored(io2, 4, stat2);
}

/// HBlank begins with cycle 960 of a line: before it only time passes, and
/// from it on the line is in HBlank.
pub proof fn law_hblank_time(p: PpuView, io: IoView, v: VideoView, cycles: u32)
    requires
        !p.in_hblank,
        p.line_cycle + cycles < 1232,
    ensures
        ({
            let (after, regs, events) = p.step(cycles, io, v);
            let now = p.line_cycle + cycles;
            &&& after.line_cycle == now
            &&& after.vcount == p.vcount
            &&& after.in_hblank == (now >= 960)
            &&& events.hblank == (now >= 960 && p.vcount < 160)
            &&& !events.vblank
            &&& now < 960 ==> after.framebuffer == p.framebuffer && regs == io
        }),
{
    reveal(PpuView::step);
    reveal(PpuView::enter_hblank);
}

/// A turning background shows, at each pixel, the texture at the starting
/// point plus the first pair of parameters for each pixel to the right and the
/// second for each line down, in 256ths, rounded down.
pub proof fn law_turning_background(io: IoView, v: VideoView, bg: int, y: usize, x: int)
    requires
        0 <= x < 240,
        y < 160,
        ({
            let p = affine_params(io, bg);
            &&& -0x8000 <= p.pa <= 0x7FFF
            &&& -0x8000 <= p.pb <= 0x7FFF
            &&& -0x8000 <= p.pc <= 0x7FFF
            &&& -0x8000 <= p.pd <= 0x7FFF
            &&& -0x700_0000 <= p.x <= 0x700_0000
            &&& -0x700_0000 <= p.y <= 0x700_0000
        }),
    ensures
        ({
            let p = affine_params(io, bg);
            let control = bg_control_of(io, bg);
            let size = crate::ppu::tiled::affine_size(control.size);
            let tx = (p.x + p.pb * y + x * p.pa) / 256;
            let ty = (p.y + p.pd * y + x * p.pc) / 256;
            affine_pixel(io, v, bg, y, x) == match (
                crate::ppu::tiled::affine_coordinate(tx as i32, size, control.wrap),
                crate::ppu::tiled::affine_coordinate(ty as i32, size, control.wrap),
            ) {
                (Some(px), Some(py)) => crate::ppu::tiled::affine_texel(v, control, px, py),
                _ => 0x8000,
            }
        }),
{
    let p = affine_params(io, bg);
    lemma_walked(p.x, p.pb, p.pa, y as int, x);
    lemma_walked(p.y, p.pd, p.pc, y as int, x);
}

proof fn lemma_walked(start: i32, down: i32, right: i32, y: int, x: int)
    requires
        -0x700_0000 <= start <= 0x700_0000,
        -0x8000 <= down <= 0x7FFF,
        -0x8000 <= right <= 0x7FFF,
        0 <= y < 160,
        0 <= x < 240,
    ensures
        ({
            let line = start.wrapping_add(down.wrapping_mul(y as i32));
            walked(line, right, x) >> 8u32 == ((start + down * y + x * right) / 256) as i32
        }),
{
    assert(-0x50_0000 <= down * y <= 0x50_0000) by (nonlinear_arith)
        requires
            -0x8000 <= down <= 0x7FFF,
            0 <= y < 160,
    ;
    assert(-0x78_0000 <= x * right <= 0x78_0000) by (nonlinear_arith)
        requires
            -0x8000 <= right <= 0x7FFF,
            0 <= x < 240,
    ;
    assert(down.wrapping_mul(y as i32) == down * y);
    let line = start.wrapping_add(down.wrapping_mul(y as i32));
    assert(line == start + down * y);
    crate::ppu::picture_laws::law_walk(line, right, x);
    crate::ppu::obj::lemma_shift_bounds(walked(line, right, x));
}

} // verus!
