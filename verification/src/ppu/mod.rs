//! Picture Processing Unit: LCD timing and scanline rendering.
//!
//! # Timing
//!
//! ```text
//! one scanline = 240 visible dots + 68 HBlank dots = 308 dots = 1232 cycles
//! one frame    = 160 visible lines + 68 VBlank lines = 228 lines
//! ```
//!
//! The PPU is driven with the cycles the CPU just spent. It renders a
//! scanline into the [`Framebuffer`] the moment that line enters HBlank,
//! maintains `VCOUNT` and the `DISPSTAT` status bits, and raises the
//! VBlank / HBlank / VCount interrupts.

use vstd::prelude::*;

pub mod bitmap;
pub mod compose;
pub mod compose_laws;
pub mod dispstat;
pub mod framebuffer;
pub mod laws;
pub mod line_laws;
pub mod obj;
pub mod picture_laws;
pub mod tiled;

pub use framebuffer::{Framebuffer, Rgba, SCREEN_HEIGHT, SCREEN_WIDTH};

use crate::memory::io::{reg, Interrupt, IoRegisters, IoView};
use crate::memory::video::{VideoMemory, VideoView};
use bitmap::{mode3_pixel, mode4_pixel, mode5_pixel, palette_color};
use compose::{composed_pixel, line_pixels, Backgrounds};
use framebuffer::{bgr555_to_rgba, black_frame, rgba_of, with_row};
use obj::{object_line, ObjLine, ObjLineView};
use tiled::{
    affine_pixel, bg_control_of, mosaic_size, snapped, text_pixel, BgControl, Mosaic, TRANSPARENT,
};

verus! {

broadcast use crate::bits::group_mask_bounds;

/// Cycles per scanline.
pub const CYCLES_PER_LINE: u32 = 1232;
/// Cycle within a line at which HBlank begins.
pub const HBLANK_START: u32 = 960;
/// Total lines per frame, including VBlank.
pub const LINES_PER_FRAME: u16 = 228;
/// Cycles per frame.
pub const CYCLES_PER_FRAME: u32 = CYCLES_PER_LINE * 228;

/// What happened during a [`Ppu::step`] call.
#[derive(Debug, Clone, Copy, PartialEq, Eq, Structural)]
pub struct Events {
    /// VBlank began: the frame is complete.
    pub vblank: bool,
    /// A visible line entered HBlank (never set during VBlank lines).
    pub hblank: bool,
}

impl Default for Events {
    fn default() -> (events: Self)
        ensures
            events == (Events { vblank: false, hblank: false }),
    {
        Events { vblank: false, hblank: false }
    }
}

/// The PPU state.
#[derive(Debug)]
pub struct Ppu {
    /// The last completed frame plus whatever lines of the current frame
    /// have been rendered so far.
    pub framebuffer: Framebuffer,
    /// Current scanline (`VCOUNT`).
    pub vcount: u16,
    /// Cycle within the current scanline.
    pub line_cycle: u32,
    /// Whether HBlank has been entered on the current line.
    pub in_hblank: bool,
    /// Per-background scanline scratch buffers, 15-bit colours.
    pub bg_lines: [[u16; 240]; 4],
    /// OBJ layer scratch.
    pub obj_line: ObjLine,
    /// Composed 15-bit scanline before conversion to RGBA.
    pub composed: [u16; 240],
}

/// The mathematical PPU. The scratch buffers are written before they are
/// read, so they are no part of it.
pub struct PpuView {
    /// The frame.
    pub framebuffer: Seq<u32>,
    /// Current scanline.
    pub vcount: u16,
    /// Cycle within the current scanline.
    pub line_cycle: u32,
    /// Whether HBlank has been entered on the current line.
    pub in_hblank: bool,
}

impl View for Ppu {
    type V = PpuView;

    open spec fn view(&self) -> PpuView {
        PpuView {
            framebuffer: self.framebuffer@,
            vcount: self.vcount,
            line_cycle: self.line_cycle,
            in_hblank: self.in_hblank,
        }
    }
}

/// Whether background `bg` exists in video mode `mode`.
pub open spec fn bg_available(mode: u16, bg: int) -> bool {
    if mode == 0 {
        true
    } else if mode == 1 {
        bg <= 2
    } else if mode == 2 {
        bg >= 2
    } else if mode <= 5 {
        bg == 2
    } else {
        false
    }
}

/// Whether background `bg` rotates and scales in video mode `mode`.
pub open spec fn bg_affine(mode: u16, bg: int) -> bool {
    (mode == 1 && bg == 2) || (mode == 2 && bg >= 2)
}

/// Whether background `bg` is drawn when `DISPCNT` is `dispcnt`.
pub open spec fn bg_drawn(dispcnt: u16, bg: int) -> bool {
    dispcnt & (1u16 << ((8 + bg) as u16)) != 0 && bg_available(dispcnt & 0x7, bg)
}

/// Pixel `(x, y)` of background `bg`, before mosaic.
pub open spec fn plain_pixel(io: IoView, v: VideoView, bg: int, y: usize, x: int) -> u16 {
    let dispcnt = io.read16(reg::DISPCNT);
    let mode = dispcnt & 0x7;
    let frame1 = dispcnt & (1u16 << 4) != 0;
    if mode == 3 {
        mode3_pixel(v, y as int, x)
    } else if mode == 4 {
        mode4_pixel(v, frame1, y as int, x)
    } else if mode == 5 {
        mode5_pixel(v, frame1, y as int, x)
    } else if bg_affine(mode, bg) {
        affine_pixel(io, v, bg, y, x)
    } else {
        text_pixel(io, v, bg, y as int, x)
    }
}

/// Pixel `(x, y)` of background `bg`. A mosaic background shows the first
/// pixel of each block throughout the block.
pub open spec fn bg_pixel(io: IoView, v: VideoView, bg: int, y: int, x: int) -> u16 {
    let mosaic = io.read16(reg::MOSAIC);
    if bg_control_of(io, bg).mosaic {
        plain_pixel(
            io,
            v,
            bg,
            snapped(y, mosaic_size(mosaic >> 4)) as usize,
            snapped(x, mosaic_size(mosaic)),
        )
    } else {
        plain_pixel(io, v, bg, y as usize, x)
    }
}

/// The backgrounds of line `y`.
pub open spec fn backgrounds(io: IoView, v: VideoView, y: int) -> Backgrounds {
    Backgrounds {
        lines: Seq::new(
            4,
            |bg: int| Seq::new(240, |x: int| bg_pixel(io, v, bg, y, x)),
        ),
        enabled: Seq::new(4, |bg: int| bg_drawn(io.read16(reg::DISPCNT), bg)),
        priority: Seq::new(4, |bg: int| bg_control_of(io, bg).priority),
    }
}

/// Scanline `y` as the LCD shows it; forced blank shows white.
pub open spec fn rendered_row(io: IoView, v: VideoView, y: int) -> Seq<u32> {
    let dispcnt = io.read16(reg::DISPCNT);
    let b = backgrounds(io, v, y);
    let objects = dispcnt & (1u16 << 12) != 0;
    Seq::new(
        240,
        |x: int|
            if dispcnt & (1u16 << 7) != 0 {
                0xFFFF_FFFFu32
            } else {
                rgba_of(
                    composed_pixel(
                        io,
                        y,
                        b,
                        objects,
                        object_line(v, dispcnt, y),
                        palette_color(v, 0),
                        x,
                    ),
                )
            },
    )
}

impl PpuView {
    /// The PPU at the start of line 0, with a black frame.
    pub open spec fn initial() -> PpuView {
        PpuView { framebuffer: black_frame(), vcount: 0, line_cycle: 0, in_hblank: false }
    }

    /// The PPU and registers after HBlank begins, and whether this was a
    /// visible line. The interrupt fires on every line, VBlank lines
    /// included.
    #[verifier::opaque]
    pub open spec fn enter_hblank(self, io: IoView, v: VideoView) -> (PpuView, IoView, bool) {
        let visible = self.vcount < 160;
        let stat = io.read16(reg::DISPSTAT);
        let flagged = io.set_raw16(reg::DISPSTAT, stat | dispstat::HBLANK);
        (
            PpuView {
                in_hblank: true,
                framebuffer: if visible {
                    with_row(
                        self.framebuffer,
                        self.vcount as int,
                        rendered_row(io, v, self.vcount as int),
                    )
                } else {
                    self.framebuffer
                },
                ..self
            },
            if stat & dispstat::HBLANK_IRQ != 0 {
                flagged.request_interrupt(Interrupt::HBlank)
            } else {
                flagged
            },
            visible,
        )
    }

    /// The registers after the VBlank flag is updated for line `vcount`,
    /// given the status without its line flags. The flag drops one line
    /// early, on line 227.
    pub open spec fn vblank_updated(io: IoView, vcount: u16, stat: u16) -> (IoView, u16) {
        if vcount == 160 {
            let raised = stat | dispstat::VBLANK;
            (
                if raised & dispstat::VBLANK_IRQ != 0 {
                    io.request_interrupt(Interrupt::VBlank)
                } else {
                    io
                },
                raised,
            )
        } else if vcount == 227 {
            (io, stat & !dispstat::VBLANK)
        } else {
            (io, stat)
        }
    }

    /// The registers after the line counter is compared with the setting.
    pub open spec fn match_updated(io: IoView, vcount: u16, stat: u16) -> (IoView, u16) {
        if vcount == stat >> 8 {
            let matched = stat | dispstat::VCOUNT_MATCH;
            (
                if matched & dispstat::VCOUNT_IRQ != 0 {
                    io.request_interrupt(Interrupt::VCount)
                } else {
                    io
                },
                matched,
            )
        } else {
            (io, stat)
        }
    }

    /// The PPU and registers after moving to the next line, and whether
    /// VBlank begins.
    #[verifier::opaque]
    pub open spec fn end_line(self, io: IoView) -> (PpuView, IoView, bool) {
        let vcount = ((self.vcount + 1) % 228) as u16;
        let counted = io.set_raw16(reg::VCOUNT, vcount);
        let cleared = counted.read16(reg::DISPSTAT) & !(dispstat::HBLANK | dispstat::VCOUNT_MATCH);
        let (io1, stat1) = Self::vblank_updated(counted, vcount, cleared);
        let (io2, stat2) = Self::match_updated(io1, vcount, stat1);
        (
            PpuView { vcount, in_hblank: false, ..self },
            io2.set_raw16(reg::DISPSTAT, stat2),
            vcount == 160,
        )
    }

    /// The PPU and registers when the current line has come to `cycle`, and
    /// what happened on the way.
    pub open spec fn run(self, io: IoView, v: VideoView, cycle: int) -> (PpuView, IoView, Events)
        decreases cycle,
    {
        let (drawn, io1, hblank) = if !self.in_hblank && cycle >= HBLANK_START {
            self.enter_hblank(io, v)
        } else {
            (self, io, false)
        };
        if cycle < CYCLES_PER_LINE {
            (
                PpuView { line_cycle: cycle as u32, ..drawn },
                io1,
                Events { vblank: false, hblank },
            )
        } else {
            let (next, io2, vblank) = drawn.end_line(io1);
            let (last, io3, later) = next.run(io2, v, cycle - CYCLES_PER_LINE);
            (
                last,
                io3,
                Events { vblank: vblank || later.vblank, hblank: hblank || later.hblank },
            )
        }
    }

    /// The PPU and registers after `cycles`, and what happened.
    #[verifier::opaque]
    pub open spec fn step(self, cycles: u32, io: IoView, v: VideoView) -> (
        PpuView,
        IoView,
        Events,
    ) {
        self.run(io, v, self.line_cycle + cycles)
    }

    /// The PPU and registers after jumping to the start of scanline `line`.
    pub open spec fn set_line(self, line: u16, io: IoView) -> (PpuView, IoView) {
        let vcount = (line % 228) as u16;
        let counted = io.set_raw16(reg::VCOUNT, vcount);
        let cleared = counted.read16(reg::DISPSTAT) & !(dispstat::VBLANK | dispstat::HBLANK);
        (
            PpuView { vcount, line_cycle: 0, in_hblank: false, ..self },
            counted.set_raw16(
                reg::DISPSTAT,
                if 160 <= vcount < 227 {
                    cleared | dispstat::VBLANK
                } else {
                    cleared
                },
            ),
        )
    }
}

/// Two sets of backgrounds that agree where they are enabled look alike.
proof fn lemma_same_front(
    a: Backgrounds,
    b: Backgrounds,
    mask: compose::WindowMask,
    x: int,
    upto: int,
)
    requires
        0 <= upto <= 4,
        0 <= x < 240,
        forall|bg: int| 0 <= bg < 4 ==> #[trigger] a.enabled[bg] == b.enabled[bg],
        forall|bg: int| 0 <= bg < 4 ==> #[trigger] a.priority[bg] == b.priority[bg],
        forall|bg: int|
            0 <= bg < 4 && a.enabled[bg] ==> #[trigger] a.lines[bg][x] == b.lines[bg][x],
    ensures
        compose::front_backgrounds(a, mask, x, upto) == compose::front_backgrounds(
            b,
            mask,
            x,
            upto,
        ),
    decreases upto,
{
    if upto > 0 {
        lemma_same_front(a, b, mask, x, upto - 1);
        let bg = upto - 1;
        assert(a.enabled[bg] == b.enabled[bg]);
        assert(a.priority[bg] == b.priority[bg]);
        if a.enabled[bg] {
            assert(a.lines[bg][x] == b.lines[bg][x]);
        }
    }
}

/// What is composed depends on the enabled backgrounds only, and on the
/// sprites only when they are enabled.
proof fn lemma_same_pixel(
    io: IoView,
    y: int,
    a: Backgrounds,
    b: Backgrounds,
    obj_enabled: bool,
    obj_a: ObjLineView,
    obj_b: ObjLineView,
    backdrop: u16,
    x: int,
)
    requires
        0 <= x < 240,
        forall|bg: int| 0 <= bg < 4 ==> #[trigger] a.enabled[bg] == b.enabled[bg],
        forall|bg: int| 0 <= bg < 4 ==> #[trigger] a.priority[bg] == b.priority[bg],
        forall|bg: int|
            0 <= bg < 4 && a.enabled[bg] ==> #[trigger] a.lines[bg][x] == b.lines[bg][x],
        obj_enabled ==> obj_a == obj_b,
    ensures
        composed_pixel(io, y, a, obj_enabled, obj_a, backdrop, x) == composed_pixel(
            io,
            y,
            b,
            obj_enabled,
            obj_b,
            backdrop,
            x,
        ),
{
    let mask = compose::window_at(io, y, x, obj_enabled, obj_a);
    lemma_same_front(a, b, mask, x, 4);
}

impl Clone for Ppu {
    fn clone(&self) -> (copy: Self)
        ensures
            copy@ == self@,
            self.wf() ==> copy.wf(),
    {
        Self {
            framebuffer: self.framebuffer.clone(),
            vcount: self.vcount,
            line_cycle: self.line_cycle,
            in_hblank: self.in_hblank,
            bg_lines: self.bg_lines,
            obj_line: self.obj_line,
            composed: self.composed,
        }
    }
}

impl Default for Ppu {
    fn default() -> (ppu: Self)
        ensures
            ppu.wf(),
            ppu@ == PpuView::initial(),
    {
        Self::new()
    }
}

impl Ppu {
    /// The frame has its size and the position is on a line.
    pub open spec fn wf(&self) -> bool {
        &&& self.framebuffer.wf()
        &&& self.vcount < LINES_PER_FRAME
        &&& self.line_cycle < CYCLES_PER_LINE
    }

    /// A PPU at the start of line 0.
    #[must_use]
    pub fn new() -> (ppu: Self)
        ensures
            ppu.wf(),
            ppu@ == PpuView::initial(),
    {
        let blank: [u16; 240] = [TRANSPARENT;240];
        Self {
            framebuffer: Framebuffer::new(),
            vcount: 0,
            line_cycle: 0,
            in_hblank: false,
            bg_lines: [blank, blank, blank, blank],
            obj_line: ObjLine::default(),
            composed: [0;240],
        }
    }

    /// Current scanline.
    #[must_use]
    pub fn vcount(&self) -> (line: u16)
        ensures
            line == self@.vcount,
    {
        self.vcount
    }

    /// Jumps to the start of scanline `line` and mirrors it into `VCOUNT`.
    ///
    /// Used to reproduce where the BIOS hands control to the cartridge.
    pub fn set_line(&mut self, line: u16, io: &mut IoRegisters)
        requires
            old(self).wf(),
            old(io).wf(),
        ensures
            final(self).wf(),
            final(io).wf(),
            (final(self)@, final(io)@) == old(self)@.set_line(line, old(io)@),
    {
        self.vcount = line % LINES_PER_FRAME;
        self.line_cycle = 0;
        self.in_hblank = false;
        io.set_raw16(reg::VCOUNT, self.vcount);
        let mut stat: u16 = io.read16(reg::DISPSTAT) & !(dispstat::VBLANK | dispstat::HBLANK);
        if self.vcount >= 160 && self.vcount < 227 {
            stat = stat | dispstat::VBLANK;
        }
        io.set_raw16(reg::DISPSTAT, stat);
    }

    /// Advances the PPU by `cycles` and reports the events that occurred.
    pub fn step(&mut self, cycles: u32, io: &mut IoRegisters, video: &VideoMemory) -> (events:
        Events)
        requires
            old(self).wf(),
            old(io).wf(),
            video.wf(),
        ensures
            final(self).wf(),
            final(io).wf(),
            (final(self)@, final(io)@, events) == old(self)@.step(cycles, old(io)@, video@),
    {
        let mut cycle: u64 = self.line_cycle as u64 + cycles as u64;
        let mut events = Events::default();
        let ghost whole = self@.run(io@, video@, cycle as int);
        proof {
            reveal(PpuView::step);
        }
        loop
            invariant_except_break
                ({
                    let rest = self@.run(io@, video@, cycle as int);
                    whole == (
                        rest.0,
                        rest.1,
                        Events {
                            vblank: events.vblank || rest.2.vblank,
                            hblank: events.hblank || rest.2.hblank,
                        },
                    )
                }),
            invariant
                self.wf(),
                io.wf(),
                video.wf(),
            ensures
                self.wf(),
                io.wf(),
                cycle < CYCLES_PER_LINE,
                whole == (
                    PpuView { line_cycle: cycle as u32, ..self@ },
                    io@,
                    events,
                ),
            decreases cycle,
        {
            let mut hblank = false;
            if !self.in_hblank && cycle >= HBLANK_START as u64 {
                hblank = self.enter_hblank(io, video);
            }
            events.hblank = events.hblank || hblank;
            if cycle < CYCLES_PER_LINE as u64 {
                break ;
            }
            cycle = cycle - CYCLES_PER_LINE as u64;
            let vblank = self.end_line(io);
            events.vblank = events.vblank || vblank;
        }
        self.line_cycle = cycle as u32;
        events
    }

    /// Returns `true` if this was a visible line (HBlank DMA fires).
    fn enter_hblank(&mut self, io: &mut IoRegisters, video: &VideoMemory) -> (visible: bool)
        requires
            old(self).wf(),
            old(io).wf(),
            video.wf(),
        ensures
            final(self).wf(),
            final(io).wf(),
            (final(self)@, final(io)@, visible) == old(self)@.enter_hblank(old(io)@, video@),
    {
        proof {
            reveal(PpuView::enter_hblank);
        }
        self.in_hblank = true;
        let visible = (self.vcount as usize) < SCREEN_HEIGHT;
        if visible {
            self.render_line(io, video);
        }
        let stat: u16 = io.read16(reg::DISPSTAT);
        io.set_raw16(reg::DISPSTAT, stat | dispstat::HBLANK);
        // The HBlank interrupt fires on every line, VBlank lines included.
        if stat & dispstat::HBLANK_IRQ != 0 {
            io.request_interrupt(Interrupt::HBlank);
        }
        visible
    }

    /// Moves to the next line; returns `true` when entering VBlank.
    fn end_line(&mut self, io: &mut IoRegisters) -> (entered_vblank: bool)
        requires
            old(self).wf(),
            old(io).wf(),
        ensures
            final(self).wf(),
            final(io).wf(),
            (final(self)@, final(io)@, entered_vblank) == old(self)@.end_line(old(io)@),
    {
        proof {
            reveal(PpuView::end_line);
        }
        self.in_hblank = false;
        self.vcount = (self.vcount + 1) % LINES_PER_FRAME;
        io.set_raw16(reg::VCOUNT, self.vcount);

        let mut stat: u16 = io.read16(reg::DISPSTAT) & !(dispstat::HBLANK
            | dispstat::VCOUNT_MATCH);
        let mut entered_vblank = false;

        match self.vcount {
            160 => {
                stat = stat | dispstat::VBLANK;
                entered_vblank = true;
                if stat & dispstat::VBLANK_IRQ != 0 {
                    io.request_interrupt(Interrupt::VBlank);
                }
            },
            // The flag drops one line early, on line 227.
            227 => stat = stat & !dispstat::VBLANK,
            _ => {},
        }

        if self.vcount == stat >> 8 {
            stat = stat | dispstat::VCOUNT_MATCH;
            if stat & dispstat::VCOUNT_IRQ != 0 {
                io.request_interrupt(Interrupt::VCount);
            }
        }
        io.set_raw16(reg::DISPSTAT, stat);
        entered_vblank
    }

    /// Renders background `bg` of line `y` into its scratch buffer.
    fn draw_background(&mut self, io: &IoRegisters, video: &VideoMemory, bg: usize, y: usize)
        requires
            old(self).wf(),
            io.wf(),
            video.wf(),
            bg < 4,
            y < 160,
        ensures
            final(self).wf(),
            final(self)@ == old(self)@,
            final(self).bg_lines@[bg as int]@ == Seq::new(
                240,
                |x: int| bg_pixel(io@, video@, bg as int, y as int, x),
            ),
            forall|k: int|
                0 <= k < 4 && k != bg ==> #[trigger] final(self).bg_lines@[k]
                    == old(self).bg_lines@[k],
    {
        let dispcnt: u16 = io.read16(reg::DISPCNT);
        let mode: u16 = dispcnt & 0x7;
        let frame1 = dispcnt & (1u16 << 4) != 0;
        let affine = (mode == 1 && bg == 2) || (mode == 2 && bg >= 2);
        let mosaic = Mosaic::read(io);
        let control = BgControl::read(io, bg);
        // Mosaic backgrounds repeat the first line of each block: draw
        // that line instead, then spread pixels across the block.
        let src_y: usize = if control.mosaic {
            tiled::mosaic_snap(y, mosaic.bg_v)
        } else {
            y
        };
        let mut line: [u16; 240] = [TRANSPARENT;240];
        match mode {
            3 => bitmap::render_mode3(video, src_y, &mut line),
            4 => bitmap::render_mode4(video, frame1, src_y, &mut line),
            5 => bitmap::render_mode5(video, frame1, src_y, &mut line),
            _ => {
                if affine {
                    tiled::render_affine(io, video, bg, src_y, &mut line);
                } else {
                    tiled::render_text(io, video, bg, src_y, &mut line);
                }
            },
        }
        proof {
            assert(line@ =~= Seq::new(
                240,
                |x: int| plain_pixel(io@, video@, bg as int, src_y, x),
            ));
        }
        let ghost plain = line@;
        if control.mosaic {
            tiled::mosaic_h(&mut line, mosaic.bg_h);
        }
        proof {
            let expected = Seq::new(240, |x: int| bg_pixel(io@, video@, bg as int, y as int, x));
            if control.mosaic {
                let size = mosaic.bg_h as int;
                assert forall|x: int| 0 <= x < 240 implies line@[x] == expected[x] by {
                    vstd::arithmetic::div_mod::lemma_mod_decreases(x as nat, size as nat);
                    assert(0 <= snapped(x, size) <= x);
                    assert(line@[x] == plain[snapped(x, size)]);
                }
            }
            assert(line@ =~= expected);
        }
        self.bg_lines[bg] = line;
    }

    /// Renders the current scanline: each enabled background into its
    /// scratch buffer, then composited front-to-back by priority.
    fn render_line(&mut self, io: &IoRegisters, video: &VideoMemory)
        requires
            old(self).wf(),
            io.wf(),
            video.wf(),
            old(self).vcount < 160,
        ensures
            final(self).wf(),
            final(self)@ == (PpuView {
                framebuffer: with_row(
                    old(self)@.framebuffer,
                    old(self)@.vcount as int,
                    rendered_row(io@, video@, old(self)@.vcount as int),
                ),
                ..old(self)@
            }),
    {
        let dispcnt: u16 = io.read16(reg::DISPCNT);
        let y: usize = self.vcount as usize;
        let ghost row_spec = rendered_row(io@, video@, y as int);

        // Forced blank: the LCD shows white.
        if dispcnt & (1u16 << 7) != 0 {
            let blank: [u32; 240] = [0xFFFF_FFFFu32;240];
            assert(blank@ =~= row_spec);
            self.show(y, &blank);
            return;
        }

        let mode: u16 = dispcnt & 0x7;
        // Which backgrounds exist in this mode.
        let available: [bool; 4] = match mode {
            0 => [true, true, true, true],
            1 => [true, true, true, false],
            2 => [false, false, true, true],
            3 | 4 | 5 => [false, false, true, false],
            _ => [false, false, false, false],
        };
        let mut enabled: [bool; 4] = [false, false, false, false];
        let mut priorities: [u8; 4] = [0, 0, 0, 0];
        for bg in 0..4usize
            invariant
                self.wf(),
                self@ == old(self)@,
                io.wf(),
                video.wf(),
                y < 160,
                y == self.vcount,
                dispcnt == io@.read16(reg::DISPCNT),
                forall|k: int|
                    0 <= k < 4 ==> #[trigger] available@[k] == bg_available(dispcnt & 0x7, k),
                forall|k: int| 0 <= k < bg ==> #[trigger] enabled@[k] == bg_drawn(dispcnt, k),
                forall|k: int|
                    0 <= k < bg ==> #[trigger] priorities@[k] == bg_control_of(io@, k).priority,
                forall|k: int|
                    0 <= k < bg && enabled@[k] ==> (#[trigger] self.bg_lines@[k])@ == Seq::new(
                        240,
                        |x: int| bg_pixel(io@, video@, k, y as int, x),
                    ),
        {
            assert(available@[bg as int] == bg_available(dispcnt & 0x7, bg as int));
            let on = dispcnt & (1u16 << (8 + bg as u16)) != 0 && available[bg];
            enabled[bg] = on;
            priorities[bg] = BgControl::read(io, bg).priority;
            if on {
                self.draw_background(io, video, bg, y);
            }
        }

        let objects = dispcnt & (1u16 << 12) != 0;
        if objects {
            obj::render_line(io, video, y, &mut self.obj_line);
        }

        let backdrop: u16 = bitmap::palette_entry(video, 0);
        compose::compose_line(
            io,
            y,
            &self.bg_lines,
            enabled,
            priorities,
            objects,
            &self.obj_line,
            backdrop,
            &mut self.composed,
        );
        let mut row: [u32; 240] = [0;240];
        for x in 0..SCREEN_WIDTH
            invariant
                forall|k: int| 0 <= k < x ==> row@[k] == rgba_of(self.composed@[k]),
        {
            row[x] = bgr555_to_rgba(self.composed[x]);
        }
        proof {
            let drawn = Backgrounds {
                lines: line_pixels(self.bg_lines),
                enabled: enabled@,
                priority: priorities@,
            };
            let b = backgrounds(io@, video@, y as int);
            assert forall|x: int| 0 <= x < 240 implies row@[x] == row_spec[x] by {
                assert forall|bg: int| 0 <= bg < 4 implies #[trigger] drawn.enabled[bg]
                    == b.enabled[bg] by {
                    assert(enabled@[bg] == bg_drawn(dispcnt, bg));
                }
                assert forall|bg: int| 0 <= bg < 4 implies #[trigger] drawn.priority[bg]
                    == b.priority[bg] by {
                    assert(priorities@[bg] == bg_control_of(io@, bg).priority);
                }
                assert forall|bg: int|
                    0 <= bg < 4 && drawn.enabled[bg] implies #[trigger] drawn.lines[bg][x]
                    == b.lines[bg][x] by {
                    assert(self.bg_lines@[bg]@ == Seq::new(
                        240,
                        |x: int| bg_pixel(io@, video@, bg, y as int, x),
                    ));
                }
                lemma_same_pixel(
                    io@,
                    y as int,
                    drawn,
                    b,
                    objects,
                    self.obj_line@,
                    object_line(video@, dispcnt, y as int),
                    backdrop,
                    x,
                );
            }
            assert(row@ =~= row_spec);
        }
        self.show(y, &row);
    }

    /// Puts a finished row into the frame.
    fn show(&mut self, y: usize, row: &[u32; 240])
        requires
            old(self).wf(),
            y < 160,
        ensures
            final(self).wf(),
            final(self)@ == (PpuView {
                framebuffer: with_row(old(self)@.framebuffer, y as int, row@),
                ..old(self)@
            }),
    {
        let ghost before = self.framebuffer@;
        for x in 0..SCREEN_WIDTH
            invariant
                before.len() == 38400,
                self.framebuffer@.len() == 38400,
                y < 160,
                *self == (Ppu { framebuffer: self.framebuffer, ..*old(self) }),
                forall|k: int|
                    0 <= k < 38400 ==> #[trigger] self.framebuffer@[k] == if 240 * y <= k && k < 240
                        * y + x {
                        row@[k - 240 * y]
                    } else {
                        before[k]
                    },
        {
            self.framebuffer.pixels[y * SCREEN_WIDTH + x] = row[x];
        }
        assert(self.framebuffer@ =~= with_row(before, y as int, row@));
    }
}

} // verus!
