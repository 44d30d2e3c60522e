//! Bitmap background modes 3, 4 and 5.
//!
//! These draw BG2 straight from VRAM with no tiles, producing a 15-bit
//! scanline like the tiled renderers so the compositor treats them alike.

use vstd::prelude::*;

use crate::bytes::{get16, half_at};
use crate::memory::video::{VideoMemory, VideoView};
use crate::memory::VRAM_SIZE;
use crate::ppu::framebuffer::SCREEN_WIDTH;
use crate::ppu::tiled::TRANSPARENT;

verus! {

/// Byte offset of the second frame in modes 4 and 5 (`DISPCNT` bit 4).
pub const FRAME1_OFFSET: usize = 0xA000;

/// Where the selected frame of modes 4 and 5 starts.
pub open spec fn frame_start(frame1: bool) -> int {
    if frame1 {
        FRAME1_OFFSET as int
    } else {
        0
    }
}

/// Entry `index` of the background palette as a 15-bit colour.
pub open spec fn palette_color(v: VideoView, index: int) -> u16 {
    half_at(v.palette, 2 * index) & 0x7FFF
}

/// Mode 3: pixel `x` of line `y`.
pub open spec fn mode3_pixel(v: VideoView, y: int, x: int) -> u16 {
    half_at(v.vram, 480 * y + 2 * x) & 0x7FFF
}

/// Mode 4: pixel `x` of line `y`. Index 0 is transparent.
pub open spec fn mode4_pixel(v: VideoView, frame1: bool, y: int, x: int) -> u16 {
    let index = v.vram[frame_start(frame1) + 240 * y + x];
    if index == 0 {
        TRANSPARENT
    } else {
        palette_color(v, index as int)
    }
}

/// Mode 5: pixel `x` of line `y`, transparent outside the 160×128 bitmap.
pub open spec fn mode5_pixel(v: VideoView, frame1: bool, y: int, x: int) -> u16 {
    if y >= 128 || x >= 160 {
        TRANSPARENT
    } else {
        half_at(v.vram, frame_start(frame1) + 320 * y + 2 * x) & 0x7FFF
    }
}

/// Mode 3: 240×160, 16-bit colour directly in VRAM. Always opaque.
pub fn render_mode3(video: &VideoMemory, y: usize, out: &mut [u16; 240])
    requires
        video.wf(),
        480 * y + 480 <= VRAM_SIZE,
    ensures
        final(out)@ == Seq::new(240, |x: int| mode3_pixel(video@, y as int, x)),
{
    for x in 0..SCREEN_WIDTH
        invariant
            video.wf(),
            480 * y + 480 <= VRAM_SIZE,
            forall|k: int| 0 <= k < x ==> out@[k] == mode3_pixel(video@, y as int, k),
    {
        out[x] = get16(video.vram.as_slice(), 480 * y + 2 * x) & 0x7FFF;
    }
    assert(out@ =~= Seq::new(240, |x: int| mode3_pixel(video@, y as int, x)));
}

/// Mode 4: 240×160, 8-bit palette indices, two frames. Index 0 is
/// transparent.
pub fn render_mode4(video: &VideoMemory, frame1: bool, y: usize, out: &mut [u16; 240])
    requires
        video.wf(),
        frame_start(frame1) + 240 * y + 240 <= VRAM_SIZE,
    ensures
        final(out)@ == Seq::new(240, |x: int| mode4_pixel(video@, frame1, y as int, x)),
{
    let base: usize = (if frame1 {
        FRAME1_OFFSET
    } else {
        0
    }) + 240 * y;
    for x in 0..SCREEN_WIDTH
        invariant
            video.wf(),
            base == frame_start(frame1) + 240 * y,
            base + 240 <= VRAM_SIZE,
            forall|k: int| 0 <= k < x ==> out@[k] == mode4_pixel(video@, frame1, y as int, k),
    {
        let index: u8 = video.vram[base + x];
        out[x] =
        if index == 0 {
            TRANSPARENT
        } else {
            palette_entry(video, index as usize)
        };
    }
    assert(out@ =~= Seq::new(240, |x: int| mode4_pixel(video@, frame1, y as int, x)));
}

/// Mode 5: 160×128, 16-bit colour, two frames. Outside the bitmap the
/// layer is transparent.
pub fn render_mode5(video: &VideoMemory, frame1: bool, y: usize, out: &mut [u16; 240])
    requires
        video.wf(),
    ensures
        final(out)@ == Seq::new(240, |x: int| mode5_pixel(video@, frame1, y as int, x)),
{
    let start: usize = if frame1 {
        FRAME1_OFFSET
    } else {
        0
    };
    for x in 0..SCREEN_WIDTH
        invariant
            video.wf(),
            start == frame_start(frame1),
            start <= 0xA000,
            forall|k: int| 0 <= k < x ==> out@[k] == mode5_pixel(video@, frame1, y as int, k),
    {
        out[x] =
        if y < 128 && x < 160 {
            get16(video.vram.as_slice(), start + 320 * y + 2 * x) & 0x7FFF
        } else {
            TRANSPARENT
        };
    }
    assert(out@ =~= Seq::new(240, |x: int| mode5_pixel(video@, frame1, y as int, x)));
}

/// Entry `index` of the background palette as a 15-bit colour.
#[inline]
#[must_use]
pub fn palette_entry(video: &VideoMemory, index: usize) -> (color: u16)
    requires
        video.wf(),
        index < 512,
    ensures
        color == palette_color(video@, index as int),
{
    get16(video.palette.as_slice(), 2 * index) & 0x7FFF
}

} // verus!
