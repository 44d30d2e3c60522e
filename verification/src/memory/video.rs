//! Video memory: palette RAM, VRAM and OAM.
//!
//! Kept separate from the bus so the PPU can borrow it read-only during
//! rendering without touching the rest of the system.

use vstd::prelude::*;

use crate::memory::{OAM_SIZE, PALETTE_SIZE, VRAM_SIZE};

verus! {

broadcast use crate::bits::group_mask_bounds;

/// The three video memories, each in its own mirror domain.
#[derive(Debug)]
pub struct VideoMemory {
    /// Palette RAM, 1 KiB, mirrored every 1 KiB.
    pub palette: Vec<u8>,
    /// VRAM, 96 KiB. Mirrored every 128 KiB, with the upper 32 KiB of each
    /// 128 KiB block mirroring the block's `0x10000..0x18000` range.
    pub vram: Vec<u8>,
    /// Object attribute memory, 1 KiB, mirrored every 1 KiB.
    pub oam: Vec<u8>,
}

/// The mathematical video memories.
#[verifier::ext_equal]
pub struct VideoView {
    /// Palette RAM.
    pub palette: Seq<u8>,
    /// VRAM.
    pub vram: Seq<u8>,
    /// Object attribute memory.
    pub oam: Seq<u8>,
}

impl View for VideoMemory {
    type V = VideoView;

    open spec fn view(&self) -> VideoView {
        VideoView { palette: self.palette@, vram: self.vram@, oam: self.oam@ }
    }
}

impl VideoView {
    /// The memories have their sizes.
    pub open spec fn wf(self) -> bool {
        &&& self.palette.len() == PALETTE_SIZE
        &&& self.vram.len() == VRAM_SIZE
        &&& self.oam.len() == OAM_SIZE
    }

    /// Zeroed memories.
    pub open spec fn initial() -> VideoView {
        VideoView {
            palette: Seq::new(PALETTE_SIZE as nat, |i: int| 0u8),
            vram: Seq::new(VRAM_SIZE as nat, |i: int| 0u8),
            oam: Seq::new(OAM_SIZE as nat, |i: int| 0u8),
        }
    }
}

/// Where VRAM offset `offset` lies: 128 KiB mirrors whose upper 32 KiB
/// repeat the 32 KiB below them.
pub open spec fn vram_position(offset: u32) -> int {
    let off = (offset & 0x1_FFFF) as int;
    if off >= VRAM_SIZE {
        off - 0x8000
    } else {
        off
    }
}

/// Where palette offset `offset` lies.
pub open spec fn palette_position(offset: u32) -> int {
    (offset & 0x3FF) as int
}

/// Where OAM offset `offset` lies.
pub open spec fn oam_position(offset: u32) -> int {
    (offset & 0x3FF) as int
}

impl Clone for VideoMemory {
    fn clone(&self) -> (copy: Self)
        ensures
            copy@ == self@,
    {
        let palette = self.palette.clone();
        let vram = self.vram.clone();
        let oam = self.oam.clone();
        assert(palette@ =~= self.palette@);
        assert(vram@ =~= self.vram@);
        assert(oam@ =~= self.oam@);
        Self { palette, vram, oam }
    }
}

impl Default for VideoMemory {
    fn default() -> (video: Self)
        ensures
            video.wf(),
            video@ == VideoView::initial(),
    {
        Self::new()
    }
}

impl VideoMemory {
    /// The memories have their sizes.
    pub open spec fn wf(&self) -> bool {
        self@.wf()
    }

    /// Allocates zeroed video memory.
    #[must_use]
    pub fn new() -> (video: Self)
        ensures
            video.wf(),
            video@ == VideoView::initial(),
    {
        let video = Self {
            palette: vec![0u8; PALETTE_SIZE],
            vram: vec![0u8; VRAM_SIZE],
            oam: vec![0u8; OAM_SIZE],
        };
        assert(video@ =~= VideoView::initial());
        video
    }

    /// Maps a VRAM offset (low 24 bits of the address) into `0..VRAM_SIZE`.
    #[inline]
    #[must_use]
    pub fn vram_index(offset: u32) -> (index: usize)
        ensures
            index == vram_position(offset),
            index < VRAM_SIZE,
    {
        let off: usize = (offset & 0x1_FFFF) as usize;
        if off >= VRAM_SIZE {
            off - 0x8000
        } else {
            off
        }
    }

    /// Maps a palette offset into `0..PALETTE_SIZE`.
    #[inline]
    #[must_use]
    pub fn palette_index(offset: u32) -> (index: usize)
        ensures
            index == palette_position(offset),
            index < PALETTE_SIZE,
    {
        (offset & 0x3FF) as usize
    }

    /// Maps an OAM offset into `0..OAM_SIZE`.
    #[inline]
    #[must_use]
    pub fn oam_index(offset: u32) -> (index: usize)
        ensures
            index == oam_position(offset),
            index < OAM_SIZE,
    {
        (offset & 0x3FF) as usize
    }
}

} // verus!
