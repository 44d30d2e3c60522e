//! `DISPSTAT` bit layout.

use vstd::prelude::*;

verus! {

pub const VBLANK: u16 = 1 << 0;
pub const HBLANK: u16 = 1 << 1;
pub const VCOUNT_MATCH: u16 = 1 << 2;
pub const VBLANK_IRQ: u16 = 1 << 3;
pub const HBLANK_IRQ: u16 = 1 << 4;
pub const VCOUNT_IRQ: u16 = 1 << 5;

} // verus!
