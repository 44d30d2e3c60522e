//! Bus access timing: how many cycles each region takes to answer.
//!
//! Every access costs at least one cycle. Slow regions add *wait states*:
//! EWRAM and the cartridge sit on a 16-bit bus, so a 32-bit access is two
//! halfword accesses back to back, and the cartridge distinguishes
//! *non-sequential* (`N`) accesses from *sequential* (`S`) ones that
//! continue where the previous access ended. `WAITCNT` lets software tune
//! the cartridge and SRAM timings; everything else is fixed.

use vstd::prelude::*;

verus! {

broadcast use crate::bits::group_mask_bounds;

/// Cycle cost of accessing one region, by width and sequentiality.
/// Byte accesses cost the same as halfword accesses.
#[derive(Debug, Clone, Copy, PartialEq, Eq, Structural)]
pub struct Access {
    /// Non-sequential 8/16-bit.
    pub n16: u8,
    /// Sequential 8/16-bit.
    pub s16: u8,
    /// Non-sequential 32-bit.
    pub n32: u8,
    /// Sequential 32-bit.
    pub s32: u8,
}

/// A region whose cost never depends on history.
pub open spec fn fixed_access(c16: u8, c32: u8) -> Access {
    Access { n16: c16, s16: c16, n32: c32, s32: c32 }
}

/// A 16-bit-bus region: a word is one `N` then one `S` halfword.
pub open spec fn halfword_access(n: u8, s: u8) -> Access {
    Access { n16: n, s16: s, n32: (n + s) as u8, s32: (s + s) as u8 }
}

impl Access {
    /// Every access costs at least one cycle, and at most eighteen.
    pub open spec fn wf(self) -> bool {
        &&& 1 <= self.n16 <= 18
        &&& 1 <= self.s16 <= 18
        &&& 1 <= self.n32 <= 18
        &&& 1 <= self.s32 <= 18
    }

    /// Cost of an access of `width` bytes.
    pub open spec fn cost(self, width: u32, sequential: bool) -> u32 {
        if width == 4 {
            if sequential {
                self.s32 as u32
            } else {
                self.n32 as u32
            }
        } else {
            if sequential {
                self.s16 as u32
            } else {
                self.n16 as u32
            }
        }
    }

    /// A region whose cost never depends on history.
    #[must_use]
    pub fn fixed(c16: u8, c32: u8) -> (access: Self)
        ensures
            access == fixed_access(c16, c32),
    {
        Self { n16: c16, s16: c16, n32: c32, s32: c32 }
    }

    /// A 16-bit-bus region: a word is one `N` then one `S` halfword.
    fn halfword_bus(n: u8, s: u8) -> (access: Self)
        requires
            n <= 9,
            s <= 9,
        ensures
            access == halfword_access(n, s),
    {
        Self { n16: n, s16: s, n32: n + s, s32: s + s }
    }

    /// Cost of an access of `width` bytes.
    #[inline]
    #[must_use]
    pub fn cycles(self, width: u32, sequential: bool) -> (cycles: u32)
        ensures
            cycles == self.cost(width, sequential),
    {
        let c: u8 = match (width, sequential) {
            (4, false) => self.n32,
            (4, true) => self.s32,
            (_, false) => self.n16,
            (_, true) => self.s16,
        };
        c as u32
    }
}

/// Access costs for every 16 MiB page of the address space.
#[derive(Debug, Clone, Copy)]
pub struct WaitStates {
    /// Costs by page, the low four bits of the top address byte.
    pub pages: [Access; 16],
    /// `WAITCNT` bit 14: the cartridge prefetch buffer is enabled.
    pub prefetch: bool,
}

/// The mathematical timing table.
#[verifier::ext_equal]
pub struct WaitStatesView {
    /// Costs by page.
    pub pages: Seq<Access>,
    /// Whether the prefetch buffer is enabled.
    pub prefetch: bool,
}

impl View for WaitStates {
    type V = WaitStatesView;

    open spec fn view(&self) -> WaitStatesView {
        WaitStatesView { pages: self.pages@, prefetch: self.prefetch }
    }
}

/// Cycles of a first access: the two-bit field at `shift` selects 4, 3, 2 or
/// 8 wait states.
pub open spec fn first_access(value: u16, shift: u16) -> u8 {
    let field = (value >> shift) & 0b11;
    if field == 0 {
        5
    } else if field == 1 {
        4
    } else if field == 2 {
        3
    } else {
        9
    }
}

/// Cycles of a second access: bit `shift` selects one wait state instead of
/// `slow`.
pub open spec fn second_access(value: u16, shift: u16, slow: u8) -> u8 {
    if value & (1u16 << shift) != 0 {
        2
    } else {
        (slow + 1) as u8
    }
}

/// Costs of page `page` (0–15) when `WAITCNT` holds `value`.
pub open spec fn page_access(value: u16, page: int) -> Access {
    if page == 2 {
        halfword_access(3, 3)  // EWRAM

    } else if page == 5 || page == 6 {
        fixed_access(1, 2)  // palette, VRAM

    } else if page == 8 || page == 9 {
        halfword_access(first_access(value, 2), second_access(value, 4, 2))
    } else if page == 10 || page == 11 {
        halfword_access(first_access(value, 5), second_access(value, 7, 4))
    } else if page == 12 || page == 13 {
        halfword_access(first_access(value, 8), second_access(value, 10, 8))
    } else if page == 14 || page == 15 {
        fixed_access(first_access(value, 0), first_access(value, 0))
    } else {
        fixed_access(1, 1)  // BIOS, unused, IWRAM, I/O, OAM

    }
}

impl WaitStatesView {
    /// The table that `WAITCNT` value `value` selects.
    pub open spec fn decoded(value: u16) -> WaitStatesView {
        WaitStatesView {
            pages: Seq::new(16, |page: int| page_access(value, page)),
            prefetch: value & (1u16 << 14) != 0,
        }
    }

    /// The costs of the page containing `address`.
    pub open spec fn page(self, address: u32) -> Access {
        self.pages[((address >> 24) & 0xF) as int]
    }
}

impl Default for WaitStates {
    fn default() -> (wait: Self)
        ensures
            wait.wf(),
            wait@ == WaitStatesView::decoded(0),
    {
        Self::from_waitcnt(0)
    }
}

impl WaitStates {
    /// Every page has sensible costs.
    pub open spec fn wf(&self) -> bool {
        forall|i: int| 0 <= i < 16 ==> (#[trigger] self.pages@[i]).wf()
    }

    fn first(value: u16, shift: u16) -> (cycles: u8)
        requires
            shift < 16,
        ensures
            cycles == first_access(value, shift),
            3 <= cycles <= 9,
    {
        // Wait states (not counting the access cycle itself).
        let field: u16 = (value >> shift) & 0b11;
        match field {
            0 => 4 + 1,
            1 => 3 + 1,
            2 => 2 + 1,
            _ => 8 + 1,
        }
    }

    fn second(value: u16, shift: u16, slow: u8) -> (cycles: u8)
        requires
            shift < 16,
            slow <= 8,
        ensures
            cycles == second_access(value, shift, slow),
            1 <= cycles <= 9,
    {
        if value & (1u16 << shift) != 0 {
            2
        } else {
            slow + 1
        }
    }

    /// Decodes `WAITCNT`.
    #[must_use]
    pub fn from_waitcnt(value: u16) -> (wait: Self)
        ensures
            wait.wf(),
            wait@ == WaitStatesView::decoded(value),
    {
        let sram = Access::fixed(Self::first(value, 0), Self::first(value, 0));
        let ws0 = Access::halfword_bus(Self::first(value, 2), Self::second(value, 4, 2));
        let ws1 = Access::halfword_bus(Self::first(value, 5), Self::second(value, 7, 4));
        let ws2 = Access::halfword_bus(Self::first(value, 8), Self::second(value, 10, 8));

        let one = Access::fixed(1, 1);
        let video = Access::fixed(1, 2);
        let pages = [
            one,  // 0x00 BIOS
            one,  // 0x01 unused
            Access::halfword_bus(3, 3),  // 0x02 EWRAM
            one,  // 0x03 IWRAM
            one,  // 0x04 I/O
            video,  // 0x05 palette
            video,  // 0x06 VRAM
            one,  // 0x07 OAM
            ws0,
            ws0,  // 0x08–0x09
            ws1,
            ws1,  // 0x0A–0x0B
            ws2,
            ws2,  // 0x0C–0x0D
            sram,
            sram,  // 0x0E–0x0F
        ];
        let wait = Self { pages, prefetch: value & (1u16 << 14) != 0 };
        assert(wait@.pages =~= WaitStatesView::decoded(value).pages);
        wait
    }

    /// The access costs of the page containing `address`.
    #[inline]
    #[must_use]
    pub fn page(&self, address: u32) -> (access: Access)
        ensures
            access == self@.page(address),
            self.wf() ==> access.wf(),
    {
        self.pages[((address >> 24) & 0xF) as usize]
    }
}

} // verus!
