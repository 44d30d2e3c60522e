//! Interrupt sources.

use vstd::prelude::*;

verus! {

/// Interrupt sources, in the order of their bits in `IE`/`IF`.
#[derive(Debug, Clone, Copy, PartialEq, Eq, Structural)]
pub enum Interrupt {
    VBlank,
    HBlank,
    VCount,
    Timer0,
    Timer1,
    Timer2,
    Timer3,
    Serial,
    Dma0,
    Dma1,
    Dma2,
    Dma3,
    Keypad,
    GamePak,
}

/// The number of the `IE`/`IF` bit of `source`.
pub open spec fn interrupt_bit(source: Interrupt) -> u16 {
    match source {
        Interrupt::VBlank => 0,
        Interrupt::HBlank => 1,
        Interrupt::VCount => 2,
        Interrupt::Timer0 => 3,
        Interrupt::Timer1 => 4,
        Interrupt::Timer2 => 5,
        Interrupt::Timer3 => 6,
        Interrupt::Serial => 7,
        Interrupt::Dma0 => 8,
        Interrupt::Dma1 => 9,
        Interrupt::Dma2 => 10,
        Interrupt::Dma3 => 11,
        Interrupt::Keypad => 12,
        Interrupt::GamePak => 13,
    }
}

/// The `IE`/`IF` mask of `source`.
pub open spec fn interrupt_mask(source: Interrupt) -> u16 {
    1u16 << interrupt_bit(source)
}

impl Interrupt {
    /// The `IE`/`IF` bit for this source.
    #[must_use]
    pub fn mask(self) -> (mask: u16)
        ensures
            mask == interrupt_mask(self),
    {
        let bit: u16 = match self {
            Interrupt::VBlank => 0,
            Interrupt::HBlank => 1,
            Interrupt::VCount => 2,
            Interrupt::Timer0 => 3,
            Interrupt::Timer1 => 4,
            Interrupt::Timer2 => 5,
            Interrupt::Timer3 => 6,
            Interrupt::Serial => 7,
            Interrupt::Dma0 => 8,
            Interrupt::Dma1 => 9,
            Interrupt::Dma2 => 10,
            Interrupt::Dma3 => 11,
            Interrupt::Keypad => 12,
            Interrupt::GamePak => 13,
        };
        1u16 << bit
    }
}

} // verus!
