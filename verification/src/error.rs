//! Crate-wide error type.

use vstd::prelude::*;

use crate::patch::PatchError;

verus! {

/// Errors that can occur while loading or running the emulator.
#[allow(inconsistent_fields)]
#[derive(Debug)]
#[non_exhaustive]
pub enum GbaError {
    /// The ROM is larger than the 32 MiB cartridge address space.
    RomTooLarge {
        /// Actual size of the file.
        size: usize,
        /// Maximum size the cartridge bus can address.
        max: usize,
    },
    /// The ROM is too small to contain a cartridge header.
    RomTooSmall {
        /// Actual size of the file.
        size: usize,
        /// Minimum size for a valid header.
        min: usize,
    },
    /// A BIOS image was not exactly 16 KiB.
    BiosSize {
        /// Actual size of the image.
        size: usize,
        /// Required size.
        expected: usize,
    },
    /// The cartridge header failed validation.
    InvalidHeader(String),
    /// A ROM patch could not be applied.
    Patch(PatchError),
    /// The bytes handed to [`Snapshot::from_bytes`](crate::Snapshot::from_bytes)
    /// are not a save state at all.
    StateFormat,
    /// The save state was written by a build whose state layout differs
    /// from this one's.
    StateVersion {
        /// Version stamped into the file.
        found: u16,
        /// Version this build writes and reads.
        expected: u16,
    },
    /// The save state was taken from a different cartridge than the one
    /// running. Restoring it would put one game's memory behind another
    /// game's code.
    StateCartridge,
    /// The save state is the right shape but its contents did not decode.
    StateCorrupt(String),
    /// A memory access hit an address with no mapped device.
    UnmappedAddress {
        /// The faulting address.
        address: u32,
    },
}

/// Convenience alias used throughout the crate.
pub type Result<T> = core::result::Result<T, GbaError>;

} // verus!
