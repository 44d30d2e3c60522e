//! Game Boy Advance emulator core.
//!
//! This crate is completely frontend-agnostic: it knows nothing about
//! terminals, windows or audio devices. A frontend drives the emulator by
//! stepping it, feeding it input state and reading back the framebuffer.
//!
//! # Module layout
//!
//! - [`error`]: the crate-wide [`GbaError`] type.
//! - [`memory`]: the address-space layout, bus, cartridge and devices.
//! - [`cpu`]: the ARM7TDMI core.
//! - [`bios`]: BIOS calls, serviced in software.
//! - [`ppu`]: LCD timing and scanline rendering into a framebuffer.
//! - [`apu`]: the sound unit.
//! - [`gba`]: the whole machine.
//! - [`state`]: save states.
//! - [`patch`]: ROM patches.

pub mod apu;
pub mod bios;
pub mod bits;
pub mod bytes;
pub mod bytes_laws;
pub mod cpu;
pub mod error;
pub mod gba;
pub mod gba_laws;
pub mod memory;
pub mod patch;
pub mod patch_laws;
pub mod ppu;
pub mod state;

pub use cpu::Cpu;
pub use error::{GbaError, Result};
pub use gba::Gba;
pub use memory::{Bus, Cartridge, Memory};
pub use ppu::{Framebuffer, Ppu, SCREEN_HEIGHT, SCREEN_WIDTH};
pub use state::Snapshot;
