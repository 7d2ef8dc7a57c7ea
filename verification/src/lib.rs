//! A cycle-stepped model of the NES: 6502 core, picture unit, sound unit,
//! cartridge mappers and the bus that ties them together.
//!
//! Every state change is described by a pure transition function; the
//! executable methods are proved to compute exactly those transitions.

pub mod apu;
pub mod bits;
pub mod bus;
pub mod cart;
pub mod cpu;
pub mod emu;
pub mod ppu;

pub use crate::apu::resampler::Resampler;
pub use crate::apu::Apu;
pub use crate::bus::joystick::InputStates;
pub use crate::bus::Bus;
pub use crate::cart::Cartridge;
pub use crate::cpu::Cpu;
pub use crate::ppu::Ppu;
use vstd::prelude::*;

verus! {

/// NTSC master clock in Hz.
pub const MASTER_CLOCK: u64 = 21_477_272;

/// The CPU runs at `MASTER_CLOCK / CPU_DIVIDER` Hz.
pub const CPU_DIVIDER: u64 = 12;

/// Rate of the sound unit's frame sequencer in Hz.
pub const APU_FRAME_FREQUENCY: u64 = 240;

} // verus!
