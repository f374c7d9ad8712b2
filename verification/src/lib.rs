//! Cycle-synchronized emulation core for a 6502-based 8-bit home console.
//!
//! The crate models the console as a single-owner tree: the [`cpu::CPU`]
//! drives the clock and owns the [`bus::Bus`], which owns internal RAM, the
//! picture processor ([`ppu::Ppu`]), the audio unit ([`apu::APU`]), the
//! [`controller::Controller`] and the [`cartridge::Cartridge`]. Every
//! component carries a mathematical view (a ghost mirror of its state), and
//! every state transition is pinned down by a specification function over
//! those views, so that one machine state determines the whole subsequent
//! execution.

pub mod apu;
pub mod bus;
pub mod cartridge;
pub mod controller;
pub mod cpu;
pub mod ppu;
