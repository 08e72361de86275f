//! A cycle-counted emulation core for the NES: the 6502-derived CPU, the 2C02
//! picture processing unit, and the memory bus that joins them to work RAM,
//! the cartridge and the controller port.
//!
//! Nothing here owns a thread, a window or a file. A driver owns the [`Nes`],
//! or its parts, and lends the [`Bus`] to [`Cpu::clock`] and [`Ppu::clock`] in
//! turn, one CPU tick for every three PPU dots.

/// What each instruction does to the registers.
pub mod alu;
/// The memory bus.
pub mod bus;
/// Cartridge images and the simplest board.
pub mod cartridge;
/// The CPU core.
pub mod cpu;
/// Trace output.
pub mod disasm;
/// Controller one.
pub mod input;
/// The instruction set as tables.
pub mod opcodes;
/// The picture processing unit.
pub mod ppu;
/// The PPU's register file.
pub mod ppu_data;
/// Work RAM and video RAM.
pub mod ram;
/// The console as a whole.
pub mod system;
/// Small helpers.
pub mod utils;

pub use crate::bus::Bus;
pub use crate::cartridge::{Cart, CartError, NesHeader};
pub use crate::cpu::{Cpu, Flags, Machine, Tick};
pub use crate::disasm::{get_asm, output_debug_info};
pub use crate::input::Input;
pub use crate::opcodes::{AddrM, Op, ADDRESSING_MODE_LOOKUP};
pub use crate::ppu::{Ppu, Video};
pub use crate::ppu_data::PpuData;
pub use crate::ram::Ram;
pub use crate::system::Nes;
pub use crate::utils::readbuf_vec;
