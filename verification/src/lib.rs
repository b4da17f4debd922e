//! Instruction-level model of a 6502-family microprocessor driving a
//! memory-mapped bus shared with peripheral devices.
//!
//! The execution engine ([`cpu::CPU6502`]) runs one instruction per
//! [`cpu::CPU6502::tick`] call; the bus ([`bus::Bus`]) decodes the 16-bit
//! address space into RAM, mirrored RAM, peripheral register windows and the
//! cartridge window, delegating to pluggable devices through the
//! [`mapper::Mapper`] capability.

pub mod status;
pub mod mapper;
pub mod cartridge;
pub mod ppu;
pub mod bus;
pub mod cpu;

pub use bus::Bus;
pub use cartridge::Cartridge;
pub use cpu::CPU6502;
pub use mapper::BinaryHandler;
pub use mapper::Mapper;
pub use ppu::PPU;
