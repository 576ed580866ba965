//! The hardware blocks of the console and the bus that joins them.

pub mod apu;
pub mod bus;
pub mod cart;
pub mod cpu;
pub mod ppu;
pub mod ram;
pub mod rom;

pub use apu::APU;
pub use bus::Bus;
pub use cart::Cart;
pub use cpu::MOS6502;
pub use ppu::PPU;
pub use ram::WorkMemory;
pub use rom::ROM;
