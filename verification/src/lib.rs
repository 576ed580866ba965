//! Cycle-stepped emulation of a 6502-derived console CPU and the memory bus
//! that routes its accesses to work RAM, co-processor register windows and
//! cartridge storage.

pub mod error;
pub mod hardware;
pub mod header;
pub mod memory;

pub use error::RustNesError;
pub use hardware::cpu::MOS6502;
pub use header::NESHeader;
