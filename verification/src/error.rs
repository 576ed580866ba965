use vstd::prelude::*;

verus! {

/// Everything that can go wrong while loading a cartridge or running the CPU.
#[derive(Clone, Copy, Debug, PartialEq, Eq, Structural)]
pub enum RustNesError {
    /// The cartridge image does not start with the expected signature.
    InvalidHeader,
    /// The halt instruction was fetched; an expected signal, not a fault.
    Break,
    /// An address resolved outside every backing store.
    OutOfBounds,
    /// The fetched byte has no instruction definition.
    InvalidOpcode(u8),
}

} // verus!
