use vstd::prelude::*;

verus! {

/// The byte that every register of the stand-in reads as.
pub const PPU_OPEN_VALUE: u8 = 0;

/// Stand-in for the picture unit. It is addressed by register: it keeps the
/// last store it was handed, register and value, and does nothing with it
/// yet, and every register reads as `PPU_OPEN_VALUE`.
#[derive(Clone, Copy, Debug, PartialEq, Eq)]
pub struct PPU {
    pub last_write: Option<(u16, u8)>,
}

impl PPU {
    /// The byte that the unit gives when `register` is read.
    ///
    /// Closed, so that a contract built on it has to name the register that
    /// is read; `lemma_spec_read` says what the byte is.
    pub closed spec fn spec_read(self, register: u16) -> u8 {
        PPU_OPEN_VALUE
    }

    /// The unit after `value` was stored in `register`.
    pub open spec fn spec_write(self, register: u16, value: u8) -> PPU {
        PPU { last_write: Some((register, value)) }
    }

    /// Every register reads as the open value, whatever was stored before.
    pub proof fn lemma_spec_read(self, register: u16)
        ensures
            self.spec_read(register) == PPU_OPEN_VALUE,
    {
    }

    /// A unit that was never written to.
    pub fn new() -> (ppu: Self)
        ensures
            ppu.last_write is None,
    {
        Self { last_write: None }
    }

    /// Reads the register at `address`.
    pub fn read(&self, address: u16) -> (value: u8)
        ensures
            value == self.spec_read(address),
            value == PPU_OPEN_VALUE,
    {
        PPU_OPEN_VALUE
    }

    /// Stores `value` in the register at `address`.
    pub fn write(&mut self, address: u16, value: u8)
        ensures
            *final(self) == old(self).spec_write(address, value),
    {
        self.last_write = Some((address, value));
    }
}

} // verus!
