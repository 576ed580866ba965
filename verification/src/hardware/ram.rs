use vstd::prelude::*;

verus! {

/// Number of bytes of work memory.
pub const RAM_SIZE: usize = 0x800;

/// The cell that an address falls on: work memory repeats every `RAM_SIZE`
/// bytes.
pub open spec fn spec_mirror(addr: u16) -> int {
    (addr as int) % (RAM_SIZE as int)
}

/// The console's internal work memory: two kibibytes, addressed modulo its
/// size.
pub struct WorkMemory {
    memory: [u8; 0x800],
}

impl View for WorkMemory {
    type V = Seq<u8>;

    closed spec fn view(&self) -> Seq<u8> {
        self.memory@
    }
}

impl WorkMemory {
    /// Work memory always holds exactly `RAM_SIZE` cells.
    pub proof fn lemma_len(&self)
        ensures
            self@.len() == RAM_SIZE,
    {
    }

    /// Work memory with every cell cleared.
    pub fn new() -> (mem: Self)
        ensures
            mem@.len() == RAM_SIZE,
            forall|i: int| 0 <= i < RAM_SIZE ==> mem@[i] == 0,
    {
        Self { memory: [0; 0x800] }
    }

    /// The byte in the cell that `addr` falls on.
    pub fn read(&self, addr: u16) -> (value: u8)
        ensures
            value == self@[spec_mirror(addr)],
    {
        assert(addr & 0x07FF == addr % 0x800) by (bit_vector);
        self.memory[(addr & 0x07FF) as usize]
    }

    /// Stores `value` in the cell that `addr` falls on and leaves every other
    /// cell as it was.
    pub fn write(&mut self, addr: u16, value: u8)
        ensures
            final(self)@ == old(self)@.update(spec_mirror(addr), value),
    {
        assert(addr & 0x07FF == addr % 0x800) by (bit_vector);
        self.memory[(addr & 0x07FF) as usize] = value;
    }
}

} // verus!
