use vstd::prelude::*;

verus! {

/// A read-only block of bytes addressed from zero.
pub struct ROM {
    data: Vec<u8>,
}

impl View for ROM {
    type V = Seq<u8>;

    closed spec fn view(&self) -> Seq<u8> {
        self.data@
    }
}

impl ROM {
    pub fn new(data: Vec<u8>) -> (rom: Self)
        ensures
            rom@ == data@,
    {
        Self { data }
    }

    /// The byte stored at `address`, which must lie inside the block.
    pub fn read(&self, address: u16) -> (value: u8)
        requires
            address < self@.len(),
        ensures
            value == self@[address as int],
    {
        self.data[address as usize]
    }
}

} // verus!
