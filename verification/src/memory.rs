use vstd::prelude::*;

verus! {

/// A flat image of the whole 16-bit address space.
pub type Memory = [u8; 65536];

/// The byte at `address`.
pub fn get(memory: &Memory, address: u16) -> (value: u8)
    ensures
        value == memory@[address as int],
{
    memory[address as usize]
}

} // verus!
