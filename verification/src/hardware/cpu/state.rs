use crate::hardware::cpu::instr_def::MicroOp;
use std::collections::VecDeque;
use vstd::prelude::*;

verus! {

/// The processor's hidden registers: the last byte fetched, the two address
/// latches that an instruction assembles its operand address in, the address
/// that was last put on the bus, and the micro-operations that are still to
/// run.
pub struct MOSState {
    pub data_latch: u8,
    pub abs_addr_latch: u16,
    pub zpg_addr_latch: u8,
    pub address_bus: u16,
    pub u_op_queue: VecDeque<MicroOp>,
}

impl MOSState {
    /// Cleared latches and nothing pending.
    pub fn new() -> (state: Self)
        ensures
            state.data_latch == 0,
            state.abs_addr_latch == 0,
            state.zpg_addr_latch == 0,
            state.address_bus == 0,
            state.u_op_queue@ == Seq::<MicroOp>::empty(),
    {
        Self {
            data_latch: 0,
            abs_addr_latch: 0,
            zpg_addr_latch: 0,
            address_bus: 0,
            u_op_queue: VecDeque::new(),
        }
    }
}

} // verus!
