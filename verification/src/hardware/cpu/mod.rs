//! The processor core: registers, hidden latches, the queue of pending
//! micro-operations, and the single-cycle step that drives them.

pub mod instr_def;
pub mod instructions;
pub mod micro_ops;
pub mod model;
pub mod state;
pub mod status;
pub mod theorems;
pub mod timing;

use crate::error::RustNesError;
use crate::hardware::bus::Bus;
use crate::hardware::cpu::instructions::InstructionTable;
use crate::hardware::cpu::model::{
    BRK_OPCODE,
    RESET_STACK_PTR,
    RESET_VECTOR_HIGH,
    RESET_VECTOR_LOW,
};
use vstd::prelude::*;

pub use instr_def::{InstrDef, MicroOp};
pub use model::CpuView;
pub use state::MOSState;
pub use status::{Flag, Status};

verus! {

/// The processor. It owns the bus, so every memory access of a
/// micro-operation goes through it and nothing else touches the bus while
/// the processor runs.
///
/// It keeps track of where it stands inside an instruction: the
/// micro-operations that are still to run wait in a queue, one for each
/// clock cycle. The processor knows nothing of what lies behind an address;
/// decoding is the bus's work.
pub struct MOS6502 {
    pub(crate) bus: Bus,
    pub(crate) program_counter: u16,
    pub(crate) a: u8,
    pub(crate) x: u8,
    pub(crate) y: u8,
    pub(crate) status: Status,
    pub(crate) stack_ptr: u8,
    pub(crate) state: MOSState,
    pub(crate) instructions: InstructionTable,
}

impl View for MOS6502 {
    type V = CpuView;

    open(crate) spec fn view(&self) -> CpuView {
        CpuView {
            program_counter: self.program_counter,
            a: self.a,
            x: self.x,
            y: self.y,
            status: self.status@,
            stack_ptr: self.stack_ptr,
            data_latch: self.state.data_latch,
            abs_addr_latch: self.state.abs_addr_latch,
            zpg_addr_latch: self.state.zpg_addr_latch,
            address_bus: self.state.address_bus,
            queue: self.state.u_op_queue@,
            bus: self.bus@,
        }
    }
}

impl MOS6502 {
    /// A processor wired to `bus`, with cleared registers and latches and
    /// nothing pending.
    pub fn new(bus: Bus) -> (cpu: Self)
        ensures
            cpu@ == (CpuView {
                program_counter: 0,
                a: 0,
                x: 0,
                y: 0,
                status: 0,
                stack_ptr: 0,
                data_latch: 0,
                abs_addr_latch: 0,
                zpg_addr_latch: 0,
                address_bus: 0,
                queue: Seq::empty(),
                bus: bus@,
            }),
    {
        Self {
            bus,
            program_counter: 0,
            a: 0,
            x: 0,
            y: 0,
            status: Status::empty(),
            stack_ptr: 0,
            state: MOSState::new(),
            instructions: InstructionTable::new(),
        }
    }

    /// The address of the next byte that the processor will fetch.
    pub fn program_counter(&self) -> (value: u16)
        ensures
            value == self@.program_counter,
    {
        self.program_counter
    }

    /// The accumulator.
    pub fn a(&self) -> (value: u8)
        ensures
            value == self@.a,
    {
        self.a
    }

    /// Index register X.
    pub fn x(&self) -> (value: u8)
        ensures
            value == self@.x,
    {
        self.x
    }

    /// Index register Y.
    pub fn y(&self) -> (value: u8)
        ensures
            value == self@.y,
    {
        self.y
    }

    /// The status register.
    pub fn status(&self) -> (value: Status)
        ensures
            value@ == self@.status,
    {
        self.status
    }

    /// The stack pointer.
    pub fn stack_ptr(&self) -> (value: u8)
        ensures
            value == self@.stack_ptr,
    {
        self.stack_ptr
    }

    /// The hidden latches and the pending micro-operations.
    pub fn state(&self) -> (state: &MOSState)
        ensures
            state.data_latch == self@.data_latch,
            state.abs_addr_latch == self@.abs_addr_latch,
            state.zpg_addr_latch == self@.zpg_addr_latch,
            state.address_bus == self@.address_bus,
            state.u_op_queue@ == self@.queue,
    {
        &self.state
    }

    /// How many micro-operations are pending; zero at an instruction
    /// boundary.
    pub fn pending(&self) -> (count: usize)
        ensures
            count == self@.queue.len(),
    {
        self.state.u_op_queue.len()
    }

    /// The bus that the processor is wired to.
    pub fn bus(&self) -> (bus: &Bus)
        ensures
            bus@ == self@.bus,
    {
        &self.bus
    }

    /// Brings the processor to its power-on state. The cartridge must be on
    /// the bus by now: without one the reset vector reads as zero.
    pub fn reset(&mut self) -> (result: Result<(), RustNesError>)
        ensures
            result is Ok,
            final(self)@ == old(self)@.spec_reset(),
    {
        let high = self.bus_read(RESET_VECTOR_HIGH);
        let low = self.bus_read(RESET_VECTOR_LOW);
        assert(((high as u16) << 8) | (low as u16) == high * 0x100 + low) by (bit_vector);
        self.program_counter = ((high as u16) << 8) | (low as u16);
        let mut status = Status::empty();
        status.insert(Flag::Unused);
        self.status = status;
        self.stack_ptr = RESET_STACK_PTR;
        self.state.u_op_queue.clear();
        Ok(())
    }

    /// Advances the processor by one clock cycle.
    ///
    /// With a micro-operation pending, the first one is taken off the queue
    /// and run. Otherwise the opcode under the program counter is fetched
    /// and the program counter advances; the fetch is the instruction's
    /// first cycle, so its micro-operations are only queued. The halt opcode
    /// is reported as `Break`, any other opcode without a definition as
    /// `InvalidOpcode`; both leave the queue empty and the program counter
    /// past the opcode.
    pub fn step(&mut self) -> (result: Result<(), RustNesError>)
        ensures
            final(self)@ == old(self)@.spec_step(),
            result == old(self)@.spec_step_result(),
    {
        match self.state.u_op_queue.pop_front() {
            None => {
                let next_byte = self.get_prg();
                if next_byte == BRK_OPCODE {
                    return Err(RustNesError::Break);
                }
                let next_instr = self.instructions.lookup(next_byte);
                if next_instr.cycles == 0 {
                    assert(self@.queue =~= next_instr@);
                    return Err(RustNesError::InvalidOpcode(next_byte));
                }
                self.enqueue(&next_instr.as_vec());
                assert(self@.queue =~= next_instr@);
                Ok(())
            },
            Some(next) => {
                assert(self.state.u_op_queue@ =~= old(self)@.queue.drop_first());
                self.execute(next);
                Ok(())
            },
        }
    }

    /// Appends `ops` to the pending micro-operations, in order.
    pub(crate) fn enqueue(&mut self, ops: &Vec<MicroOp>)
        ensures
            final(self)@ == (CpuView { queue: old(self)@.queue + ops@, ..old(self)@ }),
    {
        let mut i: usize = 0;
        while i < ops.len()
            invariant
                i <= ops@.len(),
                self@ == (CpuView {
                    queue: old(self)@.queue + ops@.subrange(0, i as int),
                    ..old(self)@
                }),
            decreases ops@.len() - i,
        {
            self.state.u_op_queue.push_back(ops[i]);
            assert((old(self)@.queue + ops@.subrange(0, i as int)).push(ops@[i as int]) =~= old(
                self,
            )@.queue + ops@.subrange(0, i + 1));
            i += 1;
        }
        assert(ops@.subrange(0, i as int) =~= ops@);
    }

    /// Runs the micro-operation `op`.
    pub fn execute(&mut self, op: MicroOp)
        ensures
            final(self)@ == old(self)@.spec_apply(op),
    {
        reveal(CpuView::spec_apply);
        match op {
            MicroOp::ImmA => self.imm_a(),
            MicroOp::ImmY => self.imm_y(),
            MicroOp::ImmX => self.imm_x(),
            MicroOp::ImmZal => self.imm_zal(),
            MicroOp::ImmLoAal => self.imm_lo_aal(),
            MicroOp::ImmHiAal => self.imm_hi_aal(),
            MicroOp::ZalLda => self.zal_lda(),
            MicroOp::ZalLdx => self.zal_ldx(),
            MicroOp::ZalLdy => self.zal_ldy(),
            MicroOp::AalLda => self.aal_lda(),
            MicroOp::AalLdx => self.aal_ldx(),
            MicroOp::AalLdy => self.aal_ldy(),
            MicroOp::XAalLda => self.x_aal_lda(),
            MicroOp::YAalLda => self.y_aal_lda(),
            MicroOp::XAalLdy => self.x_aal_ldy(),
            MicroOp::YAalLdx => self.y_aal_ldx(),
            MicroOp::IndLoAal => self.ind_lo_aal(),
            MicroOp::IndHiAal => self.ind_hi_aal(),
            MicroOp::AalSty => self.aal_sty(),
            MicroOp::AalSta => self.aal_sta(),
            MicroOp::AalStx => self.aal_stx(),
            MicroOp::ZalSty => self.zal_sty(),
            MicroOp::ZalSta => self.zal_sta(),
            MicroOp::ZalStx => self.zal_stx(),
            MicroOp::Tax => self.tax(),
            MicroOp::Tay => self.tay(),
            MicroOp::Txa => self.txa(),
            MicroOp::Tya => self.tya(),
            MicroOp::AddXZal => self.add_x_zal(),
            MicroOp::AddYZal => self.add_y_zal(),
            MicroOp::AddXAal => self.add_x_aal(),
            MicroOp::AddYAal => self.add_y_aal(),
            MicroOp::Nop => self.nop(),
        }
    }

    /// Puts `address` on the bus and reads the byte there.
    pub(crate) fn bus_read(&mut self, address: u16) -> (value: u8)
        ensures
            value == old(self)@.bus.spec_read(address),
            final(self)@ == old(self)@.spec_addressed(address),
    {
        self.state.address_bus = address;
        self.bus.read(address)
    }

    /// Puts `address` on the bus and writes `value` there.
    pub(crate) fn bus_write(&mut self, address: u16, value: u8)
        ensures
            final(self)@ == old(self)@.spec_store(address, value),
    {
        self.state.address_bus = address;
        self.bus.write(address, value);
    }

    /// Fetches the byte under the program counter and advances the counter.
    pub(crate) fn get_prg(&mut self) -> (byte: u8)
        ensures
            byte == old(self)@.spec_operand(),
            final(self)@ == old(self)@.spec_fetched(),
    {
        let result = self.bus_read(self.program_counter);
        self.program_counter = self.program_counter.wrapping_add(1);
        result
    }

    /// Sets Negative and Zero from `number`.
    pub(crate) fn upd_nz(&mut self, number: u8)
        ensures
            final(self)@ == old(self)@.spec_upd_nz(number),
    {
        assert((number & 0x80 == 0x80) == (number >= 0x80)) by (bit_vector);
        self.status.set(Flag::Negative, number & 0x80 == 0x80);
        self.status.set(Flag::Zero, number == 0);
    }

    /// Fetches the byte under the program counter into the data latch and
    /// advances the counter.
    pub(crate) fn imm_dl(&mut self)
        ensures
            final(self)@ == old(self)@.spec_imm_dl(),
    {
        self.state.data_latch = self.bus_read(self.program_counter);
        self.program_counter = self.program_counter.wrapping_add(1);
    }
}

} // verus!
