use crate::error::RustNesError;
use crate::hardware::bus::BusView;
use crate::hardware::cpu::instr_def::MicroOp;
use crate::hardware::cpu::instructions::spec_micro_ops;
use crate::hardware::cpu::status;
use vstd::prelude::*;

verus! {

/// The opcode of the halt instruction.
pub const BRK_OPCODE: u8 = 0x00;

/// Address of the low byte of the reset vector.
pub const RESET_VECTOR_LOW: u16 = 0xFFFC;

/// Address of the high byte of the reset vector.
pub const RESET_VECTOR_HIGH: u16 = 0xFFFD;

/// The stack pointer after a reset.
pub const RESET_STACK_PTR: u8 = 0xFD;

/// The status byte after a reset: only the Unused bit is raised.
pub const RESET_STATUS: u8 = 0x20;

/// The address after `address`, wrapping round at the top of the address
/// space.
pub open spec fn spec_next(address: u16) -> u16 {
    ((address + 1) % 0x1_0000) as u16
}

/// The 16-bit word with `high` as its upper and `low` as its lower byte.
pub open spec fn spec_word(high: u8, low: u8) -> u16 {
    (high * 0x100 + low) as u16
}

/// The lower byte of `word`.
pub open spec fn spec_low_byte(word: u16) -> u8 {
    (word % 0x100) as u8
}

/// `base` plus `index`, wrapping round inside the zero page.
pub open spec fn spec_index8(base: u8, index: u8) -> u8 {
    ((base + index) % 0x100) as u8
}

/// `base` plus `index`, wrapping round at the top of the address space.
pub open spec fn spec_index16(base: u16, index: u8) -> u16 {
    ((base + index) % 0x1_0000) as u16
}

/// Whether adding `index` to `base` carries out of the low byte, so that the
/// sum lies in another 256-byte page than `base`.
pub open spec fn spec_crosses_page(base: u16, index: u8) -> bool {
    base % 0x100 + index > 0xFF
}

/// The address that is on the bus while `index` is added to `base`: the low
/// byte is already summed, the carry into the high byte is not yet applied.
pub open spec fn spec_pre_carry(base: u16, index: u8) -> u16 {
    ((base / 0x100) * 0x100 + (base + index) % 0x100) as u16
}

/// The processor and everything it can reach, as plain values: the
/// registers, the status byte, the hidden latches, the address last put on
/// the bus, the pending micro-operations (next one first), and the bus.
pub struct CpuView {
    pub program_counter: u16,
    pub a: u8,
    pub x: u8,
    pub y: u8,
    pub status: u8,
    pub stack_ptr: u8,
    pub data_latch: u8,
    pub abs_addr_latch: u16,
    pub zpg_addr_latch: u8,
    pub address_bus: u16,
    pub queue: Seq<MicroOp>,
    pub bus: BusView,
}

impl CpuView {
    /// Nothing is pending: the next cycle fetches an opcode.
    pub open spec fn at_boundary(self) -> bool {
        self.queue.len() == 0
    }

    /// The byte under the program counter.
    pub open spec fn spec_operand(self) -> u8 {
        self.bus.spec_read(self.program_counter)
    }

    /// `address` is put on the bus for a read. Reading changes no device.
    pub open spec fn spec_addressed(self, address: u16) -> CpuView {
        CpuView { address_bus: address, ..self }
    }

    /// The byte under the program counter is read into the data latch and
    /// the program counter advances.
    pub open spec fn spec_imm_dl(self) -> CpuView {
        CpuView {
            data_latch: self.spec_operand(),
            program_counter: spec_next(self.program_counter),
            ..self.spec_addressed(self.program_counter)
        }
    }

    /// Negative and Zero follow `number`.
    pub open spec fn spec_upd_nz(self, number: u8) -> CpuView {
        CpuView { status: status::spec_upd_nz(self.status, number), ..self }
    }

    /// The accumulator takes `value`, and Negative and Zero follow it.
    pub open spec fn spec_load_a(self, value: u8) -> CpuView {
        CpuView { a: value, ..self }.spec_upd_nz(value)
    }

    /// Index register X takes `value`, and Negative and Zero follow it.
    pub open spec fn spec_load_x(self, value: u8) -> CpuView {
        CpuView { x: value, ..self }.spec_upd_nz(value)
    }

    /// Index register Y takes `value`, and Negative and Zero follow it.
    pub open spec fn spec_load_y(self, value: u8) -> CpuView {
        CpuView { y: value, ..self }.spec_upd_nz(value)
    }

    /// `address` is put on the bus and `value` is written there.
    pub open spec fn spec_store(self, address: u16, value: u8) -> CpuView {
        CpuView { bus: self.bus.spec_write(address, value), address_bus: address, ..self }
    }

    /// The accumulator is loaded with what the bus gives at `address`.
    pub open spec fn spec_fetch_a(self, address: u16) -> CpuView {
        self.spec_addressed(address).spec_load_a(self.bus.spec_read(address))
    }

    /// Index register X is loaded with what the bus gives at `address`.
    pub open spec fn spec_fetch_x(self, address: u16) -> CpuView {
        self.spec_addressed(address).spec_load_x(self.bus.spec_read(address))
    }

    /// Index register Y is loaded with what the bus gives at `address`.
    pub open spec fn spec_fetch_y(self, address: u16) -> CpuView {
        self.spec_addressed(address).spec_load_y(self.bus.spec_read(address))
    }

    /// One idle cycle is put in front of everything pending, if `extra`.
    pub open spec fn spec_delay(self, extra: bool) -> CpuView {
        if extra {
            CpuView { queue: seq![MicroOp::Nop] + self.queue, ..self }
        } else {
            self
        }
    }

    /// The absolute latch plus `index`: where an indexed load reads.
    pub open spec fn spec_indexed(self, index: u8) -> u16 {
        spec_index16(self.abs_addr_latch, index)
    }

    pub open spec fn spec_imm_a(self) -> CpuView {
        let fetched = self.spec_imm_dl();
        fetched.spec_load_a(fetched.data_latch)
    }

    pub open spec fn spec_imm_y(self) -> CpuView {
        let fetched = self.spec_imm_dl();
        fetched.spec_load_y(fetched.data_latch)
    }

    pub open spec fn spec_imm_x(self) -> CpuView {
        let fetched = self.spec_imm_dl();
        fetched.spec_load_x(fetched.data_latch)
    }

    pub open spec fn spec_imm_zal(self) -> CpuView {
        let fetched = self.spec_imm_dl();
        CpuView { zpg_addr_latch: fetched.data_latch, ..fetched }
    }

    /// The fetched byte becomes the whole absolute latch: its low byte, with
    /// a cleared high byte.
    pub open spec fn spec_imm_lo_aal(self) -> CpuView {
        let fetched = self.spec_imm_dl();
        CpuView { abs_addr_latch: fetched.data_latch as u16, ..fetched }
    }

    /// The fetched byte becomes the high byte of the absolute latch; the low
    /// byte stays.
    pub open spec fn spec_imm_hi_aal(self) -> CpuView {
        let fetched = self.spec_imm_dl();
        CpuView {
            abs_addr_latch: spec_word(fetched.data_latch, spec_low_byte(self.abs_addr_latch)),
            ..fetched
        }
    }

    pub open spec fn spec_zal_lda(self) -> CpuView {
        self.spec_fetch_a(self.zpg_addr_latch as u16)
    }

    pub open spec fn spec_zal_ldx(self) -> CpuView {
        self.spec_fetch_x(self.zpg_addr_latch as u16)
    }

    pub open spec fn spec_zal_ldy(self) -> CpuView {
        self.spec_fetch_y(self.zpg_addr_latch as u16)
    }

    pub open spec fn spec_aal_lda(self) -> CpuView {
        self.spec_fetch_a(self.abs_addr_latch)
    }

    pub open spec fn spec_aal_ldx(self) -> CpuView {
        self.spec_fetch_x(self.abs_addr_latch)
    }

    pub open spec fn spec_aal_ldy(self) -> CpuView {
        self.spec_fetch_y(self.abs_addr_latch)
    }

    /// The accumulator is loaded from the absolute latch plus X; a page
    /// crossing costs one idle cycle, which runs next.
    pub open spec fn spec_x_aal_lda(self) -> CpuView {
        self.spec_delay(spec_crosses_page(self.abs_addr_latch, self.x)).spec_fetch_a(
            self.spec_indexed(self.x),
        )
    }

    /// The accumulator is loaded from the absolute latch plus Y; a page
    /// crossing costs one idle cycle, which runs next.
    pub open spec fn spec_y_aal_lda(self) -> CpuView {
        self.spec_delay(spec_crosses_page(self.abs_addr_latch, self.y)).spec_fetch_a(
            self.spec_indexed(self.y),
        )
    }

    /// Y is loaded from the absolute latch plus X; a page crossing costs one
    /// idle cycle, which runs next.
    pub open spec fn spec_x_aal_ldy(self) -> CpuView {
        self.spec_delay(spec_crosses_page(self.abs_addr_latch, self.x)).spec_fetch_y(
            self.spec_indexed(self.x),
        )
    }

    /// X is loaded from the absolute latch plus Y; a page crossing costs one
    /// idle cycle, which runs next.
    pub open spec fn spec_y_aal_ldx(self) -> CpuView {
        self.spec_delay(spec_crosses_page(self.abs_addr_latch, self.y)).spec_fetch_x(
            self.spec_indexed(self.y),
        )
    }

    /// The byte that the zero-page latch points at becomes the whole
    /// absolute latch: its low byte, with a cleared high byte.
    pub open spec fn spec_ind_lo_aal(self) -> CpuView {
        CpuView {
            abs_addr_latch: self.bus.spec_read(self.zpg_addr_latch as u16) as u16,
            ..self.spec_addressed(self.zpg_addr_latch as u16)
        }
    }

    /// The byte after the one that the zero-page latch points at, still
    /// inside the zero page, becomes the high byte of the absolute latch.
    pub open spec fn spec_ind_hi_aal(self) -> CpuView {
        CpuView {
            abs_addr_latch: spec_word(
                self.bus.spec_read(spec_index8(self.zpg_addr_latch, 1) as u16),
                spec_low_byte(self.abs_addr_latch),
            ),
            ..self.spec_addressed(spec_index8(self.zpg_addr_latch, 1) as u16)
        }
    }

    pub open spec fn spec_aal_sty(self) -> CpuView {
        self.spec_store(self.abs_addr_latch, self.y)
    }

    pub open spec fn spec_aal_sta(self) -> CpuView {
        self.spec_store(self.abs_addr_latch, self.a)
    }

    pub open spec fn spec_aal_stx(self) -> CpuView {
        self.spec_store(self.abs_addr_latch, self.x)
    }

    pub open spec fn spec_zal_sty(self) -> CpuView {
        self.spec_store(self.zpg_addr_latch as u16, self.y)
    }

    pub open spec fn spec_zal_sta(self) -> CpuView {
        self.spec_store(self.zpg_addr_latch as u16, self.a)
    }

    pub open spec fn spec_zal_stx(self) -> CpuView {
        self.spec_store(self.zpg_addr_latch as u16, self.x)
    }

    pub open spec fn spec_tax(self) -> CpuView {
        self.spec_load_x(self.a)
    }

    pub open spec fn spec_tay(self) -> CpuView {
        self.spec_load_y(self.a)
    }

    pub open spec fn spec_txa(self) -> CpuView {
        self.spec_load_a(self.x)
    }

    pub open spec fn spec_tya(self) -> CpuView {
        self.spec_load_a(self.y)
    }

    pub open spec fn spec_add_x_zal(self) -> CpuView {
        CpuView { zpg_addr_latch: spec_index8(self.zpg_addr_latch, self.x), ..self }
    }

    pub open spec fn spec_add_y_zal(self) -> CpuView {
        CpuView { zpg_addr_latch: spec_index8(self.zpg_addr_latch, self.y), ..self }
    }

    /// X is added to the absolute latch, and the bus is read once at the
    /// address before the carry; the byte read is thrown away.
    pub open spec fn spec_add_x_aal(self) -> CpuView {
        CpuView {
            abs_addr_latch: self.spec_indexed(self.x),
            ..self.spec_addressed(spec_pre_carry(self.abs_addr_latch, self.x))
        }
    }

    /// Y is added to the absolute latch, and the bus is read once at the
    /// address before the carry; the byte read is thrown away.
    pub open spec fn spec_add_y_aal(self) -> CpuView {
        CpuView {
            abs_addr_latch: self.spec_indexed(self.y),
            ..self.spec_addressed(spec_pre_carry(self.abs_addr_latch, self.y))
        }
    }

    /// The processor after the micro-operation `op` ran on it.
    ///
    /// Opaque, because unfolding all its cases for every state in sight is
    /// costly: `reveal` it to compute with it.
    #[verifier::opaque]
    pub open spec fn spec_apply(self, op: MicroOp) -> CpuView {
        match op {
            MicroOp::ImmA => self.spec_imm_a(),
            MicroOp::ImmY => self.spec_imm_y(),
            MicroOp::ImmX => self.spec_imm_x(),
            MicroOp::ImmZal => self.spec_imm_zal(),
            MicroOp::ImmLoAal => self.spec_imm_lo_aal(),
            MicroOp::ImmHiAal => self.spec_imm_hi_aal(),
            MicroOp::ZalLda => self.spec_zal_lda(),
            MicroOp::ZalLdx => self.spec_zal_ldx(),
            MicroOp::ZalLdy => self.spec_zal_ldy(),
            MicroOp::AalLda => self.spec_aal_lda(),
            MicroOp::AalLdx => self.spec_aal_ldx(),
            MicroOp::AalLdy => self.spec_aal_ldy(),
            MicroOp::XAalLda => self.spec_x_aal_lda(),
            MicroOp::YAalLda => self.spec_y_aal_lda(),
            MicroOp::XAalLdy => self.spec_x_aal_ldy(),
            MicroOp::YAalLdx => self.spec_y_aal_ldx(),
            MicroOp::IndLoAal => self.spec_ind_lo_aal(),
            MicroOp::IndHiAal => self.spec_ind_hi_aal(),
            MicroOp::AalSty => self.spec_aal_sty(),
            MicroOp::AalSta => self.spec_aal_sta(),
            MicroOp::AalStx => self.spec_aal_stx(),
            MicroOp::ZalSty => self.spec_zal_sty(),
            MicroOp::ZalSta => self.spec_zal_sta(),
            MicroOp::ZalStx => self.spec_zal_stx(),
            MicroOp::Tax => self.spec_tax(),
            MicroOp::Tay => self.spec_tay(),
            MicroOp::Txa => self.spec_txa(),
            MicroOp::Tya => self.spec_tya(),
            MicroOp::AddXZal => self.spec_add_x_zal(),
            MicroOp::AddYZal => self.spec_add_y_zal(),
            MicroOp::AddXAal => self.spec_add_x_aal(),
            MicroOp::AddYAal => self.spec_add_y_aal(),
            MicroOp::Nop => self,
        }
    }

    /// The processor after a reset: the program counter comes from the reset
    /// vector, read high byte first, the status byte holds the Unused bit
    /// alone, the stack pointer has its power-on value, and nothing is
    /// pending. The other registers, the latches and the bus are as before.
    pub open spec fn spec_reset(self) -> CpuView {
        CpuView {
            program_counter: spec_word(
                self.bus.spec_read(RESET_VECTOR_HIGH),
                self.bus.spec_read(RESET_VECTOR_LOW),
            ),
            status: RESET_STATUS,
            stack_ptr: RESET_STACK_PTR,
            queue: Seq::empty(),
            ..self.spec_addressed(RESET_VECTOR_LOW)
        }
    }

    /// The processor with the opcode under the program counter read and
    /// consumed.
    pub open spec fn spec_fetched(self) -> CpuView {
        CpuView {
            program_counter: spec_next(self.program_counter),
            ..self.spec_addressed(self.program_counter)
        }
    }

    /// The processor one clock cycle later.
    ///
    /// With something pending, the first pending micro-operation leaves the
    /// queue and runs. At an instruction boundary, the opcode under the
    /// program counter is consumed and its micro-operations become pending;
    /// the halt opcode and an opcode without a definition leave nothing
    /// pending.
    pub open spec fn spec_step(self) -> CpuView {
        if self.queue.len() > 0 {
            CpuView { queue: self.queue.drop_first(), ..self }.spec_apply(self.queue[0])
        } else if self.spec_operand() == BRK_OPCODE {
            self.spec_fetched()
        } else {
            CpuView { queue: spec_micro_ops(self.spec_operand()), ..self.spec_fetched() }
        }
    }

    /// What the cycle reports: a running micro-operation always succeeds; a
    /// fetch fails with `Break` on the halt opcode and with `InvalidOpcode`
    /// on any other opcode without a definition.
    pub open spec fn spec_step_result(self) -> Result<(), RustNesError> {
        if self.queue.len() > 0 {
            Ok(())
        } else if self.spec_operand() == BRK_OPCODE {
            Err(RustNesError::Break)
        } else if spec_micro_ops(self.spec_operand()).len() == 0 {
            Err(RustNesError::InvalidOpcode(self.spec_operand()))
        } else {
            Ok(())
        }
    }

    /// The processor `cycles` clock cycles later.
    pub open spec fn spec_run(self, cycles: nat) -> CpuView
        decreases cycles,
    {
        if cycles == 0 {
            self
        } else {
            self.spec_step().spec_run((cycles - 1) as nat)
        }
    }
}

} // verus!
