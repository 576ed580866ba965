use crate::hardware::cpu::instr_def::MicroOp;
use crate::hardware::cpu::model::{spec_crosses_page, spec_pre_carry};
use crate::hardware::cpu::MOS6502;
use vstd::prelude::*;

verus! {

impl MOS6502 {
    /// Immediate fetch into the accumulator.
    pub fn imm_a(&mut self)
        ensures
            final(self)@ == old(self)@.spec_imm_a(),
    {
        self.imm_dl();
        self.a = self.state.data_latch;
        self.upd_nz(self.a);
    }

    /// Immediate fetch into the Y register.
    pub fn imm_y(&mut self)
        ensures
            final(self)@ == old(self)@.spec_imm_y(),
    {
        self.imm_dl();
        self.y = self.state.data_latch;
        self.upd_nz(self.y);
    }

    /// Immediate fetch into the X register.
    pub fn imm_x(&mut self)
        ensures
            final(self)@ == old(self)@.spec_imm_x(),
    {
        self.imm_dl();
        self.x = self.state.data_latch;
        self.upd_nz(self.x);
    }

    /// Immediate fetch into the zero-page address latch.
    pub fn imm_zal(&mut self)
        ensures
            final(self)@ == old(self)@.spec_imm_zal(),
    {
        self.imm_dl();
        self.state.zpg_addr_latch = self.state.data_latch;
    }

    /// Immediate fetch into the low byte of the absolute address latch. The
    /// high byte is cleared.
    pub fn imm_lo_aal(&mut self)
        ensures
            final(self)@ == old(self)@.spec_imm_lo_aal(),
    {
        self.imm_dl();
        self.state.abs_addr_latch = self.state.data_latch as u16;
    }

    /// Immediate fetch into the high byte of the absolute address latch. The
    /// low byte is kept.
    pub fn imm_hi_aal(&mut self)
        ensures
            final(self)@ == old(self)@.spec_imm_hi_aal(),
    {
        self.imm_dl();
        let latch = self.state.abs_addr_latch;
        let high = self.state.data_latch;
        assert((latch & 0xFF) | ((high as u16) << 8) == high * 0x100 + (latch % 0x100) as u8)
            by (bit_vector);
        self.state.abs_addr_latch = (latch & 0xFF) | ((high as u16) << 8);
    }

    /// Zero-page fetch into the accumulator.
    pub fn zal_lda(&mut self)
        ensures
            final(self)@ == old(self)@.spec_zal_lda(),
    {
        self.a = self.bus_read(self.state.zpg_addr_latch as u16);
        self.upd_nz(self.a);
    }

    /// Zero-page fetch into the X register.
    pub fn zal_ldx(&mut self)
        ensures
            final(self)@ == old(self)@.spec_zal_ldx(),
    {
        self.x = self.bus_read(self.state.zpg_addr_latch as u16);
        self.upd_nz(self.x);
    }

    /// Zero-page fetch into the Y register.
    pub fn zal_ldy(&mut self)
        ensures
            final(self)@ == old(self)@.spec_zal_ldy(),
    {
        self.y = self.bus_read(self.state.zpg_addr_latch as u16);
        self.upd_nz(self.y);
    }

    /// Absolute fetch into the accumulator.
    pub fn aal_lda(&mut self)
        ensures
            final(self)@ == old(self)@.spec_aal_lda(),
    {
        self.a = self.bus_read(self.state.abs_addr_latch);
        self.upd_nz(self.a);
    }

    /// Absolute fetch into the X register.
    pub fn aal_ldx(&mut self)
        ensures
            final(self)@ == old(self)@.spec_aal_ldx(),
    {
        self.x = self.bus_read(self.state.abs_addr_latch);
        self.upd_nz(self.x);
    }

    /// Absolute fetch into the Y register.
    pub fn aal_ldy(&mut self)
        ensures
            final(self)@ == old(self)@.spec_aal_ldy(),
    {
        self.y = self.bus_read(self.state.abs_addr_latch);
        self.upd_nz(self.y);
    }

    /// Whether adding `index` to the absolute latch leaves the latch's page.
    /// If it does, one idle cycle is put at the front of the queue: the
    /// hardware needs it to fix up the high byte of the address.
    pub(crate) fn page_penalty(&mut self, index: u8)
        ensures
            final(self)@ == old(self)@.spec_delay(
                spec_crosses_page(old(self)@.abs_addr_latch, index),
            ),
    {
        let latch = self.state.abs_addr_latch;
        assert(latch & 0xFF == latch % 0x100) by (bit_vector);
        if (latch & 0xFF) + (index as u16) > 0xFF {
            self.state.u_op_queue.push_front(MicroOp::Nop);
        }
    }

    /// Absolute fetch, indexed by X, into the accumulator. A page crossing
    /// costs one more cycle.
    pub fn x_aal_lda(&mut self)
        ensures
            final(self)@ == old(self)@.spec_x_aal_lda(),
    {
        self.page_penalty(self.x);
        self.a = self.bus_read(self.state.abs_addr_latch.wrapping_add(self.x as u16));
        self.upd_nz(self.a);
    }

    /// Absolute fetch, indexed by Y, into the accumulator. A page crossing
    /// costs one more cycle.
    pub fn y_aal_lda(&mut self)
        ensures
            final(self)@ == old(self)@.spec_y_aal_lda(),
    {
        self.page_penalty(self.y);
        self.a = self.bus_read(self.state.abs_addr_latch.wrapping_add(self.y as u16));
        self.upd_nz(self.a);
    }

    /// Absolute fetch, indexed by X, into the Y register. A page crossing
    /// costs one more cycle.
    pub fn x_aal_ldy(&mut self)
        ensures
            final(self)@ == old(self)@.spec_x_aal_ldy(),
    {
        self.page_penalty(self.x);
        self.y = self.bus_read(self.state.abs_addr_latch.wrapping_add(self.x as u16));
        self.upd_nz(self.y);
    }

    /// Absolute fetch, indexed by Y, into the X register. A page crossing
    /// costs one more cycle.
    pub fn y_aal_ldx(&mut self)
        ensures
            final(self)@ == old(self)@.spec_y_aal_ldx(),
    {
        self.page_penalty(self.y);
        self.x = self.bus_read(self.state.abs_addr_latch.wrapping_add(self.y as u16));
        self.upd_nz(self.x);
    }

    /// Indirect fetch, through the zero-page latch, into the low byte of the
    /// absolute address latch. The high byte is cleared.
    pub fn ind_lo_aal(&mut self)
        ensures
            final(self)@ == old(self)@.spec_ind_lo_aal(),
    {
        self.state.abs_addr_latch = self.bus_read(self.state.zpg_addr_latch as u16) as u16;
    }

    /// Indirect fetch, through the zero-page latch plus one, into the high
    /// byte of the absolute address latch. The low byte is kept.
    pub fn ind_hi_aal(&mut self)
        ensures
            final(self)@ == old(self)@.spec_ind_hi_aal(),
    {
        let latch = self.state.abs_addr_latch;
        let high = self.bus_read(self.state.zpg_addr_latch.wrapping_add(1) as u16);
        assert((latch & 0xFF) | ((high as u16) << 8) == high * 0x100 + (latch % 0x100) as u8)
            by (bit_vector);
        self.state.abs_addr_latch = (latch & 0xFF) | ((high as u16) << 8);
    }

    /// Absolute write from the Y register.
    pub fn aal_sty(&mut self)
        ensures
            final(self)@ == old(self)@.spec_aal_sty(),
    {
        self.bus_write(self.state.abs_addr_latch, self.y);
    }

    /// Absolute write from the accumulator.
    pub fn aal_sta(&mut self)
        ensures
            final(self)@ == old(self)@.spec_aal_sta(),
    {
        self.bus_write(self.state.abs_addr_latch, self.a);
    }

    /// Absolute write from the X register.
    pub fn aal_stx(&mut self)
        ensures
            final(self)@ == old(self)@.spec_aal_stx(),
    {
        self.bus_write(self.state.abs_addr_latch, self.x);
    }

    /// Zero-page write from the Y register.
    pub fn zal_sty(&mut self)
        ensures
            final(self)@ == old(self)@.spec_zal_sty(),
    {
        self.bus_write(self.state.zpg_addr_latch as u16, self.y);
    }

    /// Zero-page write from the accumulator.
    pub fn zal_sta(&mut self)
        ensures
            final(self)@ == old(self)@.spec_zal_sta(),
    {
        self.bus_write(self.state.zpg_addr_latch as u16, self.a);
    }

    /// Zero-page write from the X register.
    pub fn zal_stx(&mut self)
        ensures
            final(self)@ == old(self)@.spec_zal_stx(),
    {
        self.bus_write(self.state.zpg_addr_latch as u16, self.x);
    }

    /// Transfers the accumulator into the X register.
    pub fn tax(&mut self)
        ensures
            final(self)@ == old(self)@.spec_tax(),
    {
        self.x = self.a;
        self.upd_nz(self.x);
    }

    /// Transfers the accumulator into the Y register.
    pub fn tay(&mut self)
        ensures
            final(self)@ == old(self)@.spec_tay(),
    {
        self.y = self.a;
        self.upd_nz(self.y);
    }

    /// Transfers the X register into the accumulator.
    pub fn txa(&mut self)
        ensures
            final(self)@ == old(self)@.spec_txa(),
    {
        self.a = self.x;
        self.upd_nz(self.a);
    }

    /// Transfers the Y register into the accumulator.
    pub fn tya(&mut self)
        ensures
            final(self)@ == old(self)@.spec_tya(),
    {
        self.a = self.y;
        self.upd_nz(self.a);
    }

    /// Adds the X register to the zero-page address latch, staying inside
    /// the zero page.
    pub fn add_x_zal(&mut self)
        ensures
            final(self)@ == old(self)@.spec_add_x_zal(),
    {
        self.state.zpg_addr_latch = self.state.zpg_addr_latch.wrapping_add(self.x);
    }

    /// Adds the Y register to the zero-page address latch, staying inside
    /// the zero page.
    pub fn add_y_zal(&mut self)
        ensures
            final(self)@ == old(self)@.spec_add_y_zal(),
    {
        self.state.zpg_addr_latch = self.state.zpg_addr_latch.wrapping_add(self.y);
    }

    /// The address that the hardware puts on the bus while it adds `index`
    /// to the absolute latch: the low byte is already summed, the carry into
    /// the high byte is not yet applied.
    pub(crate) fn pre_carry_address(&self, index: u8) -> (address: u16)
        ensures
            address == spec_pre_carry(self@.abs_addr_latch, index),
    {
        let latch = self.state.abs_addr_latch;
        let sum = latch.wrapping_add(index as u16);
        assert((latch & 0xFF00) | (sum & 0x00FF) == (latch / 0x100) * 0x100 + sum % 0x100)
            by (bit_vector);
        (latch & 0xFF00) | (sum & 0x00FF)
    }

    /// Adds the X register to the absolute address latch, and reads the bus
    /// once, as the hardware does, at the address before the carry.
    pub fn add_x_aal(&mut self)
        ensures
            final(self)@ == old(self)@.spec_add_x_aal(),
    {
        let before_carry = self.pre_carry_address(self.x);
        self.state.abs_addr_latch = self.state.abs_addr_latch.wrapping_add(self.x as u16);
        let _ = self.bus_read(before_carry);
    }

    /// Adds the Y register to the absolute address latch, and reads the bus
    /// once, as the hardware does, at the address before the carry.
    pub fn add_y_aal(&mut self)
        ensures
            final(self)@ == old(self)@.spec_add_y_aal(),
    {
        let before_carry = self.pre_carry_address(self.y);
        self.state.abs_addr_latch = self.state.abs_addr_latch.wrapping_add(self.y as u16);
        let _ = self.bus_read(before_carry);
    }

    /// Does nothing for one cycle.
    pub fn nop(&mut self)
        ensures
            final(self)@ == old(self)@,
    {
    }
}

} // verus!
