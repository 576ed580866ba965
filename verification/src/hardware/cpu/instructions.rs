use crate::hardware::cpu::instr_def::{InstrDef, MicroOp, MAX_INSTR_CYCLES};
use crate::hardware::cpu::MOS6502;
use vstd::prelude::*;

verus! {

/// The micro-operations that implement `opcode`, one for each cycle after
/// the opcode fetch; none for an opcode that is not implemented.
///
/// Opaque, because unfolding the whole table for every opcode in sight is
/// costly: `reveal` it to compute with it.
#[verifier::opaque]
pub open spec fn spec_micro_ops(opcode: u8) -> Seq<MicroOp> {
    if opcode == 0x81 {
        // STA (zp,X)
        seq![
            MicroOp::ImmZal,
            MicroOp::AddXZal,
            MicroOp::IndLoAal,
            MicroOp::IndHiAal,
            MicroOp::AalSta,
        ]
    } else if opcode == 0x84 {
        // STY zp
        seq![MicroOp::ImmZal, MicroOp::ZalSty]
    } else if opcode == 0x85 {
        // STA zp
        seq![MicroOp::ImmZal, MicroOp::ZalSta]
    } else if opcode == 0x86 {
        // STX zp
        seq![MicroOp::ImmZal, MicroOp::ZalStx]
    } else if opcode == 0x8A {
        // TXA
        seq![MicroOp::Txa]
    } else if opcode == 0x8C {
        // STY abs
        seq![MicroOp::ImmLoAal, MicroOp::ImmHiAal, MicroOp::AalSty]
    } else if opcode == 0x8D {
        // STA abs
        seq![MicroOp::ImmLoAal, MicroOp::ImmHiAal, MicroOp::AalSta]
    } else if opcode == 0x8E {
        // STX abs
        seq![MicroOp::ImmLoAal, MicroOp::ImmHiAal, MicroOp::AalStx]
    } else if opcode == 0x91 {
        // STA (zp),Y
        seq![
            MicroOp::ImmZal,
            MicroOp::IndLoAal,
            MicroOp::IndHiAal,
            MicroOp::AddYAal,
            MicroOp::AalSta,
        ]
    } else if opcode == 0x94 {
        // STY zp,X
        seq![MicroOp::ImmZal, MicroOp::AddXZal, MicroOp::ZalSty]
    } else if opcode == 0x95 {
        // STA zp,X
        seq![MicroOp::ImmZal, MicroOp::AddXZal, MicroOp::ZalSta]
    } else if opcode == 0x96 {
        // STX zp,Y
        seq![MicroOp::ImmZal, MicroOp::AddYZal, MicroOp::ZalStx]
    } else if opcode == 0x98 {
        // TYA
        seq![MicroOp::Tya]
    } else if opcode == 0x99 {
        // STA abs,Y
        seq![MicroOp::ImmLoAal, MicroOp::ImmHiAal, MicroOp::AddYAal, MicroOp::AalSta]
    } else if opcode == 0x9D {
        // STA abs,X
        seq![MicroOp::ImmLoAal, MicroOp::ImmHiAal, MicroOp::AddXAal, MicroOp::AalSta]
    } else if opcode == 0xA0 {
        // LDY #
        seq![MicroOp::ImmY]
    } else if opcode == 0xA1 {
        // LDA (zp,X)
        seq![
            MicroOp::ImmZal,
            MicroOp::AddXZal,
            MicroOp::IndLoAal,
            MicroOp::IndHiAal,
            MicroOp::AalLda,
        ]
    } else if opcode == 0xA2 {
        // LDX #
        seq![MicroOp::ImmX]
    } else if opcode == 0xA4 {
        // LDY zp
        seq![MicroOp::ImmZal, MicroOp::ZalLdy]
    } else if opcode == 0xA5 {
        // LDA zp
        seq![MicroOp::ImmZal, MicroOp::ZalLda]
    } else if opcode == 0xA6 {
        // LDX zp
        seq![MicroOp::ImmZal, MicroOp::ZalLdx]
    } else if opcode == 0xA8 {
        // TAY
        seq![MicroOp::Tay]
    } else if opcode == 0xA9 {
        // LDA #
        seq![MicroOp::ImmA]
    } else if opcode == 0xAA {
        // TAX
        seq![MicroOp::Tax]
    } else if opcode == 0xAC {
        // LDY abs
        seq![MicroOp::ImmLoAal, MicroOp::ImmHiAal, MicroOp::AalLdy]
    } else if opcode == 0xAD {
        // LDA abs
        seq![MicroOp::ImmLoAal, MicroOp::ImmHiAal, MicroOp::AalLda]
    } else if opcode == 0xAE {
        // LDX abs
        seq![MicroOp::ImmLoAal, MicroOp::ImmHiAal, MicroOp::AalLdx]
    } else if opcode == 0xB1 {
        // LDA (zp),Y
        seq![MicroOp::ImmZal, MicroOp::IndLoAal, MicroOp::IndHiAal, MicroOp::YAalLda]
    } else if opcode == 0xB4 {
        // LDY zp,X
        seq![MicroOp::ImmZal, MicroOp::AddXZal, MicroOp::ZalLdy]
    } else if opcode == 0xB5 {
        // LDA zp,X
        seq![MicroOp::ImmZal, MicroOp::AddXZal, MicroOp::ZalLda]
    } else if opcode == 0xB6 {
        // LDX zp,Y
        seq![MicroOp::ImmZal, MicroOp::AddYZal, MicroOp::ZalLdx]
    } else if opcode == 0xB9 {
        // LDA abs,Y
        seq![MicroOp::ImmLoAal, MicroOp::ImmHiAal, MicroOp::YAalLda]
    } else if opcode == 0xBC {
        // LDY abs,X
        seq![MicroOp::ImmLoAal, MicroOp::ImmHiAal, MicroOp::XAalLdy]
    } else if opcode == 0xBD {
        // LDA abs,X
        seq![MicroOp::ImmLoAal, MicroOp::ImmHiAal, MicroOp::XAalLda]
    } else if opcode == 0xBE {
        // LDX abs,Y
        seq![MicroOp::ImmLoAal, MicroOp::ImmHiAal, MicroOp::YAalLdx]
    } else if opcode == 0xEA {
        // NOP
        seq![MicroOp::Nop]
    } else {
        Seq::empty()
    }
}

/// Whether `opcode` has a definition.
pub open spec fn spec_defined(opcode: u8) -> bool {
    spec_micro_ops(opcode).len() > 0
}

/// Whether `table` is the instruction table: one well-formed definition for
/// each opcode, holding that opcode's micro-operations.
pub open spec fn spec_is_instruction_table(table: [InstrDef; 256]) -> bool {
    forall|opcode: u8|
        #![trigger table[opcode as int]]
        table[opcode as int].wf() && table[opcode as int]@ == spec_micro_ops(opcode)
}

/// No definition is longer than the block that holds it.
pub proof fn lemma_micro_ops_fit(opcode: u8)
    ensures
        spec_micro_ops(opcode).len() <= MAX_INSTR_CYCLES,
{
    reveal(spec_micro_ops);
}

/// Stores the definition made of `ops` under `opcode` and leaves every other
/// entry as it was.
fn define(table: &mut [InstrDef; 256], opcode: u8, ops: &[MicroOp])
    requires
        ops@.len() <= MAX_INSTR_CYCLES,
    ensures
        final(table)[opcode as int].wf(),
        final(table)[opcode as int]@ == ops@,
        forall|other: int|
            0 <= other < 256 && other != opcode ==> final(table)[other] == old(table)[other],
{
    table[opcode as usize] = InstrDef::from(ops);
}

/// The instruction table, built once and never changed afterwards.
pub struct InstructionTable {
    entries: [InstrDef; 256],
}

impl InstructionTable {
    #[verifier::type_invariant]
    spec fn inv(&self) -> bool {
        spec_is_instruction_table(self.entries)
    }

    /// The micro-operations that the table holds for `opcode`.
    pub closed spec fn spec_entry(&self, opcode: u8) -> Seq<MicroOp> {
        self.entries[opcode as int]@
    }

    /// Builds the table: every opcode gets its definition.
    pub fn new() -> (table: Self)
        ensures
            forall|opcode: u8| #[trigger] table.spec_entry(opcode) == spec_micro_ops(opcode),
    {
        Self { entries: MOS6502::instruction_table() }
    }

    /// The definition of `opcode`: well-formed, and holding exactly that
    /// opcode's micro-operations, as every table does.
    pub fn lookup(&self, opcode: u8) -> (def: InstrDef)
        ensures
            def.wf(),
            def@ == self.spec_entry(opcode),
            def@ == spec_micro_ops(opcode),
    {
        proof {
            use_type_invariant(self);
        }
        let def = self.entries[opcode as usize];
        assert(def == self.entries[opcode as int]);
        def
    }
}

impl MOS6502 {
    /// Builds the instruction table, indexed by opcode.
    pub fn instruction_table() -> (table: [InstrDef; 256])
        ensures
            spec_is_instruction_table(table),
    {
        let mut instrs: [InstrDef; 256] = [InstrDef::empty(); 256];
        // STA (zp,X)
        define(
            &mut instrs,
            0x81,
            &[
                MicroOp::ImmZal,
                MicroOp::AddXZal,
                MicroOp::IndLoAal,
                MicroOp::IndHiAal,
                MicroOp::AalSta,
            ],
        );
        // STY zp
        define(&mut instrs, 0x84, &[MicroOp::ImmZal, MicroOp::ZalSty]);
        // STA zp
        define(&mut instrs, 0x85, &[MicroOp::ImmZal, MicroOp::ZalSta]);
        // STX zp
        define(&mut instrs, 0x86, &[MicroOp::ImmZal, MicroOp::ZalStx]);
        // TXA
        define(&mut instrs, 0x8A, &[MicroOp::Txa]);
        // STY abs
        define(&mut instrs, 0x8C, &[MicroOp::ImmLoAal, MicroOp::ImmHiAal, MicroOp::AalSty]);
        // STA abs
        define(&mut instrs, 0x8D, &[MicroOp::ImmLoAal, MicroOp::ImmHiAal, MicroOp::AalSta]);
        // STX abs
        define(&mut instrs, 0x8E, &[MicroOp::ImmLoAal, MicroOp::ImmHiAal, MicroOp::AalStx]);
        // STA (zp),Y
        define(
            &mut instrs,
            0x91,
            &[
                MicroOp::ImmZal,
                MicroOp::IndLoAal,
                MicroOp::IndHiAal,
                MicroOp::AddYAal,
                MicroOp::AalSta,
            ],
        );
        // STY zp,X
        define(&mut instrs, 0x94, &[MicroOp::ImmZal, MicroOp::AddXZal, MicroOp::ZalSty]);
        // STA zp,X
        define(&mut instrs, 0x95, &[MicroOp::ImmZal, MicroOp::AddXZal, MicroOp::ZalSta]);
        // STX zp,Y
        define(&mut instrs, 0x96, &[MicroOp::ImmZal, MicroOp::AddYZal, MicroOp::ZalStx]);
        // TYA
        define(&mut instrs, 0x98, &[MicroOp::Tya]);
        // STA abs,Y
        define(
            &mut instrs,
            0x99,
            &[
                MicroOp::ImmLoAal,
                MicroOp::ImmHiAal,
                MicroOp::AddYAal,
                MicroOp::AalSta,
            ],
        );
        // STA abs,X
        define(
            &mut instrs,
            0x9D,
            &[
                MicroOp::ImmLoAal,
                MicroOp::ImmHiAal,
                MicroOp::AddXAal,
                MicroOp::AalSta,
            ],
        );
        // LDY #
        define(&mut instrs, 0xA0, &[MicroOp::ImmY]);
        // LDA (zp,X)
        define(
            &mut instrs,
            0xA1,
            &[
                MicroOp::ImmZal,
                MicroOp::AddXZal,
                MicroOp::IndLoAal,
                MicroOp::IndHiAal,
                MicroOp::AalLda,
            ],
        );
        // LDX #
        define(&mut instrs, 0xA2, &[MicroOp::ImmX]);
        // LDY zp
        define(&mut instrs, 0xA4, &[MicroOp::ImmZal, MicroOp::ZalLdy]);
        // LDA zp
        define(&mut instrs, 0xA5, &[MicroOp::ImmZal, MicroOp::ZalLda]);
        // LDX zp
        define(&mut instrs, 0xA6, &[MicroOp::ImmZal, MicroOp::ZalLdx]);
        // TAY
        define(&mut instrs, 0xA8, &[MicroOp::Tay]);
        // LDA #
        define(&mut instrs, 0xA9, &[MicroOp::ImmA]);
        // TAX
        define(&mut instrs, 0xAA, &[MicroOp::Tax]);
        // LDY abs
        define(&mut instrs, 0xAC, &[MicroOp::ImmLoAal, MicroOp::ImmHiAal, MicroOp::AalLdy]);
        // LDA abs
        define(&mut instrs, 0xAD, &[MicroOp::ImmLoAal, MicroOp::ImmHiAal, MicroOp::AalLda]);
        // LDX abs
        define(&mut instrs, 0xAE, &[MicroOp::ImmLoAal, MicroOp::ImmHiAal, MicroOp::AalLdx]);
        // LDA (zp),Y
        define(
            &mut instrs,
            0xB1,
            &[
                MicroOp::ImmZal,
                MicroOp::IndLoAal,
                MicroOp::IndHiAal,
                MicroOp::YAalLda,
            ],
        );
        // LDY zp,X
        define(&mut instrs, 0xB4, &[MicroOp::ImmZal, MicroOp::AddXZal, MicroOp::ZalLdy]);
        // LDA zp,X
        define(&mut instrs, 0xB5, &[MicroOp::ImmZal, MicroOp::AddXZal, MicroOp::ZalLda]);
        // LDX zp,Y
        define(&mut instrs, 0xB6, &[MicroOp::ImmZal, MicroOp::AddYZal, MicroOp::ZalLdx]);
        // LDA abs,Y
        define(&mut instrs, 0xB9, &[MicroOp::ImmLoAal, MicroOp::ImmHiAal, MicroOp::YAalLda]);
        // LDY abs,X
        define(&mut instrs, 0xBC, &[MicroOp::ImmLoAal, MicroOp::ImmHiAal, MicroOp::XAalLdy]);
        // LDA abs,X
        define(&mut instrs, 0xBD, &[MicroOp::ImmLoAal, MicroOp::ImmHiAal, MicroOp::XAalLda]);
        // LDX abs,Y
        define(&mut instrs, 0xBE, &[MicroOp::ImmLoAal, MicroOp::ImmHiAal, MicroOp::YAalLdx]);
        // NOP
        define(&mut instrs, 0xEA, &[MicroOp::Nop]);
        assert forall|opcode: u8| #![trigger instrs[opcode as int]]
            instrs[opcode as int].wf() && instrs[opcode as int]@ == spec_micro_ops(opcode) by {
            reveal(spec_micro_ops);
            assert(instrs[opcode as int]@ =~= spec_micro_ops(opcode));
        }
        instrs
    }
}

} // verus!
