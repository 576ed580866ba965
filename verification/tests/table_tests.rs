use rust_nes::hardware::cpu::instr_def::MAX_INSTR_CYCLES;
use rust_nes::hardware::cpu::instructions::InstructionTable;
use rust_nes::hardware::cpu::{Flag, InstrDef, MicroOp, MicroOp as M, Status};
use rust_nes::hardware::MOS6502;

#[test]
fn definition_from_slice_keeps_the_operations() {
    let ops = [MicroOp::ImmZal, MicroOp::AddXZal, MicroOp::ZalLda];
    let def = InstrDef::from(&ops);
    assert_eq!(def.cycles, 3);
    assert_eq!(def.as_vec(), ops.to_vec());
    assert_eq!(def.u_ops[0], Some(MicroOp::ImmZal));
    assert_eq!(def.u_ops[2], Some(MicroOp::ZalLda));
    assert_eq!(def.u_ops[3], None);
    assert_eq!(def.u_ops[5], None);
}

#[test]
fn definition_of_nothing_and_of_a_full_block() {
    let none = InstrDef::from(&[]);
    assert_eq!(none.cycles, 0);
    assert!(none.as_vec().is_empty());
    let empty = InstrDef::empty();
    assert_eq!(empty.cycles, 0);
    assert!(empty.as_vec().is_empty());
    let full = [MicroOp::Nop; MAX_INSTR_CYCLES];
    let def = InstrDef::from(&full);
    assert_eq!(def.cycles, 6);
    assert_eq!(def.as_vec(), full.to_vec());
}

fn expected(opcode: u8) -> Vec<MicroOp> {
    match opcode {
        0x81 => vec![M::ImmZal, M::AddXZal, M::IndLoAal, M::IndHiAal, M::AalSta],
        0x84 => vec![M::ImmZal, M::ZalSty],
        0x85 => vec![M::ImmZal, M::ZalSta],
        0x86 => vec![M::ImmZal, M::ZalStx],
        0x8A => vec![M::Txa],
        0x8C => vec![M::ImmLoAal, M::ImmHiAal, M::AalSty],
        0x8D => vec![M::ImmLoAal, M::ImmHiAal, M::AalSta],
        0x8E => vec![M::ImmLoAal, M::ImmHiAal, M::AalStx],
        0x91 => vec![M::ImmZal, M::IndLoAal, M::IndHiAal, M::AddYAal, M::AalSta],
        0x94 => vec![M::ImmZal, M::AddXZal, M::ZalSty],
        0x95 => vec![M::ImmZal, M::AddXZal, M::ZalSta],
        0x96 => vec![M::ImmZal, M::AddYZal, M::ZalStx],
        0x98 => vec![M::Tya],
        0x99 => vec![M::ImmLoAal, M::ImmHiAal, M::AddYAal, M::AalSta],
        0x9D => vec![M::ImmLoAal, M::ImmHiAal, M::AddXAal, M::AalSta],
        0xA0 => vec![M::ImmY],
        0xA1 => vec![M::ImmZal, M::AddXZal, M::IndLoAal, M::IndHiAal, M::AalLda],
        0xA2 => vec![M::ImmX],
        0xA4 => vec![M::ImmZal, M::ZalLdy],
        0xA5 => vec![M::ImmZal, M::ZalLda],
        0xA6 => vec![M::ImmZal, M::ZalLdx],
        0xA8 => vec![M::Tay],
        0xA9 => vec![M::ImmA],
        0xAA => vec![M::Tax],
        0xAC => vec![M::ImmLoAal, M::ImmHiAal, M::AalLdy],
        0xAD => vec![M::ImmLoAal, M::ImmHiAal, M::AalLda],
        0xAE => vec![M::ImmLoAal, M::ImmHiAal, M::AalLdx],
        0xB1 => vec![M::ImmZal, M::IndLoAal, M::IndHiAal, M::YAalLda],
        0xB4 => vec![M::ImmZal, M::AddXZal, M::ZalLdy],
        0xB5 => vec![M::ImmZal, M::AddXZal, M::ZalLda],
        0xB6 => vec![M::ImmZal, M::AddYZal, M::ZalLdx],
        0xB9 => vec![M::ImmLoAal, M::ImmHiAal, M::YAalLda],
        0xBC => vec![M::ImmLoAal, M::ImmHiAal, M::XAalLdy],
        0xBD => vec![M::ImmLoAal, M::ImmHiAal, M::XAalLda],
        0xBE => vec![M::ImmLoAal, M::ImmHiAal, M::YAalLdx],
        0xEA => vec![M::Nop],
        _ => vec![],
    }
}

#[test]
fn instruction_table_holds_every_definition() {
    let table = MOS6502::instruction_table();
    assert_eq!(table.len(), 256);
    let mut defined = 0;
    for opcode in 0u8..=255 {
        let def = table[opcode as usize];
        assert_eq!(def.as_vec(), expected(opcode), "opcode {:#04x}", opcode);
        assert_eq!(def.cycles, expected(opcode).len());
        for slot in def.cycles..MAX_INSTR_CYCLES {
            assert_eq!(def.u_ops[slot], None);
        }
        if def.cycles > 0 {
            defined += 1;
        }
    }
    assert_eq!(defined, 36);
}

#[test]
fn lookup_agrees_with_the_table() {
    let table = MOS6502::instruction_table();
    let lookup = InstructionTable::new();
    for opcode in 0u8..=255 {
        assert_eq!(lookup.lookup(opcode).as_vec(), table[opcode as usize].as_vec());
    }
    assert_eq!(lookup.lookup(0xA9).as_vec(), vec![MicroOp::ImmA]);
    assert_eq!(lookup.lookup(0x00).cycles, 0);
}

#[test]
fn flag_masks() {
    assert_eq!(Flag::Carry.mask(), 0b0000_0001);
    assert_eq!(Flag::Zero.mask(), 0b0000_0010);
    assert_eq!(Flag::Interrupt.mask(), 0b0000_0100);
    assert_eq!(Flag::Decimal.mask(), 0b0000_1000);
    assert_eq!(Flag::Break.mask(), 0b0001_0000);
    assert_eq!(Flag::Unused.mask(), 0b0010_0000);
    assert_eq!(Flag::Overflow.mask(), 0b0100_0000);
    assert_eq!(Flag::Negative.mask(), 0b1000_0000);
}

#[test]
fn status_insert_remove_and_set() {
    let mut status = Status::empty();
    assert_eq!(status.bits(), 0);
    assert!(!status.contains(Flag::Carry));
    status.insert(Flag::Carry);
    status.insert(Flag::Negative);
    assert_eq!(status.bits(), 0x81);
    assert!(status.contains(Flag::Carry));
    assert!(status.contains(Flag::Negative));
    assert!(!status.contains(Flag::Zero));
    status.insert(Flag::Carry);
    assert_eq!(status.bits(), 0x81);
    status.remove(Flag::Carry);
    assert_eq!(status.bits(), 0x80);
    status.remove(Flag::Carry);
    assert_eq!(status.bits(), 0x80);
    status.set(Flag::Zero, true);
    assert_eq!(status.bits(), 0x82);
    status.set(Flag::Negative, false);
    assert_eq!(status.bits(), 0x02);
    status.set(Flag::Zero, true);
    assert_eq!(status.bits(), 0x02);
    status.set(Flag::Overflow, false);
    assert_eq!(status.bits(), 0x02);
}

#[test]
fn status_flags_are_independent() {
    let flags = [
        Flag::Carry,
        Flag::Zero,
        Flag::Interrupt,
        Flag::Decimal,
        Flag::Break,
        Flag::Unused,
        Flag::Overflow,
        Flag::Negative,
    ];
    for &flag in &flags {
        for &other in &flags {
            let mut status = Status::empty();
            status.insert(other);
            status.set(flag, true);
            assert!(status.contains(flag));
            assert!(status.contains(other));
            status.set(flag, false);
            assert!(!status.contains(flag));
            assert_eq!(status.contains(other), other != flag);
        }
    }
}
