use rust_nes::hardware::cpu::{Flag, MicroOp};
use rust_nes::hardware::{Bus, Cart, APU, MOS6502, PPU};
use rust_nes::header::NESHeader;
use rust_nes::RustNesError;

fn header() -> NESHeader {
    let mut bytes = [0u8; 16];
    bytes[..4].copy_from_slice(&[b'N', b'E', b'S', 0x1A]);
    bytes[4] = 2;
    NESHeader::from_bytes(&bytes).unwrap()
}

/// A processor whose work memory holds `program` from address `origin` on,
/// with the program counter at zero.
fn cpu_with_ram(origin: u16, program: &[u8]) -> MOS6502 {
    let mut bus = Bus::new(PPU::new(), APU::new());
    for (offset, &byte) in program.iter().enumerate() {
        bus.write(origin + offset as u16, byte);
    }
    MOS6502::new(bus)
}

/// A processor after reset, with a 32 KiB cartridge that holds `program` at
/// `origin` and points its reset vector there.
fn cpu_with_cart(origin: u16, program: &[u8]) -> MOS6502 {
    let mut data = vec![0u8; 0x8000];
    let start = (origin - 0x8000) as usize;
    data[start..start + program.len()].copy_from_slice(program);
    data[0x7FFC] = origin as u8;
    data[0x7FFD] = (origin >> 8) as u8;
    let mut bus = Bus::new(PPU::new(), APU::new());
    bus.load_cart(Cart::new(header(), &data));
    let mut cpu = MOS6502::new(bus);
    assert_eq!(cpu.reset(), Ok(()));
    cpu
}

fn run(cpu: &mut MOS6502, cycles: usize) {
    for _ in 0..cycles {
        assert_eq!(cpu.step(), Ok(()));
    }
}

/// Steps until the processor is back at an instruction boundary and says how
/// many cycles that took.
fn run_instruction(cpu: &mut MOS6502) -> usize {
    let mut cycles = 0;
    loop {
        assert_eq!(cpu.step(), Ok(()));
        cycles += 1;
        if cpu.pending() == 0 {
            return cycles;
        }
        assert!(cycles < 16);
    }
}

#[test]
fn new_processor_is_cleared() {
    let cpu = cpu_with_ram(0, &[]);
    assert_eq!(cpu.program_counter(), 0);
    assert_eq!(cpu.a(), 0);
    assert_eq!(cpu.x(), 0);
    assert_eq!(cpu.y(), 0);
    assert_eq!(cpu.status().bits(), 0);
    assert_eq!(cpu.stack_ptr(), 0);
    assert_eq!(cpu.pending(), 0);
    assert_eq!(cpu.state().data_latch, 0);
    assert_eq!(cpu.state().abs_addr_latch, 0);
    assert_eq!(cpu.state().zpg_addr_latch, 0);
    assert_eq!(cpu.state().address_bus, 0);
    assert!(cpu.state().u_op_queue.is_empty());
}

#[test]
fn reset_reads_the_vector_and_sets_power_on_state() {
    let cpu = cpu_with_cart(0xC123, &[]);
    assert_eq!(cpu.program_counter(), 0xC123);
    assert_eq!(cpu.stack_ptr(), 0xFD);
    assert_eq!(cpu.status().bits(), 0x20);
    assert!(cpu.status().contains(Flag::Unused));
    for flag in [
        Flag::Carry,
        Flag::Zero,
        Flag::Interrupt,
        Flag::Decimal,
        Flag::Break,
        Flag::Overflow,
        Flag::Negative,
    ] {
        assert!(!cpu.status().contains(flag));
    }
    assert_eq!(cpu.pending(), 0);
}

#[test]
fn reset_puts_the_high_byte_on_top() {
    let mut data = vec![0u8; 0x8000];
    data[0x7FFC] = 0x34;
    data[0x7FFD] = 0x12;
    let mut bus = Bus::new(PPU::new(), APU::new());
    bus.load_cart(Cart::new(header(), &data));
    let mut cpu = MOS6502::new(bus);
    assert_eq!(cpu.reset(), Ok(()));
    assert_eq!(cpu.program_counter(), 0x1234);
}

#[test]
fn reset_without_a_cartridge_starts_at_zero() {
    let mut cpu = cpu_with_ram(0, &[0xA9, 0x01]);
    assert_eq!(cpu.reset(), Ok(()));
    assert_eq!(cpu.program_counter(), 0);
    assert_eq!(cpu.stack_ptr(), 0xFD);
    assert_eq!(cpu.status().bits(), 0x20);
}

#[test]
fn reset_drops_pending_work_and_clears_flags_but_keeps_registers() {
    let mut cpu = cpu_with_cart(0x8000, &[0xA9, 0x80, 0xA2, 0x07, 0xAD, 0x00, 0x00]);
    run(&mut cpu, 4);
    assert_eq!(cpu.a(), 0x80);
    assert_eq!(cpu.x(), 0x07);
    run(&mut cpu, 2);
    assert_eq!(cpu.pending(), 2);
    assert_eq!(cpu.reset(), Ok(()));
    assert_eq!(cpu.pending(), 0);
    assert_eq!(cpu.program_counter(), 0x8000);
    assert_eq!(cpu.status().bits(), 0x20);
    assert_eq!(cpu.stack_ptr(), 0xFD);
    assert_eq!(cpu.a(), 0x80);
    assert_eq!(cpu.x(), 0x07);
}

#[test]
fn lda_immediate_takes_two_cycles() {
    let mut cpu = cpu_with_ram(0, &[0xA9, 0x45]);
    assert_eq!(cpu.step(), Ok(()));
    assert_eq!(cpu.a(), 0);
    assert_eq!(cpu.program_counter(), 1);
    assert_eq!(cpu.pending(), 1);
    assert_eq!(cpu.state().u_op_queue.front(), Some(&MicroOp::ImmA));
    assert_eq!(cpu.step(), Ok(()));
    assert_eq!(cpu.a(), 0x45);
    assert_eq!(cpu.program_counter(), 2);
    assert_eq!(cpu.pending(), 0);
    assert_eq!(cpu.state().data_latch, 0x45);
    assert!(!cpu.status().contains(Flag::Zero));
    assert!(!cpu.status().contains(Flag::Negative));
}

#[test]
fn lda_immediate_zero_sets_zero() {
    let mut cpu = cpu_with_ram(0, &[0xA9, 0x45, 0xA9, 0x00]);
    run(&mut cpu, 4);
    assert_eq!(cpu.a(), 0x00);
    assert!(cpu.status().contains(Flag::Zero));
    assert!(!cpu.status().contains(Flag::Negative));
}

#[test]
fn lda_immediate_negative_sets_negative() {
    let mut cpu = cpu_with_ram(0, &[0xA9, 0x80]);
    run(&mut cpu, 2);
    assert_eq!(cpu.a(), 0x80);
    assert!(!cpu.status().contains(Flag::Zero));
    assert!(cpu.status().contains(Flag::Negative));
    assert_eq!(cpu.status().bits(), 0x80);
}

#[test]
fn lda_immediate_flags_for_every_value() {
    for value in 0u8..=255 {
        let mut cpu = cpu_with_cart(0x8000, &[0xA9, value]);
        run(&mut cpu, 2);
        assert_eq!(cpu.a(), value);
        assert_eq!(cpu.status().contains(Flag::Zero), value == 0);
        assert_eq!(cpu.status().contains(Flag::Negative), value >= 0x80);
        assert!(cpu.status().contains(Flag::Unused));
        assert!(!cpu.status().contains(Flag::Carry));
    }
}

#[test]
fn flags_follow_the_latest_load() {
    let mut cpu = cpu_with_ram(0, &[0xA9, 0x00, 0xA2, 0xFF, 0xA0, 0x01]);
    run(&mut cpu, 2);
    assert_eq!(cpu.status().bits(), 0x02);
    run(&mut cpu, 2);
    assert_eq!(cpu.x(), 0xFF);
    assert_eq!(cpu.status().bits(), 0x80);
    run(&mut cpu, 2);
    assert_eq!(cpu.y(), 0x01);
    assert_eq!(cpu.status().bits(), 0x00);
}

#[test]
fn load_store_break_sequence() {
    let mut cpu = cpu_with_cart(0x8000, &[0xA9, 0x45, 0x85, 0x00, 0x00]);
    run(&mut cpu, 2);
    assert_eq!(cpu.a(), 0x45);
    assert_eq!(cpu.bus().read(0x00), 0);
    run(&mut cpu, 3);
    assert_eq!(cpu.bus().read(0x00), 0x45);
    assert_eq!(cpu.pending(), 0);
    assert_eq!(cpu.step(), Err(RustNesError::Break));
    assert_eq!(cpu.program_counter(), 0x8005);
    assert_eq!(cpu.pending(), 0);
}

#[test]
fn load_store_break_sequence_in_work_memory() {
    // the processor starts at address zero and walks over idle instructions
    // up to the program
    let mut program = vec![0xEA; 0x0200];
    program.extend_from_slice(&[0xA9, 69, 0x85, 0x10, 0x00]);
    let mut cpu = cpu_with_ram(0, &program);
    run(&mut cpu, 2 * 0x0200);
    assert_eq!(cpu.program_counter(), 0x0200);
    run(&mut cpu, 5);
    assert_eq!(cpu.bus().read(0x10), 0x45);
    assert_eq!(cpu.step(), Err(RustNesError::Break));
}

#[test]
fn break_is_reported_again_on_the_next_halt_opcode() {
    let mut cpu = cpu_with_ram(0, &[0x00, 0x00, 0xEA]);
    assert_eq!(cpu.step(), Err(RustNesError::Break));
    assert_eq!(cpu.program_counter(), 1);
    assert_eq!(cpu.step(), Err(RustNesError::Break));
    assert_eq!(cpu.program_counter(), 2);
    assert_eq!(cpu.step(), Ok(()));
    assert_eq!(cpu.pending(), 1);
}

#[test]
fn invalid_opcode_carries_the_byte() {
    let mut cpu = cpu_with_ram(0, &[0x02]);
    assert_eq!(cpu.step(), Err(RustNesError::InvalidOpcode(0x02)));
    assert_eq!(cpu.program_counter(), 1);
    assert_eq!(cpu.pending(), 0);
    assert_eq!(cpu.a(), 0);
}

#[test]
fn every_undefined_opcode_is_reported_with_its_byte() {
    let table = MOS6502::instruction_table();
    let mut undefined = 0;
    for opcode in 1u8..=255 {
        let mut cpu = cpu_with_cart(0x9000, &[opcode, 0x10, 0x20]);
        let result = cpu.step();
        if table[opcode as usize].cycles == 0 {
            undefined += 1;
            assert_eq!(result, Err(RustNesError::InvalidOpcode(opcode)));
            assert_eq!(cpu.pending(), 0);
        } else {
            assert_eq!(result, Ok(()));
            assert_eq!(cpu.pending(), table[opcode as usize].cycles);
        }
        assert_eq!(cpu.program_counter(), 0x9001);
    }
    assert_eq!(undefined, 255 - 36);
}

#[test]
fn stepping_goes_on_after_an_invalid_opcode() {
    let mut cpu = cpu_with_ram(0, &[0xFF, 0xA9, 0x07]);
    assert_eq!(cpu.step(), Err(RustNesError::InvalidOpcode(0xFF)));
    run(&mut cpu, 2);
    assert_eq!(cpu.a(), 0x07);
}

#[test]
fn absolute_x_load_without_page_crossing_takes_four_cycles() {
    // LDX #$01, LDA $8010,X
    let mut program = vec![0xA2, 0x01, 0xBD, 0x10, 0x80];
    program.resize(0x20, 0);
    program[0x11] = 0x5A;
    let mut cpu = cpu_with_cart(0x8000, &program);
    run(&mut cpu, 2);
    assert_eq!(run_instruction(&mut cpu), 4);
    assert_eq!(cpu.a(), 0x5A);
    assert_eq!(cpu.program_counter(), 0x8005);
}

#[test]
fn absolute_x_load_with_page_crossing_takes_five_cycles() {
    // LDX #$01, LDA $80FF,X
    let mut program = vec![0xA2, 0x01, 0xBD, 0xFF, 0x80];
    program.resize(0x101, 0);
    program[0x100] = 0x5A;
    let mut cpu = cpu_with_cart(0x8000, &program);
    run(&mut cpu, 2);
    assert_eq!(run_instruction(&mut cpu), 5);
    assert_eq!(cpu.a(), 0x5A);
    assert_eq!(cpu.program_counter(), 0x8005);
}

#[test]
fn page_crossing_leaves_one_idle_cycle_pending() {
    let mut program = vec![0xA0, 0xFF, 0xB9, 0x01, 0x80];
    program.resize(0x101, 0);
    program[0x100] = 0x81;
    let mut cpu = cpu_with_cart(0x8000, &program);
    run(&mut cpu, 2 + 4);
    assert_eq!(cpu.a(), 0x81);
    assert!(cpu.status().contains(Flag::Negative));
    assert_eq!(cpu.pending(), 1);
    assert_eq!(cpu.state().u_op_queue.front(), Some(&MicroOp::Nop));
    run(&mut cpu, 1);
    assert_eq!(cpu.pending(), 0);
    assert_eq!(cpu.a(), 0x81);
}

fn indexed_load_cycles(opcode: u8, low: u8, index: u8) -> (usize, MOS6502) {
    // LDX #index, LDY #index, then the load from $81xx with that index
    let mut program = vec![0xA2, index, 0xA0, index, opcode, low, 0x81];
    program.resize(0x300, 0);
    for (offset, byte) in program.iter_mut().enumerate().skip(0x100) {
        *byte = (offset as u8) ^ 0xC3;
    }
    let mut cpu = cpu_with_cart(0x8000, &program);
    run(&mut cpu, 4);
    let cycles = run_instruction(&mut cpu);
    (cycles, cpu)
}

#[test]
fn every_indexed_load_pays_one_cycle_exactly_on_a_page_crossing() {
    for &opcode in &[0xB9u8, 0xBC, 0xBD, 0xBE] {
        for &(low, index) in &[
            (0x00u8, 0x00u8),
            (0x00, 0xFF),
            (0x01, 0xFE),
            (0x01, 0xFF),
            (0x80, 0x7F),
            (0x80, 0x80),
            (0xFF, 0x00),
            (0xFF, 0x01),
            (0xFF, 0xFF),
        ] {
            let (cycles, cpu) = indexed_load_cycles(opcode, low, index);
            let crosses = low as u16 + index as u16 > 0xFF;
            assert_eq!(cycles, if crosses { 5 } else { 4 });
            let target = 0x8100usize + low as usize + index as usize;
            let value = ((target - 0x8000) as u8) ^ 0xC3;
            let loaded = match opcode {
                0xBC => cpu.y(),
                0xBE => cpu.x(),
                _ => cpu.a(),
            };
            assert_eq!(loaded, value);
        }
    }
}

#[test]
fn zero_page_loads_and_stores() {
    // LDA #$11, STA $20, LDX $20, STX $21, LDY $21, STY $22, LDA $22
    let program =
        [0xA9, 0x11, 0x85, 0x20, 0xA6, 0x20, 0x86, 0x21, 0xA4, 0x21, 0x84, 0x22, 0xA5, 0x22];
    let mut cpu = cpu_with_cart(0x8000, &program);
    assert_eq!(run_instruction(&mut cpu), 2);
    for _ in 0..6 {
        assert_eq!(run_instruction(&mut cpu), 3);
    }
    assert_eq!(cpu.bus().read(0x20), 0x11);
    assert_eq!(cpu.bus().read(0x21), 0x11);
    assert_eq!(cpu.bus().read(0x22), 0x11);
    assert_eq!(cpu.x(), 0x11);
    assert_eq!(cpu.y(), 0x11);
    assert_eq!(cpu.a(), 0x11);
    assert_eq!(cpu.state().zpg_addr_latch, 0x22);
}

#[test]
fn absolute_loads_and_stores() {
    // LDA #$C4, STA $0345, LDX $0345, STX $0346, LDY $0346, STY $0347, LDA $0347
    let program = [
        0xA9, 0xC4, 0x8D, 0x45, 0x03, 0xAE, 0x45, 0x03, 0x8E, 0x46, 0x03, 0xAC, 0x46, 0x03, 0x8C,
        0x47, 0x03, 0xAD, 0x47, 0x03,
    ];
    let mut cpu = cpu_with_cart(0x8000, &program);
    assert_eq!(run_instruction(&mut cpu), 2);
    for _ in 0..6 {
        assert_eq!(run_instruction(&mut cpu), 4);
    }
    assert_eq!(cpu.bus().read(0x0345), 0xC4);
    assert_eq!(cpu.bus().read(0x0346), 0xC4);
    assert_eq!(cpu.bus().read(0x0347), 0xC4);
    assert_eq!(cpu.bus().read(0x0B47), 0xC4);
    assert_eq!(cpu.x(), 0xC4);
    assert_eq!(cpu.y(), 0xC4);
    assert_eq!(cpu.state().abs_addr_latch, 0x0347);
    assert!(cpu.status().contains(Flag::Negative));
}

#[test]
fn absolute_latch_is_assembled_low_byte_first() {
    let mut cpu = cpu_with_ram(0, &[0xAD, 0x34, 0x12]);
    run(&mut cpu, 2);
    assert_eq!(cpu.state().abs_addr_latch, 0x0034);
    assert_eq!(cpu.state().data_latch, 0x34);
    run(&mut cpu, 1);
    assert_eq!(cpu.state().abs_addr_latch, 0x1234);
    assert_eq!(cpu.state().data_latch, 0x12);
    assert_eq!(cpu.program_counter(), 3);
}

#[test]
fn register_transfers() {
    // LDA #$80, TAX, LDA #$00, TAY, TXA, TYA
    let program = [0xA9, 0x80, 0xAA, 0xA9, 0x00, 0xA8, 0x8A, 0x98];
    let mut cpu = cpu_with_ram(0, &program);
    run(&mut cpu, 4);
    assert_eq!(cpu.x(), 0x80);
    assert!(cpu.status().contains(Flag::Negative));
    run(&mut cpu, 4);
    assert_eq!(cpu.y(), 0x00);
    assert!(cpu.status().contains(Flag::Zero));
    assert!(!cpu.status().contains(Flag::Negative));
    run(&mut cpu, 2);
    assert_eq!(cpu.a(), 0x80);
    assert!(cpu.status().contains(Flag::Negative));
    assert!(!cpu.status().contains(Flag::Zero));
    run(&mut cpu, 2);
    assert_eq!(cpu.a(), 0x00);
    assert!(cpu.status().contains(Flag::Zero));
    assert_eq!(cpu.program_counter(), 8);
}

#[test]
fn nop_takes_two_cycles_and_changes_nothing() {
    let mut cpu = cpu_with_ram(0, &[0xA9, 0x33, 0xEA]);
    run(&mut cpu, 2);
    let status = cpu.status();
    assert_eq!(run_instruction(&mut cpu), 2);
    assert_eq!(cpu.a(), 0x33);
    assert_eq!(cpu.status(), status);
    assert_eq!(cpu.program_counter(), 3);
}

#[test]
fn zero_page_indexing_wraps_inside_the_zero_page() {
    // LDX #$10, LDA #$77, STA $F8,X  -> lands on $08
    let mut cpu = cpu_with_cart(0x8000, &[0xA2, 0x10, 0xA9, 0x77, 0x95, 0xF8, 0xB5, 0xF8]);
    run(&mut cpu, 4);
    assert_eq!(run_instruction(&mut cpu), 4);
    assert_eq!(cpu.bus().read(0x0008), 0x77);
    assert_eq!(cpu.bus().read(0x0108), 0);
    assert_eq!(cpu.state().zpg_addr_latch, 0x08);
    assert_eq!(run_instruction(&mut cpu), 4);
    assert_eq!(cpu.a(), 0x77);
}

#[test]
fn zero_page_indexed_by_each_register() {
    // LDX #$02, LDY #$03, LDA #$21, STA $42, LDA #$22, STA $43,
    // LDX $40,Y ; STX $50,Y ; LDX #$02 ; LDY $40,X ; STY $50,X
    let program = [
        0xA2, 0x02, 0xA0, 0x03, 0xA9, 0x21, 0x85, 0x42, 0xA9, 0x22, 0x85, 0x43, 0xB6, 0x40, 0x96,
        0x50, 0xA2, 0x02, 0xB4, 0x40, 0x94, 0x50,
    ];
    let mut cpu = cpu_with_cart(0x8000, &program);
    run(&mut cpu, 2 + 2 + 2 + 3 + 2 + 3);
    assert_eq!(run_instruction(&mut cpu), 4);
    assert_eq!(cpu.x(), 0x22);
    assert_eq!(run_instruction(&mut cpu), 4);
    assert_eq!(cpu.bus().read(0x53), 0x22);
    assert_eq!(run_instruction(&mut cpu), 2);
    assert_eq!(run_instruction(&mut cpu), 4);
    assert_eq!(cpu.y(), 0x21);
    assert_eq!(run_instruction(&mut cpu), 4);
    assert_eq!(cpu.bus().read(0x52), 0x21);
}

#[test]
fn indexed_indirect_load_and_store() {
    // pointer at $24/$25 -> $0310
    // LDA #$10, STA $24, LDA #$03, STA $25, LDX #$04, LDA #$9C, STA ($20,X), LDA #$00, LDA ($20,X)
    let program = [
        0xA9, 0x10, 0x85, 0x24, 0xA9, 0x03, 0x85, 0x25, 0xA2, 0x04, 0xA9, 0x9C, 0x81, 0x20, 0xA9,
        0x00, 0xA1, 0x20,
    ];
    let mut cpu = cpu_with_cart(0x8000, &program);
    run(&mut cpu, 2 + 3 + 2 + 3 + 2 + 2);
    assert_eq!(run_instruction(&mut cpu), 6);
    assert_eq!(cpu.bus().read(0x0310), 0x9C);
    assert_eq!(cpu.state().abs_addr_latch, 0x0310);
    run(&mut cpu, 2);
    assert_eq!(cpu.a(), 0);
    assert_eq!(run_instruction(&mut cpu), 6);
    assert_eq!(cpu.a(), 0x9C);
}

#[test]
fn indirect_pointer_wraps_inside_the_zero_page() {
    // pointer low byte at $FF, high byte at $00
    // LDA #$40, STA $FF, LDA #$02, STA $00, LDA #$6D, STA $0240, LDX #$00, LDA ($FF,X)
    let program = [
        0xA9, 0x40, 0x85, 0xFF, 0xA9, 0x02, 0x85, 0x00, 0xA9, 0x6D, 0x8D, 0x40, 0x02, 0xA2, 0x00,
        0xA1, 0xFF,
    ];
    let mut cpu = cpu_with_cart(0x8000, &program);
    run(&mut cpu, 2 + 3 + 2 + 3 + 2 + 4 + 2);
    assert_eq!(run_instruction(&mut cpu), 6);
    assert_eq!(cpu.state().abs_addr_latch, 0x0240);
    assert_eq!(cpu.a(), 0x6D);
}

#[test]
fn indirect_indexed_load_pays_for_a_page_crossing() {
    // pointer at $30/$31 -> $02F0; LDA ($30),Y with Y = $20 reads $0310
    let setup = [
        0xA9, 0xF0, 0x85, 0x30, 0xA9, 0x02, 0x85, 0x31, 0xA9, 0xE7, 0x8D, 0x10, 0x03, 0xA9, 0x3B,
        0x8D, 0xF1, 0x02,
    ];
    let mut program = setup.to_vec();
    program.extend_from_slice(&[0xA0, 0x20, 0xB1, 0x30, 0xA0, 0x01, 0xB1, 0x30]);
    let mut cpu = cpu_with_cart(0x8000, &program);
    run(&mut cpu, 2 + 3 + 2 + 3 + 2 + 4 + 2 + 4 + 2);
    assert_eq!(run_instruction(&mut cpu), 6);
    assert_eq!(cpu.a(), 0xE7);
    run(&mut cpu, 2);
    assert_eq!(run_instruction(&mut cpu), 5);
    assert_eq!(cpu.a(), 0x3B);
}

#[test]
fn indexed_stores_always_take_the_extra_cycle() {
    // LDX #$01, LDY #$02, LDA #$A5, STA $02FF,X ; STA $0300,Y ; STA $0300,X
    let program = [
        0xA2, 0x01, 0xA0, 0x02, 0xA9, 0xA5, 0x9D, 0xFF, 0x02, 0x99, 0x00, 0x03, 0x9D, 0x00, 0x03,
    ];
    let mut cpu = cpu_with_cart(0x8000, &program);
    run(&mut cpu, 6);
    assert_eq!(run_instruction(&mut cpu), 5);
    assert_eq!(cpu.bus().read(0x0300), 0xA5);
    assert_eq!(cpu.state().abs_addr_latch, 0x0300);
    assert_eq!(run_instruction(&mut cpu), 5);
    assert_eq!(cpu.bus().read(0x0302), 0xA5);
    assert_eq!(run_instruction(&mut cpu), 5);
    assert_eq!(cpu.bus().read(0x0301), 0xA5);
    assert_eq!(cpu.bus().read(0x02FF), 0);
}

#[test]
fn indirect_indexed_store() {
    // pointer at $30/$31 -> $02F0, Y = $20: STA ($30),Y writes $0310
    let program = [
        0xA9, 0xF0, 0x85, 0x30, 0xA9, 0x02, 0x85, 0x31, 0xA0, 0x20, 0xA9, 0x4E, 0x91, 0x30,
    ];
    let mut cpu = cpu_with_cart(0x8000, &program);
    run(&mut cpu, 2 + 3 + 2 + 3 + 2 + 2);
    assert_eq!(run_instruction(&mut cpu), 6);
    assert_eq!(cpu.bus().read(0x0310), 0x4E);
}

#[test]
fn indexed_address_wraps_at_the_top_of_the_address_space() {
    // LDA #$5E, STA $01, LDX #$02, LDA #$00, LDA $FFFF,X  -> reads $0001
    let program = [0xA9, 0x5E, 0x85, 0x01, 0xA2, 0x02, 0xA9, 0x00, 0xBD, 0xFF, 0xFF];
    let mut cpu = cpu_with_cart(0x8000, &program);
    run(&mut cpu, 2 + 3 + 2 + 2);
    assert_eq!(run_instruction(&mut cpu), 5);
    assert_eq!(cpu.a(), 0x5E);
}

#[test]
fn program_counter_wraps_at_the_top_of_the_address_space() {
    let mut data = vec![0u8; 0x8000];
    data[0x7FFC] = 0xFF;
    data[0x7FFD] = 0xFF;
    data[0x7FFF] = 0xA9;
    let mut bus = Bus::new(PPU::new(), APU::new());
    bus.write(0x0000, 0x3C);
    bus.load_cart(Cart::new(header(), &data));
    let mut cpu = MOS6502::new(bus);
    assert_eq!(cpu.reset(), Ok(()));
    assert_eq!(cpu.program_counter(), 0xFFFF);
    run(&mut cpu, 1);
    assert_eq!(cpu.program_counter(), 0x0000);
    run(&mut cpu, 1);
    assert_eq!(cpu.a(), 0x3C);
    assert_eq!(cpu.program_counter(), 0x0001);
}

#[test]
fn stores_to_read_only_ranges_change_nothing() {
    // LDA #$FF, STA $2000, STA $4000, STA $8000, LDA $2000
    let program = [0xA9, 0xFF, 0x8D, 0x00, 0x20, 0x8D, 0x00, 0x40, 0x8D, 0x00, 0x80, 0xAD, 0x00, 0x20];
    let mut cpu = cpu_with_cart(0x8000, &program);
    run(&mut cpu, 2 + 4 + 4 + 4);
    assert_eq!(cpu.bus().read(0x2000), 0);
    assert_eq!(cpu.bus().read(0x4000), 0);
    assert_eq!(cpu.bus().read(0x8000), 0xA9);
    run(&mut cpu, 4);
    assert_eq!(cpu.a(), 0);
    assert!(cpu.status().contains(Flag::Zero));
}

#[test]
fn micro_operations_can_be_run_one_by_one() {
    let mut cpu = cpu_with_ram(0, &[0x34, 0x12, 0x80]);
    cpu.imm_lo_aal();
    cpu.imm_hi_aal();
    assert_eq!(cpu.state().abs_addr_latch, 0x1234);
    cpu.imm_x();
    assert_eq!(cpu.x(), 0x80);
    assert!(cpu.status().contains(Flag::Negative));
    cpu.txa();
    cpu.tay();
    assert_eq!(cpu.y(), 0x80);
    cpu.add_x_aal();
    assert_eq!(cpu.state().abs_addr_latch, 0x12B4);
    cpu.add_y_aal();
    assert_eq!(cpu.state().abs_addr_latch, 0x1334);
    cpu.execute(MicroOp::AalSta);
    assert_eq!(cpu.bus().read(0x1334), 0x80);
    assert_eq!(cpu.bus().read(0x0334), 0x80);
    cpu.nop();
    cpu.execute(MicroOp::Nop);
    assert_eq!(cpu.program_counter(), 3);
    assert_eq!(cpu.pending(), 0);
}

#[test]
fn executing_an_indexed_load_directly_queues_the_idle_cycle() {
    let mut program = vec![0xFF, 0x00, 0x01];
    program.resize(0x101, 0);
    program[0xFF] = 0x7B;
    program[0x100] = 0x6A;
    let mut cpu = cpu_with_ram(0, &program);
    cpu.imm_lo_aal();
    cpu.imm_hi_aal();
    cpu.imm_y();
    cpu.y_aal_lda();
    assert_eq!(cpu.pending(), 1);
    assert_eq!(cpu.a(), 0x6A);
    cpu.y_aal_lda();
    assert_eq!(cpu.pending(), 2);
    cpu.imm_x();
    assert_eq!(cpu.x(), 0);
    cpu.x_aal_ldy();
    assert_eq!(cpu.pending(), 2);
    assert_eq!(cpu.y(), 0x7B);
}

#[test]
fn every_bus_access_leaves_its_address_on_the_bus() {
    // LDA #$5A, STA $0345, LDX $20, NOP
    let mut cpu = cpu_with_cart(0x8000, &[0xA9, 0x5A, 0x8D, 0x45, 0x03, 0xA6, 0x20, 0xEA]);
    assert_eq!(cpu.state().address_bus, 0xFFFC);
    run(&mut cpu, 1);
    assert_eq!(cpu.state().address_bus, 0x8000);
    run(&mut cpu, 1);
    assert_eq!(cpu.state().address_bus, 0x8001);
    run(&mut cpu, 3);
    assert_eq!(cpu.state().address_bus, 0x8004);
    run(&mut cpu, 1);
    assert_eq!(cpu.state().address_bus, 0x0345);
    run(&mut cpu, 3);
    assert_eq!(cpu.state().address_bus, 0x0020);
    run(&mut cpu, 1);
    assert_eq!(cpu.state().address_bus, 0x8007);
    run(&mut cpu, 1);
    assert_eq!(cpu.state().address_bus, 0x8007);
}

#[test]
fn indexed_store_reads_once_before_the_carry() {
    // LDX #$01, LDA #$A5, STA $02FF,X  -> the store lands on $0300
    let mut cpu = cpu_with_cart(0x8000, &[0xA2, 0x01, 0xA9, 0xA5, 0x9D, 0xFF, 0x02]);
    run(&mut cpu, 4 + 3);
    assert_eq!(cpu.state().abs_addr_latch, 0x02FF);
    run(&mut cpu, 1);
    assert_eq!(cpu.state().abs_addr_latch, 0x0300);
    assert_eq!(cpu.state().address_bus, 0x0200);
    assert_eq!(cpu.bus().read(0x0300), 0);
    run(&mut cpu, 1);
    assert_eq!(cpu.state().address_bus, 0x0300);
    assert_eq!(cpu.bus().read(0x0300), 0xA5);
}

#[test]
fn indexed_store_without_a_carry_reads_at_the_target() {
    // LDY #$02, LDA #$77, STA $0310,Y
    let mut cpu = cpu_with_cart(0x8000, &[0xA0, 0x02, 0xA9, 0x77, 0x99, 0x10, 0x03]);
    run(&mut cpu, 4 + 4);
    assert_eq!(cpu.state().abs_addr_latch, 0x0312);
    assert_eq!(cpu.state().address_bus, 0x0312);
    run(&mut cpu, 1);
    assert_eq!(cpu.bus().read(0x0312), 0x77);
}

#[test]
fn pre_carry_read_wraps_inside_the_top_page() {
    let mut cpu = cpu_with_ram(0, &[0xFF, 0xFF, 0x02]);
    cpu.imm_lo_aal();
    cpu.imm_hi_aal();
    cpu.imm_x();
    cpu.add_x_aal();
    assert_eq!(cpu.state().abs_addr_latch, 0x0001);
    assert_eq!(cpu.state().address_bus, 0xFF01);
}

#[test]
fn indirect_reads_put_the_pointer_on_the_bus() {
    // pointer at $FF/$00; LDX #$00, LDA ($FF,X)
    let mut cpu = cpu_with_cart(0x8000, &[0xA2, 0x00, 0xA1, 0xFF]);
    run(&mut cpu, 2 + 3);
    run(&mut cpu, 1);
    assert_eq!(cpu.state().address_bus, 0x00FF);
    run(&mut cpu, 1);
    assert_eq!(cpu.state().address_bus, 0x0000);
    run(&mut cpu, 1);
    assert_eq!(cpu.state().address_bus, cpu.state().abs_addr_latch);
}

#[test]
fn stores_reach_the_register_units_through_the_bus() {
    // LDA #$9E, STA $3FFD, STA $4015
    let mut cpu = cpu_with_cart(0x8000, &[0xA9, 0x9E, 0x8D, 0xFD, 0x3F, 0x8D, 0x15, 0x40]);
    run(&mut cpu, 2 + 4);
    assert_eq!(cpu.bus().ppu().last_write, Some((0x2005, 0x9E)));
    assert_eq!(cpu.bus().apu().last_write, None);
    run(&mut cpu, 4);
    assert_eq!(cpu.bus().apu().last_write, Some((0x4015, 0x9E)));
    assert_eq!(cpu.bus().read(0x3FFD), 0);
}
