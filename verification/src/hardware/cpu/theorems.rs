use crate::error::RustNesError;
use crate::hardware::cpu::instr_def::MicroOp;
use crate::hardware::cpu::instructions::{spec_defined, spec_micro_ops};
use crate::hardware::cpu::model::{
    spec_crosses_page,
    spec_index16,
    spec_next,
    spec_pre_carry,
    spec_word,
    CpuView,
    BRK_OPCODE,
    RESET_VECTOR_HIGH,
    RESET_VECTOR_LOW,
};
use crate::hardware::cpu::status::{lemma_upd_nz, spec_contains, Flag};
use crate::hardware::cpu::timing::{
    lemma_instruction_cycles,
    lemma_run_compose,
    spec_pays_penalty,
    spec_takes,
};
use vstd::prelude::*;

verus! {

/// Opcode of the accumulator load with an immediate operand.
pub const LDA_IMMEDIATE: u8 = 0xA9;

/// Whether `opcode` is a load from an absolute address plus an index
/// register.
pub open spec fn spec_indexed_load(opcode: u8) -> bool {
    opcode == 0xB9 || opcode == 0xBC || opcode == 0xBD || opcode == 0xBE
}

/// The index register that the indexed load `opcode` adds to its address.
pub open spec fn spec_index_register(cpu: CpuView, opcode: u8) -> u8 {
    if opcode == 0xBC || opcode == 0xBD {
        cpu.x
    } else {
        cpu.y
    }
}

/// The register that the indexed load `opcode` fills.
pub open spec fn spec_loaded_register(cpu: CpuView, opcode: u8) -> u8 {
    if opcode == 0xBC {
        cpu.y
    } else if opcode == 0xBE {
        cpu.x
    } else {
        cpu.a
    }
}

/// The two bytes after the opcode, read as an address with the low byte
/// first.
pub open spec fn spec_absolute_operand(cpu: CpuView) -> u16 {
    let low = cpu.bus.spec_read(spec_next(cpu.program_counter));
    let high = cpu.bus.spec_read(spec_next(spec_next(cpu.program_counter)));
    spec_word(high, low)
}

/// The address on the bus while an index is added to the absolute latch is
/// the indexed address itself when no page is crossed, and lies one page
/// below the sum when one is.
pub proof fn lemma_pre_carry(base: u16, index: u8)
    ensures
        !spec_crosses_page(base, index) ==> spec_pre_carry(base, index) == spec_index16(
            base,
            index,
        ),
        spec_crosses_page(base, index) ==> spec_pre_carry(base, index) + 0x100 == base + index,
        spec_pre_carry(base, index) / 0x100 == base / 0x100,
{
}

/// A reset loads the program counter with the reset vector, high byte on
/// top, sets the stack pointer to its power-on value, raises the Unused flag
/// and lowers every other flag.
pub proof fn lemma_reset(cpu: CpuView, flag: Flag)
    ensures
        cpu.spec_reset().program_counter == cpu.bus.spec_read(RESET_VECTOR_HIGH) * 0x100
            + cpu.bus.spec_read(RESET_VECTOR_LOW),
        cpu.spec_reset().stack_ptr == 0xFD,
        spec_contains(cpu.spec_reset().status, flag) == (flag == Flag::Unused),
        cpu.spec_reset().at_boundary(),
{
}

/// An accumulator load with an immediate operand takes two cycles, the
/// fetch and one micro-operation, and both succeed. Afterwards the
/// accumulator holds the operand, Zero says whether the operand is zero,
/// Negative says whether its bit 7 is set, and the program counter is past
/// the operand.
pub proof fn lemma_lda_immediate(cpu: CpuView)
    requires
        cpu.at_boundary(),
        cpu.spec_operand() == LDA_IMMEDIATE,
    ensures
        cpu.spec_step_result() is Ok,
        cpu.spec_step().spec_step_result() is Ok,
        spec_takes(cpu, 2),
        ({
            let value = cpu.bus.spec_read(spec_next(cpu.program_counter));
            let after = cpu.spec_run(2);
            &&& after.a == value
            &&& spec_contains(after.status, Flag::Zero) == (value == 0)
            &&& spec_contains(after.status, Flag::Negative) == (value >= 0x80)
            &&& after.program_counter == spec_next(spec_next(cpu.program_counter))
            &&& after.bus == cpu.bus
        }),
{
    reveal_with_fuel(CpuView::spec_run, 3);
    let value = cpu.bus.spec_read(spec_next(cpu.program_counter));
    let fetched = cpu.spec_step();
    assert(fetched.queue =~= seq![MicroOp::ImmA]) by {
        reveal(spec_micro_ops);
    }
    assert(fetched.queue.drop_first() =~= Seq::<MicroOp>::empty());
    lemma_apply_cases(CpuView { queue: fetched.queue.drop_first(), ..fetched });
    lemma_upd_nz(cpu.status, value, Flag::Carry);
    assert forall|n: nat| 0 < n < 2 implies !(#[trigger] cpu.spec_run(n)).at_boundary() by {
        assert(n == 1);
    }
}

/// Fetching an opcode that has no definition, other than the halt opcode,
/// is reported as `InvalidOpcode` with exactly that byte. The processor is
/// left with the program counter past the opcode, nothing pending, and
/// everything else as it was.
pub proof fn lemma_invalid_opcode(cpu: CpuView)
    requires
        cpu.at_boundary(),
        !spec_defined(cpu.spec_operand()),
        cpu.spec_operand() != BRK_OPCODE,
    ensures
        cpu.spec_step_result() == Err::<(), RustNesError>(
            RustNesError::InvalidOpcode(cpu.spec_operand()),
        ),
        cpu.spec_step() == cpu.spec_fetched(),
        cpu.spec_step().at_boundary(),
{
    assert(spec_micro_ops(cpu.spec_operand()) =~= cpu.queue);
}

/// Fetching the halt opcode is reported as `Break`, with the program
/// counter past the opcode and nothing pending.
pub proof fn lemma_break(cpu: CpuView)
    requires
        cpu.at_boundary(),
        cpu.spec_operand() == BRK_OPCODE,
    ensures
        cpu.spec_step_result() == Err::<(), RustNesError>(RustNesError::Break),
        cpu.spec_step() == cpu.spec_fetched(),
{
}

/// A step reports success exactly when a micro-operation was pending or the
/// fetched opcode has a definition and is not the halt opcode.
pub proof fn lemma_step_succeeds(cpu: CpuView)
    ensures
        cpu.spec_step_result() is Ok <==> (!cpu.at_boundary() || (spec_defined(cpu.spec_operand())
            && cpu.spec_operand() != BRK_OPCODE)),
{
}

/// The micro-operation that ends the indexed load `opcode`.
pub open spec fn spec_indexed_op(opcode: u8) -> MicroOp {
    if opcode == 0xB9 {
        MicroOp::YAalLda
    } else if opcode == 0xBC {
        MicroOp::XAalLdy
    } else if opcode == 0xBD {
        MicroOp::XAalLda
    } else {
        MicroOp::YAalLdx
    }
}

/// What the two address micro-operations, the idle cycle and the indexed
/// loads do, one case of the dispatch at a time.
proof fn lemma_apply_cases(cpu: CpuView)
    ensures
        cpu.spec_apply(MicroOp::ImmLoAal) == cpu.spec_imm_lo_aal(),
        cpu.spec_apply(MicroOp::ImmHiAal) == cpu.spec_imm_hi_aal(),
        cpu.spec_apply(MicroOp::XAalLda) == cpu.spec_x_aal_lda(),
        cpu.spec_apply(MicroOp::YAalLda) == cpu.spec_y_aal_lda(),
        cpu.spec_apply(MicroOp::XAalLdy) == cpu.spec_x_aal_ldy(),
        cpu.spec_apply(MicroOp::YAalLdx) == cpu.spec_y_aal_ldx(),
        cpu.spec_apply(MicroOp::ImmA) == cpu.spec_imm_a(),
        cpu.spec_apply(MicroOp::Nop) == cpu,
{
    reveal(CpuView::spec_apply);
}

/// The processor after two address cycles: the absolute latch holds the two
/// bytes that were under the program counter, low byte first, and the
/// counter is past them.
spec fn spec_address_assembled(cpu: CpuView, rest: Seq<MicroOp>) -> CpuView {
    CpuView {
        program_counter: spec_next(spec_next(cpu.program_counter)),
        data_latch: cpu.bus.spec_read(spec_next(cpu.program_counter)),
        abs_addr_latch: spec_word(
            cpu.bus.spec_read(spec_next(cpu.program_counter)),
            cpu.bus.spec_read(cpu.program_counter),
        ),
        address_bus: spec_next(cpu.program_counter),
        queue: rest,
        ..cpu
    }
}

/// The two cycles that assemble an absolute address, one after the other.
proof fn lemma_assemble_address_steps(cpu: CpuView, rest: Seq<MicroOp>)
    requires
        cpu.queue == seq![MicroOp::ImmLoAal, MicroOp::ImmHiAal] + rest,
    ensures
        cpu.spec_step().spec_step() == spec_address_assembled(cpu, rest),
{
    let popped = CpuView { queue: cpu.queue.drop_first(), ..cpu };
    lemma_apply_cases(popped);
    let first = cpu.spec_step();
    assert(cpu.queue[0] == MicroOp::ImmLoAal);
    assert(cpu.queue.drop_first() =~= seq![MicroOp::ImmHiAal] + rest);
    assert(first == popped.spec_imm_lo_aal());
    lemma_apply_cases(CpuView { queue: first.queue.drop_first(), ..first });
    assert(first.queue[0] == MicroOp::ImmHiAal);
    assert(first.queue.drop_first() =~= rest);
}

/// The two cycles that assemble an absolute address: the bytes under the
/// program counter fill the absolute latch, low byte first, and the counter
/// moves past them. Whatever else was pending is pending still.
proof fn lemma_assemble_address(cpu: CpuView, rest: Seq<MicroOp>)
    requires
        cpu.queue == seq![MicroOp::ImmLoAal, MicroOp::ImmHiAal] + rest,
    ensures
        cpu.spec_run(2) == spec_address_assembled(cpu, rest),
{
    lemma_assemble_address_steps(cpu, rest);
    reveal_with_fuel(CpuView::spec_run, 3);
}

/// The fetch and the two address cycles of an indexed load: the operand
/// bytes fill the absolute latch, the program counter moves past the
/// instruction, and only the load itself is left pending.
proof fn lemma_absolute_address_assembled(cpu: CpuView)
    requires
        cpu.at_boundary(),
        spec_indexed_load(cpu.spec_operand()),
    ensures
        cpu.spec_run(3) == (CpuView {
            program_counter: spec_next(spec_next(spec_next(cpu.program_counter))),
            data_latch: cpu.bus.spec_read(spec_next(spec_next(cpu.program_counter))),
            abs_addr_latch: spec_absolute_operand(cpu),
            address_bus: spec_next(spec_next(cpu.program_counter)),
            queue: seq![spec_indexed_op(cpu.spec_operand())],
            ..cpu
        }),
{
    let load = spec_indexed_op(cpu.spec_operand());
    let fetched = cpu.spec_run(1);
    assert(fetched == cpu.spec_step()) by {
        reveal_with_fuel(CpuView::spec_run, 2);
    }
    assert(fetched.queue =~= seq![MicroOp::ImmLoAal, MicroOp::ImmHiAal] + seq![load]) by {
        reveal(spec_micro_ops);
    }
    lemma_assemble_address(fetched, seq![load]);
    lemma_run_compose(cpu, 1, 2);
}

/// The cycle of an indexed load: the register is filled from the latch plus
/// the index, and stays so through the idle cycle that a page crossing
/// adds.
proof fn lemma_indexed_load_cycle(cpu: CpuView, opcode: u8)
    requires
        spec_indexed_load(opcode),
        cpu.queue == seq![spec_indexed_op(opcode)],
    ensures
        ({
            let index = spec_index_register(cpu, opcode);
            let value = cpu.bus.spec_read(spec_index16(cpu.abs_addr_latch, index));
            &&& spec_pays_penalty(cpu, spec_indexed_op(opcode)) == spec_crosses_page(
                cpu.abs_addr_latch,
                index,
            )
            &&& spec_loaded_register(cpu.spec_run(1), opcode) == value
            &&& spec_crosses_page(cpu.abs_addr_latch, index) ==> spec_loaded_register(
                cpu.spec_run(2),
                opcode,
            ) == value
        }),
{
    reveal_with_fuel(CpuView::spec_run, 3);
    let index = spec_index_register(cpu, opcode);
    assert(cpu.queue[0] == spec_indexed_op(opcode));
    lemma_apply_cases(CpuView { queue: cpu.queue.drop_first(), ..cpu });
    let after = cpu.spec_step();
    if spec_crosses_page(cpu.abs_addr_latch, index) {
        assert(after.queue =~= seq![MicroOp::Nop] + cpu.queue.drop_first());
        assert(after.queue[0] == MicroOp::Nop);
        lemma_apply_cases(CpuView { queue: after.queue.drop_first(), ..after });
    }
}

/// A load from an absolute address plus an index register takes four
/// cycles when the indexed address stays in the page of the operand
/// address, and exactly one more when it crosses into another page. Either
/// way the register is filled from the indexed address in the fourth cycle
/// and holds that value when the instruction ends: the added cycle is idle.
pub proof fn lemma_page_crossing_costs_one_cycle(cpu: CpuView)
    requires
        cpu.at_boundary(),
        spec_indexed_load(cpu.spec_operand()),
    ensures
        ({
            let opcode = cpu.spec_operand();
            let base = spec_absolute_operand(cpu);
            let index = spec_index_register(cpu, opcode);
            let cycles: nat = if spec_crosses_page(base, index) {
                5
            } else {
                4
            };
            &&& spec_takes(cpu, cycles)
            &&& spec_loaded_register(cpu.spec_run(4), opcode) == cpu.bus.spec_read(
                spec_index16(base, index),
            )
            &&& spec_loaded_register(cpu.spec_run(cycles), opcode) == cpu.bus.spec_read(
                spec_index16(base, index),
            )
        }),
{
    let opcode = cpu.spec_operand();
    let load = spec_indexed_op(opcode);
    assert(spec_micro_ops(opcode) =~= seq![MicroOp::ImmLoAal, MicroOp::ImmHiAal, load]) by {
        reveal(spec_micro_ops);
    }
    lemma_absolute_address_assembled(cpu);
    lemma_indexed_load_cycle(cpu.spec_run(3), opcode);
    lemma_run_compose(cpu, 3, 1);
    lemma_run_compose(cpu, 3, 2);
    lemma_instruction_cycles(cpu);
}

} // verus!
