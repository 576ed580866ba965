use crate::hardware::cpu::instr_def::MicroOp;
use crate::hardware::cpu::instructions::{spec_defined, spec_micro_ops};
use crate::hardware::cpu::model::{spec_crosses_page, CpuView, BRK_OPCODE};
use vstd::prelude::*;

verus! {

/// Whether `op` is one of the loads that add an index register to the
/// absolute latch.
pub open spec fn spec_is_indexed_op(op: MicroOp) -> bool {
    op == MicroOp::XAalLda || op == MicroOp::YAalLda || op == MicroOp::XAalLdy || op
        == MicroOp::YAalLdx
}

/// Whether running `op` on `cpu` costs an idle cycle: `op` is an indexed
/// load and its index carries the absolute latch into another page.
pub open spec fn spec_pays_penalty(cpu: CpuView, op: MicroOp) -> bool {
    match op {
        MicroOp::XAalLda | MicroOp::XAalLdy => spec_crosses_page(cpu.abs_addr_latch, cpu.x),
        MicroOp::YAalLda | MicroOp::YAalLdx => spec_crosses_page(cpu.abs_addr_latch, cpu.y),
        _ => false,
    }
}

/// Starting from `cpu`, the processor is busy for exactly `cycles` clock
/// cycles: it is at an instruction boundary after that many, and at none
/// before.
pub open spec fn spec_takes(cpu: CpuView, cycles: nat) -> bool {
    &&& cycles > 0
    &&& cpu.spec_run(cycles).at_boundary()
    &&& forall|n: nat| 0 < n < cycles ==> !(#[trigger] cpu.spec_run(n)).at_boundary()
}

/// The processor as it stands before the last micro-operation of the
/// instruction under the program counter runs.
pub open spec fn spec_before_last(cpu: CpuView) -> CpuView {
    cpu.spec_run(spec_micro_ops(cpu.spec_operand()).len())
}

/// The clock cycles of the instruction under the program counter: one for
/// the fetch, one for each micro-operation of its definition, and one more
/// if its last micro-operation pays the page-crossing penalty.
pub open spec fn spec_cycles(cpu: CpuView) -> nat {
    let ops = spec_micro_ops(cpu.spec_operand());
    let penalty: nat = if spec_pays_penalty(spec_before_last(cpu), ops.last()) {
        1
    } else {
        0
    };
    1 + ops.len() + penalty
}

/// A micro-operation touches the queue in one way only: an indexed load
/// that crosses a page puts one idle cycle at its front.
pub proof fn lemma_apply_queue(cpu: CpuView, op: MicroOp)
    ensures
        cpu.spec_apply(op).queue == if spec_pays_penalty(cpu, op) {
            seq![MicroOp::Nop] + cpu.queue
        } else {
            cpu.queue
        },
{
    reveal(CpuView::spec_apply);
}

/// In every definition, only the last micro-operation can be an indexed
/// load.
pub proof fn lemma_only_last_is_indexed(opcode: u8)
    ensures
        forall|i: int|
            0 <= i < spec_micro_ops(opcode).len() - 1 ==> !spec_is_indexed_op(
                #[trigger] spec_micro_ops(opcode)[i],
            ),
{
    reveal(spec_micro_ops);
}

/// Running `first` cycles and then `then` more is running them all.
pub proof fn lemma_run_compose(cpu: CpuView, first: nat, then: nat)
    ensures
        cpu.spec_run(first + then) == cpu.spec_run(first).spec_run(then),
    decreases first,
{
    if first > 0 {
        lemma_run_compose(cpu.spec_step(), (first - 1) as nat, then);
    }
}

/// While the pending micro-operations are not indexed loads, each cycle
/// takes exactly one of them off the queue.
pub proof fn lemma_run_pending(cpu: CpuView, cycles: nat)
    requires
        cycles <= cpu.queue.len(),
        forall|i: int| 0 <= i < cycles ==> !spec_is_indexed_op(#[trigger] cpu.queue[i]),
    ensures
        cpu.spec_run(cycles).queue == cpu.queue.skip(cycles as int),
    decreases cycles,
{
    if cycles == 0 {
        assert(cpu.queue.skip(0) =~= cpu.queue);
    } else {
        let popped = CpuView { queue: cpu.queue.drop_first(), ..cpu };
        let next = cpu.spec_step();
        assert(!spec_is_indexed_op(cpu.queue[0]));
        lemma_apply_queue(popped, cpu.queue[0]);
        assert(next.queue == cpu.queue.drop_first());
        assert forall|i: int| 0 <= i < cycles - 1 implies !spec_is_indexed_op(
            #[trigger] next.queue[i],
        ) by {
            assert(next.queue[i] == cpu.queue[i + 1]);
        }
        lemma_run_pending(next, (cycles - 1) as nat);
        assert(cpu.queue.drop_first().skip(cycles - 1) =~= cpu.queue.skip(cycles as int));
    }
}

/// The last pending micro-operation empties the queue, or leaves one idle
/// cycle that empties it, if it pays the page-crossing penalty.
pub proof fn lemma_run_last(cpu: CpuView)
    requires
        cpu.queue.len() == 1,
    ensures
        !spec_pays_penalty(cpu, cpu.queue[0]) ==> cpu.spec_run(1).at_boundary(),
        spec_pays_penalty(cpu, cpu.queue[0]) ==> !cpu.spec_run(1).at_boundary() && cpu.spec_run(
            2,
        ).at_boundary(),
{
    reveal_with_fuel(CpuView::spec_run, 3);
    let popped = CpuView { queue: cpu.queue.drop_first(), ..cpu };
    lemma_apply_queue(popped, cpu.queue[0]);
    let next = cpu.spec_step();
    if spec_pays_penalty(cpu, cpu.queue[0]) {
        assert(next.queue =~= seq![MicroOp::Nop]);
        assert(next.queue[0] == MicroOp::Nop);
        assert(next.queue.drop_first().len() == 0);
        lemma_apply_queue(CpuView { queue: next.queue.drop_first(), ..next }, MicroOp::Nop);
    }
}

/// Every instruction takes the cycles that its definition says: the fetch,
/// one cycle for each of its micro-operations, and one more exactly when its
/// indexed load crosses a page. Through all of them the processor is inside
/// the instruction, and after the last it is at the next instruction
/// boundary.
pub proof fn lemma_instruction_cycles(cpu: CpuView)
    requires
        cpu.at_boundary(),
        spec_defined(cpu.spec_operand()),
        cpu.spec_operand() != BRK_OPCODE,
    ensures
        spec_takes(cpu, spec_cycles(cpu)),
{
    let ops = spec_micro_ops(cpu.spec_operand());
    let count = ops.len();
    let fetched = cpu.spec_step();
    let before_last = spec_before_last(cpu);
    assert(fetched.queue == ops);
    lemma_only_last_is_indexed(cpu.spec_operand());

    // up to the last micro-operation, each cycle shortens the queue by one
    assert forall|n: nat| 0 < n <= count implies (#[trigger] cpu.spec_run(n)).queue == ops.skip(
        n - 1,
    ) by {
        lemma_run_pending(fetched, (n - 1) as nat);
    }
    assert(before_last.queue == ops.skip(count - 1));
    assert(before_last.queue.len() == 1);
    assert(before_last.queue[0] == ops.last());

    // the last one ends the instruction, with or without an idle cycle
    lemma_run_last(before_last);
    lemma_run_compose(cpu, count, 1);
    lemma_run_compose(cpu, count, 2);
    let cycles = spec_cycles(cpu);
    assert forall|n: nat| 0 < n < cycles implies !(#[trigger] cpu.spec_run(n)).at_boundary() by {
        if n <= count {
            assert(cpu.spec_run(n).queue.len() == count - n + 1);
        }
    }
}

} // verus!
