use vstd::prelude::*;

verus! {

/// The most micro-operations that one instruction may hold.
pub const MAX_INSTR_CYCLES: usize = 6;

/// One clock cycle's worth of work inside an instruction.
///
/// `Imm*` fetch the byte under the program counter; `Zal*` and `Aal*` use
/// the zero-page or the absolute address latch as the bus address; `XAal*`
/// and `YAal*` load from the absolute latch plus an index register; `Ind*`
/// read the absolute latch's bytes through the zero-page latch; `Add*` add
/// an index register to a latch.
#[derive(Clone, Copy, Debug, PartialEq, Eq, Structural)]
pub enum MicroOp {
    ImmA,
    ImmY,
    ImmX,
    ImmZal,
    ImmLoAal,
    ImmHiAal,
    ZalLda,
    ZalLdx,
    ZalLdy,
    AalLda,
    AalLdx,
    AalLdy,
    XAalLda,
    YAalLda,
    XAalLdy,
    YAalLdx,
    IndLoAal,
    IndHiAal,
    AalSty,
    AalSta,
    AalStx,
    ZalSty,
    ZalSta,
    ZalStx,
    Tax,
    Tay,
    Txa,
    Tya,
    AddXZal,
    AddYZal,
    AddXAal,
    AddYAal,
    Nop,
}

/// The definition of one instruction: its micro-operations, in the order of
/// the cycles that follow the opcode fetch, in a fixed-size block.
///
/// `cycles` counts them. A definition with none stands for an opcode that is
/// not implemented.
#[derive(Clone, Copy, Debug)]
pub struct InstrDef {
    pub cycles: usize,
    pub u_ops: [Option<MicroOp>; 6],
}

impl View for InstrDef {
    type V = Seq<MicroOp>;

    /// The micro-operations of the definition, in order.
    open spec fn view(&self) -> Seq<MicroOp> {
        Seq::new(self.cycles as nat, |i: int| self.u_ops[i]->0)
    }
}

impl InstrDef {
    /// The first `cycles` slots are filled and the others are vacant.
    pub open spec fn wf(&self) -> bool {
        &&& self.cycles <= MAX_INSTR_CYCLES
        &&& forall|i: int| 0 <= i < self.cycles ==> (#[trigger] self.u_ops[i]) is Some
        &&& forall|i: int| self.cycles <= i < MAX_INSTR_CYCLES ==> (#[trigger] self.u_ops[i]) is None
    }

    /// The definition of an opcode that is not implemented.
    pub fn empty() -> (def: Self)
        ensures
            def.wf(),
            def.cycles == 0,
            def@ == Seq::<MicroOp>::empty(),
    {
        let def = Self { cycles: 0, u_ops: [None; 6] };
        assert(def@ =~= Seq::<MicroOp>::empty());
        def
    }

    /// The definition that holds `ops`, which must fit the block.
    pub fn from(ops: &[MicroOp]) -> (def: Self)
        requires
            ops@.len() <= MAX_INSTR_CYCLES,
        ensures
            def.wf(),
            def.cycles == ops@.len(),
            def@ == ops@,
    {
        let mut u_ops: [Option<MicroOp>; 6] = [None; 6];
        let mut i: usize = 0;
        while i < ops.len()
            invariant
                ops@.len() <= MAX_INSTR_CYCLES,
                i <= ops@.len(),
                forall|j: int| 0 <= j < i ==> u_ops[j] == Some(ops@[j]),
                forall|j: int| i <= j < MAX_INSTR_CYCLES ==> u_ops[j] is None,
            decreases ops@.len() - i,
        {
            u_ops[i] = Some(ops[i]);
            i += 1;
        }
        let def = Self { cycles: ops.len(), u_ops };
        assert(def@ =~= ops@);
        def
    }

    /// The micro-operations of a well-formed definition as a vector.
    pub fn as_vec(&self) -> (ops: Vec<MicroOp>)
        requires
            self.wf(),
        ensures
            ops@ == self@,
    {
        let mut ops: Vec<MicroOp> = Vec::new();
        let mut i: usize = 0;
        while i < self.cycles
            invariant
                self.wf(),
                i <= self.cycles,
                ops@.len() == i,
                forall|j: int| 0 <= j < i ==> ops@[j] == self@[j],
            decreases self.cycles - i,
        {
            match self.u_ops[i] {
                Some(op) => {
                    ops.push(op);
                },
                None => {
                    assert(false);
                },
            }
            i += 1;
        }
        assert(ops@ =~= self@);
        ops
    }
}

} // verus!
