//! The intermediate representation (IR) that the translator produces.
//!
//! An [`IrFunction`] is an ordered collection of basic blocks.  Every
//! operation lives in a global arena and is identified by its arena index;
//! a block holds the indices of its operations in execution order and ends
//! in exactly one terminator.  Values are either 64-bit constants or
//! references to the result of an earlier operation.

use vstd::prelude::*;

verus! {

/// Width and signedness of an IR operation or of a guest-state field access.
#[derive(Clone, Copy, PartialEq, Eq, Structural, Debug)]
pub enum IrSize {
    U8,
    S8,
    U16,
    S16,
    U32,
    S32,
    U64,
    S64,
}

/// A guest register as the lowering rules see it: general-purpose or CP0.
#[derive(Clone, Copy, PartialEq, Eq, Structural, Debug)]
pub enum MipsRegister {
    Gpr(u8),
    Cop0(u8),
}

/// A value consumed by an IR operation: a 64-bit constant, or the result of
/// the operation at the given arena index.
#[derive(Clone, Copy, PartialEq, Eq, Structural, Debug)]
pub enum IrValue {
    Const(u64),
    Op(usize),
}

/// Comparison selector for `IrInstruction::Compare`; operands are full
/// 64-bit register values.
#[derive(Clone, Copy, PartialEq, Eq, Structural, Debug)]
pub enum CompareKind {
    Equal,
    NotEqual,
    LessThanSigned,
    LessThanUnsigned,
    GreaterThanSigned,
    LessThanOrEqualSigned,
    GreaterThanOrEqualSigned,
}

/// Whether a virtual address is resolved for a load or for a store.
#[derive(Clone, Copy, PartialEq, Eq, Structural, Debug)]
pub enum MemAccessKind {
    Load,
    Store,
}

/// One IR operation.
///
/// Sized arithmetic acts on the low bits given by the size and yields the
/// result zero-held in a 64-bit value; `Convert` re-reads a value at one
/// width and extends it to another.  `GetPtr`/`SetPtr` access a guest
/// CPU-state field at a fixed byte offset from the state base pointer.  The
/// `Call…` operations invoke native helper routines of the surrounding
/// emulator; the resolver's two scratch outputs are modelled per call:
/// `LoadResolvedPaddr` names the resolve operation whose output it reads.
#[derive(Clone, Copy, PartialEq, Eq, Structural, Debug)]
pub enum IrInstruction {
    Nop,
    Or(IrSize, IrValue, IrValue),
    Xor(IrSize, IrValue, IrValue),
    And(IrSize, IrValue, IrValue),
    Add(IrSize, IrValue, IrValue),
    Sub(IrSize, IrValue, IrValue),
    Not(IrSize, IrValue),
    ShiftLeft(IrSize, IrValue, IrValue),
    ShiftRight(IrSize, IrValue, IrValue),
    Compare(CompareKind, IrValue, IrValue),
    Convert(IrSize, IrSize, IrValue),
    GetPtr(u64, IrSize),
    SetPtr(u64, IrSize, IrValue),
    MulLo(IrSize, IrValue, IrValue),
    MulHi(IrSize, IrValue, IrValue),
    DivQuot(IrSize, IrValue, IrValue),
    DivRem(IrSize, IrValue, IrValue),
    CallResolveVirtual(IrValue, MemAccessKind),
    LoadResolvedPaddr(IrValue),
    CallReadByte(IrValue),
    CallReadWord(IrValue),
    CallWriteByte(IrValue, IrValue),
    CallWriteWord(IrValue, IrValue),
    CallStatusUpdated(u32),
    CallRescheduleCompareInterrupt(u32),
    CallTranslationFault(IrValue),
}

/// How a basic block ends: an unconditional jump, a two-way branch on a
/// boolean value, or a return optionally carrying the executed-cycle count.
#[derive(Clone, Copy, PartialEq, Eq, Debug)]
pub enum Terminator {
    Jump(usize),
    Branch(IrValue, usize, usize),
    Ret(Option<IrValue>),
}

/// A basic block: operation arena indices in execution order, and the
/// terminator once the block has been sealed.
#[derive(Debug)]
pub struct IrBlock {
    pub ops: Vec<usize>,
    pub term: Option<Terminator>,
}

/// A function under construction or completed: the operation arena and the
/// blocks.  Block 0 is the entry.
#[derive(Debug)]
pub struct IrFunction {
    pub arena: Vec<IrInstruction>,
    pub blocks: Vec<IrBlock>,
}

/// Mathematical image of a basic block.
pub struct BlockV {
    pub ops: Seq<usize>,
    pub term: Option<Terminator>,
}

/// Mathematical image of a function.
pub struct FuncV {
    pub arena: Seq<IrInstruction>,
    pub blocks: Seq<BlockV>,
}

impl View for IrBlock {
    type V = BlockV;

    open spec fn view(&self) -> BlockV {
        BlockV { ops: self.ops@, term: self.term }
    }
}

impl View for IrFunction {
    type V = FuncV;

    open spec fn view(&self) -> FuncV {
        FuncV {
            arena: self.arena@,
            blocks: self.blocks@.map_values(|b: IrBlock| b@),
        }
    }
}

/// An empty, unsealed block.
pub open spec fn empty_block_v() -> BlockV {
    BlockV { ops: Seq::empty(), term: None }
}

/// Appending a fresh block.
pub open spec fn new_block_v(f: FuncV) -> FuncV {
    FuncV { arena: f.arena, blocks: f.blocks.push(empty_block_v()) }
}

/// Appending one operation to block `b`; the new operation's identity is the
/// old arena length.
pub open spec fn push_op_v(f: FuncV, b: int, op: IrInstruction) -> FuncV {
    FuncV {
        arena: f.arena.push(op),
        blocks: f.blocks.update(
            b,
            BlockV { ops: f.blocks[b].ops.push(f.arena.len() as usize), term: f.blocks[b].term },
        ),
    }
}

/// The value produced by the operation that `push_op_v` appends.
pub open spec fn push_op_val(f: FuncV) -> IrValue {
    IrValue::Op(f.arena.len() as usize)
}

/// Sealing block `b` with terminator `t`.
pub open spec fn set_term_v(f: FuncV, b: int, t: Terminator) -> FuncV {
    FuncV {
        arena: f.arena,
        blocks: f.blocks.update(b, BlockV { ops: f.blocks[b].ops, term: Some(t) }),
    }
}

/// A value reference stays inside the arena.
pub open spec fn wf_value(f: FuncV, v: IrValue) -> bool {
    match v {
        IrValue::Const(_) => true,
        IrValue::Op(k) => k < f.arena.len(),
    }
}

/// A sealed terminator of block `i` only moves control forward, to an
/// existing block; this is what makes a finished function's execution
/// terminate.
pub open spec fn wf_term(f: FuncV, i: int, t: Terminator) -> bool {
    match t {
        Terminator::Jump(tgt) => i < tgt < f.blocks.len(),
        Terminator::Branch(c, tgt, els) => {
            &&& wf_value(f, c)
            &&& i < tgt < f.blocks.len()
            &&& i < els < f.blocks.len()
        },
        Terminator::Ret(v) => match v {
            Some(v) => wf_value(f, v),
            None => true,
        },
    }
}

/// Block `i` is internally consistent: its operations exist in the arena and
/// its terminator, if sealed, is well formed.
pub open spec fn wf_block(f: FuncV, i: int) -> bool {
    &&& forall|j: int| 0 <= j < f.blocks[i].ops.len() ==> f.blocks[i].ops[j] < f.arena.len()
    &&& match f.blocks[i].term {
        None => true,
        Some(t) => wf_term(f, i, t),
    }
}

/// Every block of the function (sealed or not) is well formed.
pub open spec fn all_blocks_wf(f: FuncV) -> bool {
    forall|i: int| 0 <= i < f.blocks.len() ==> #[trigger] wf_block(f, i)
}

/// A function under construction: every block well formed, every block but
/// the last sealed, the last one open for the instruction being lowered.
pub open spec fn wf_building(f: FuncV) -> bool {
    &&& f.blocks.len() > 0
    &&& all_blocks_wf(f)
    &&& forall|i: int| 0 <= i < f.blocks.len() - 1 ==> f.blocks[i].term is Some
    &&& f.blocks[f.blocks.len() - 1].term is None
}

/// A completed function: at least the entry block, every block well formed
/// and sealed.
pub open spec fn wf_func(f: FuncV) -> bool {
    &&& f.blocks.len() > 0
    &&& all_blocks_wf(f)
    &&& forall|i: int| 0 <= i < f.blocks.len() ==> f.blocks[i].term is Some
}

impl IrFunction {
    /// A function with no blocks yet.
    pub fn new() -> (r: IrFunction)
        ensures
            r@.arena.len() == 0,
            r@.blocks.len() == 0,
    {
        IrFunction { arena: Vec::new(), blocks: Vec::new() }
    }

    /// Append a fresh, empty, unsealed block and return its index.
    pub fn new_block(&mut self) -> (b: usize)
        ensures
            final(self)@ == new_block_v(old(self)@),
            b == old(self)@.blocks.len(),
            all_blocks_wf(old(self)@) ==> all_blocks_wf(final(self)@),
            final(self)@.blocks.len() == old(self)@.blocks.len() + 1,
            forall|i: int|
                0 <= i < old(self)@.blocks.len() ==> final(self)@.blocks[i] == old(
                    self,
                )@.blocks[i],
            final(self)@.blocks[old(self)@.blocks.len() as int].term is None,
            final(self)@.arena == old(self)@.arena,
    {
        let b = self.blocks.len();
        self.blocks.push(IrBlock { ops: Vec::new(), term: None });
        proof {
            assert(self@.blocks =~= new_block_v(old(self)@).blocks);
            if all_blocks_wf(old(self)@) {
                assert forall|i: int| 0 <= i < self@.blocks.len() implies #[trigger] wf_block(
                    self@,
                    i,
                ) by {
                    if i < old(self)@.blocks.len() {
                        assert(wf_block(old(self)@, i));
                        assert(self@.blocks[i] == old(self)@.blocks[i]);
                    }
                }
            }
        }
        b
    }

    /// Append one operation to the (unsealed) block `b` and return the value
    /// it produces.
    pub fn push_op(&mut self, b: usize, op: IrInstruction) -> (v: IrValue)
        requires
            b < old(self)@.blocks.len(),
            old(self)@.blocks[b as int].term is None,
        ensures
            final(self)@ == push_op_v(old(self)@, b as int, op),
            v == push_op_val(old(self)@),
            all_blocks_wf(old(self)@) ==> all_blocks_wf(final(self)@),
            final(self)@.blocks.len() == old(self)@.blocks.len(),
            forall|i: int|
                0 <= i < old(self)@.blocks.len() ==> final(self)@.blocks[i].term == old(
                    self,
                )@.blocks[i].term,
            final(self)@.arena.len() == old(self)@.arena.len() + 1,
    {
        let id = self.arena.len();
        self.arena.push(op);
        self.blocks[b].ops.push(id);
        proof {
            assert(self@.blocks =~= push_op_v(old(self)@, b as int, op).blocks);
            if all_blocks_wf(old(self)@) {
                assert forall|i: int| 0 <= i < self@.blocks.len() implies #[trigger] wf_block(
                    self@,
                    i,
                ) by {
                    assert(wf_block(old(self)@, i));
                    if i != b as int {
                        assert(self@.blocks[i] == old(self)@.blocks[i]);
                    }
                }
            }
        }
        IrValue::Op(id)
    }

    /// Seal block `b` with its terminator.
    pub fn set_term(&mut self, b: usize, t: Terminator)
        requires
            b < old(self)@.blocks.len(),
            old(self)@.blocks[b as int].term is None,
        ensures
            final(self)@ == set_term_v(old(self)@, b as int, t),
            all_blocks_wf(old(self)@) && wf_term(old(self)@, b as int, t) ==> all_blocks_wf(
                final(self)@,
            ),
            final(self)@.blocks.len() == old(self)@.blocks.len(),
            final(self)@.blocks[b as int].term == Some(t),
            forall|i: int|
                0 <= i < old(self)@.blocks.len() && i != b as int ==> final(self)@.blocks[i]
                    == old(self)@.blocks[i],
            final(self)@.arena == old(self)@.arena,
    {
        self.blocks[b].term = Some(t);
        proof {
            assert(self@.blocks =~= set_term_v(old(self)@, b as int, t).blocks);
            if all_blocks_wf(old(self)@) && wf_term(old(self)@, b as int, t) {
                assert forall|i: int| 0 <= i < self@.blocks.len() implies #[trigger] wf_block(
                    self@,
                    i,
                ) by {
                    assert(wf_block(old(self)@, i));
                    if i != b as int {
                        assert(self@.blocks[i] == old(self)@.blocks[i]);
                    }
                }
            }
        }
    }
}

} // verus!
