//! The per-block guest register cache.
//!
//! The 32 general-purpose registers and the HI/LO multiply-result pair are
//! loaded from the guest CPU-state structure on first use, reused from the
//! cache afterwards, and written back once at block exit ("flush").  Slot 0
//! is permanently bound to the zero constant: it never emits a load and
//! writes to it are discarded, matching the architectural rule that register
//! 0 is hard-wired to zero.

use vstd::prelude::*;

use crate::ir::FuncV;
use crate::ir::IrFunction;
use crate::ir::IrInstruction;
use crate::ir::IrSize;
use crate::ir::IrValue;
use crate::ir::push_op_v;
use crate::ir::push_op_val;
use crate::layout::GPR_OFFSET;
use crate::layout::MULT_HI_OFFSET;
use crate::layout::MULT_LO_OFFSET;
use crate::layout::gpr_offset;

verus! {

/// Mathematical image of the cache.
pub struct CacheV {
    pub gprs: Seq<Option<IrValue>>,
    pub hi: Option<IrValue>,
    pub lo: Option<IrValue>,
}

/// The lazily filled table of cached guest register values.
pub struct GuestRegisterManager {
    pub gprs: Vec<Option<IrValue>>,
    pub hi: Option<IrValue>,
    pub lo: Option<IrValue>,
}

impl View for GuestRegisterManager {
    type V = CacheV;

    open spec fn view(&self) -> CacheV {
        CacheV { gprs: self.gprs@, hi: self.hi, lo: self.lo }
    }
}

/// The state of a cache that holds nothing but the pinned zero register.
pub open spec fn fresh_cache() -> CacheV {
    CacheV {
        gprs: Seq::new(32, |i: int| if i == 0 {
            Some(IrValue::Const(0))
        } else {
            None
        }),
        hi: None,
        lo: None,
    }
}

/// Structural invariant: 32 slots with slot 0 pinned to the zero constant.
pub open spec fn wf_cache(c: CacheV) -> bool {
    &&& c.gprs.len() == 32
    &&& c.gprs[0] == Some(IrValue::Const(0))
}

/// Effect of a register read on the cache, the function and the value
/// obtained: a hit changes nothing; a miss appends one load from the
/// register's fixed guest-state offset and caches its result.
pub open spec fn get_gpr_v(c: CacheV, f: FuncV, b: int, r: int) -> (CacheV, FuncV, IrValue) {
    match c.gprs[r] {
        Some(v) => (c, f, v),
        None => {
            let v = push_op_val(f);
            (
                CacheV { gprs: c.gprs.update(r, Some(v)), hi: c.hi, lo: c.lo },
                push_op_v(f, b, IrInstruction::GetPtr(gpr_offset(r) as u64, IrSize::U64)),
                v,
            )
        },
    }
}

/// Effect of a register write: the cache alone is updated; writes to
/// register 0 are discarded.
pub open spec fn set_gpr_v(c: CacheV, r: int, value: IrValue) -> CacheV {
    if r == 0 {
        c
    } else {
        CacheV { gprs: c.gprs.update(r, Some(value)), hi: c.hi, lo: c.lo }
    }
}

/// Lazy read of the HI slot.
pub open spec fn get_hi_v(c: CacheV, f: FuncV, b: int) -> (CacheV, FuncV, IrValue) {
    match c.hi {
        Some(v) => (c, f, v),
        None => {
            let v = push_op_val(f);
            (
                CacheV { gprs: c.gprs, hi: Some(v), lo: c.lo },
                push_op_v(f, b, IrInstruction::GetPtr(MULT_HI_OFFSET, IrSize::U64)),
                v,
            )
        },
    }
}

/// Lazy read of the LO slot.
pub open spec fn get_lo_v(c: CacheV, f: FuncV, b: int) -> (CacheV, FuncV, IrValue) {
    match c.lo {
        Some(v) => (c, f, v),
        None => {
            let v = push_op_val(f);
            (
                CacheV { gprs: c.gprs, hi: c.hi, lo: Some(v) },
                push_op_v(f, b, IrInstruction::GetPtr(MULT_LO_OFFSET, IrSize::U64)),
                v,
            )
        },
    }
}

/// The stores that flushing the general-purpose slots `1..upto` emits, in
/// ascending register order; empty slots and slot 0 emit nothing.
pub open spec fn flush_ops_gprs(c: CacheV, upto: int) -> Seq<IrInstruction>
    decreases upto,
{
    if upto <= 1 {
        Seq::empty()
    } else {
        flush_ops_gprs(c, upto - 1) + (match c.gprs[upto - 1] {
            Some(v) => seq![
                IrInstruction::SetPtr(gpr_offset(upto - 1) as u64, IrSize::U64, v),
            ],
            None => Seq::empty(),
        })
    }
}

/// Everything a flush emits: the populated general-purpose slots in
/// ascending order, then LO, then HI.
pub open spec fn flush_ops(c: CacheV) -> Seq<IrInstruction> {
    flush_ops_gprs(c, 32) + (match c.lo {
        Some(v) => seq![IrInstruction::SetPtr(MULT_LO_OFFSET, IrSize::U64, v)],
        None => Seq::empty(),
    }) + (match c.hi {
        Some(v) => seq![IrInstruction::SetPtr(MULT_HI_OFFSET, IrSize::U64, v)],
        None => Seq::empty(),
    })
}

/// Appending a sequence of operations to block `b`, left to right.
pub open spec fn push_ops_v(f: FuncV, b: int, ops: Seq<IrInstruction>) -> FuncV
    decreases ops.len(),
{
    if ops.len() == 0 {
        f
    } else {
        push_op_v(push_ops_v(f, b, ops.drop_last()), b, ops.last())
    }
}

/// Shape facts about appending a run of operations to block `b`: the block
/// structure is otherwise untouched, the arena grows by exactly those
/// operations, and the block's operation indices stay inside the arena.
pub proof fn lemma_push_ops_v_shape(f: FuncV, b: int, ops: Seq<IrInstruction>)
    requires
        0 <= b < f.blocks.len(),
    ensures
        push_ops_v(f, b, ops).blocks.len() == f.blocks.len(),
        push_ops_v(f, b, ops).arena == f.arena + ops,
        forall|i: int|
            0 <= i < f.blocks.len() && i != b ==> push_ops_v(f, b, ops).blocks[i] == f.blocks[i],
        push_ops_v(f, b, ops).blocks[b].term == f.blocks[b].term,
        (forall|j: int| 0 <= j < f.blocks[b].ops.len() ==> f.blocks[b].ops[j] < f.arena.len())
            ==> (forall|j: int|
            0 <= j < push_ops_v(f, b, ops).blocks[b].ops.len() ==> push_ops_v(
                f,
                b,
                ops,
            ).blocks[b].ops[j] < push_ops_v(f, b, ops).arena.len()),
    decreases ops.len(),
{
    if ops.len() == 0 {
        assert(f.arena + ops =~= f.arena);
    } else {
        lemma_push_ops_v_shape(f, b, ops.drop_last());
        assert((f.arena + ops.drop_last()).push(ops.last()) =~= f.arena + ops);
    }
}

/// Appending `ops + [op]` is appending `ops`, then `op`.
pub proof fn lemma_push_ops_v_snoc(f: FuncV, b: int, ops: Seq<IrInstruction>, op: IrInstruction)
    ensures
        push_ops_v(f, b, ops + seq![op]) == push_op_v(push_ops_v(f, b, ops), b, op),
{
    let s = ops + seq![op];
    assert(s.drop_last() =~= ops);
    assert(s.last() == op);
}

impl GuestRegisterManager {
    /// A cache holding nothing but the pinned zero register.
    pub fn new() -> (r: GuestRegisterManager)
        ensures
            r@ == fresh_cache(),
    {
        let mut gprs: Vec<Option<IrValue>> = Vec::new();
        gprs.push(Some(IrValue::Const(0)));
        let mut i: usize = 1;
        while i < 32
            invariant
                1 <= i <= 32,
                gprs@.len() == i,
                gprs@[0] == Some(IrValue::Const(0u64)),
                forall|j: int| 1 <= j < i ==> gprs@[j] is None,
            decreases 32 - i,
        {
            gprs.push(None);
            i += 1;
        }
        let r = GuestRegisterManager { gprs, hi: None, lo: None };
        proof {
            assert(r@.gprs =~= fresh_cache().gprs);
        }
        r
    }

    /// Write a register: cache only, register 0 silently discarded.
    pub fn set_gpr(&mut self, r: u8, value: IrValue)
        requires
            r < 32,
            old(self)@.gprs.len() == 32,
        ensures
            final(self)@ == set_gpr_v(old(self)@, r as int, value),
    {
        if r != 0 {
            self.gprs[r as usize] = Some(value);
        }
    }

    /// Read a register: return the cached value, or load it from the guest
    /// CPU-state structure on first use.  Register 0 always yields the zero
    /// constant without emitting anything (see [`fresh_cache`]).
    pub fn get_gpr(&mut self, f: &mut IrFunction, b: usize, r: u8) -> (v: IrValue)
        requires
            r < 32,
            old(self)@.gprs.len() == 32,
            b < old(f)@.blocks.len(),
            old(f)@.blocks[b as int].term is None,
        ensures
            (final(self)@, final(f)@, v) == get_gpr_v(old(self)@, old(f)@, b as int, r as int),
            crate::ir::all_blocks_wf(old(f)@) ==> crate::ir::all_blocks_wf(final(f)@),
            final(f)@.blocks.len() == old(f)@.blocks.len(),
            forall|i: int|
                0 <= i < old(f)@.blocks.len() ==> final(f)@.blocks[i].term == old(
                    f,
                )@.blocks[i].term,
            final(self)@.gprs.len() == old(self)@.gprs.len(),
    {
        match self.gprs[r as usize] {
            Some(v) => v,
            None => {
                let off = crate::layout::gpr_offset_of(r);
                let v = f.push_op(b, IrInstruction::GetPtr(off, IrSize::U64));
                self.gprs[r as usize] = Some(v);
                v
            },
        }
    }

    /// Lazy read of the HI multiply-result slot.
    pub fn get_hi(&mut self, f: &mut IrFunction, b: usize) -> (v: IrValue)
        requires
            b < old(f)@.blocks.len(),
            old(f)@.blocks[b as int].term is None,
        ensures
            (final(self)@, final(f)@, v) == get_hi_v(old(self)@, old(f)@, b as int),
            crate::ir::all_blocks_wf(old(f)@) ==> crate::ir::all_blocks_wf(final(f)@),
            final(f)@.blocks.len() == old(f)@.blocks.len(),
            forall|i: int|
                0 <= i < old(f)@.blocks.len() ==> final(f)@.blocks[i].term == old(
                    f,
                )@.blocks[i].term,
            final(self)@.gprs.len() == old(self)@.gprs.len(),
    {
        match self.hi {
            Some(v) => v,
            None => {
                let v = f.push_op(b, IrInstruction::GetPtr(MULT_HI_OFFSET, IrSize::U64));
                self.hi = Some(v);
                v
            },
        }
    }

    /// Write the HI slot (cache only).
    pub fn set_hi(&mut self, value: IrValue)
        ensures
            final(self)@ == (CacheV { gprs: old(self)@.gprs, hi: Some(value), lo: old(self)@.lo }),
    {
        self.hi = Some(value);
    }

    /// Lazy read of the LO multiply-result slot.
    pub fn get_lo(&mut self, f: &mut IrFunction, b: usize) -> (v: IrValue)
        requires
            b < old(f)@.blocks.len(),
            old(f)@.blocks[b as int].term is None,
        ensures
            (final(self)@, final(f)@, v) == get_lo_v(old(self)@, old(f)@, b as int),
            crate::ir::all_blocks_wf(old(f)@) ==> crate::ir::all_blocks_wf(final(f)@),
            final(f)@.blocks.len() == old(f)@.blocks.len(),
            forall|i: int|
                0 <= i < old(f)@.blocks.len() ==> final(f)@.blocks[i].term == old(
                    f,
                )@.blocks[i].term,
            final(self)@.gprs.len() == old(self)@.gprs.len(),
    {
        match self.lo {
            Some(v) => v,
            None => {
                let v = f.push_op(b, IrInstruction::GetPtr(MULT_LO_OFFSET, IrSize::U64));
                self.lo = Some(v);
                v
            },
        }
    }

    /// Write the LO slot (cache only).
    pub fn set_lo(&mut self, value: IrValue)
        ensures
            final(self)@ == (CacheV { gprs: old(self)@.gprs, hi: old(self)@.hi, lo: Some(value) }),
    {
        self.lo = Some(value);
    }

    /// Write every populated, non-zero slot back to its guest-state field —
    /// registers in ascending order, then LO, then HI — and clear the cache.
    /// Each populated slot is stored exactly once; slot 0 is never stored.
    pub fn flush_all(&mut self, f: &mut IrFunction, b: usize)
        requires
            wf_cache(old(self)@),
            b < old(f)@.blocks.len(),
            old(f)@.blocks[b as int].term is None,
        ensures
            final(f)@ == push_ops_v(old(f)@, b as int, flush_ops(old(self)@)),
            final(self)@ == fresh_cache(),
            crate::ir::all_blocks_wf(old(f)@) ==> crate::ir::all_blocks_wf(final(f)@),
            final(f)@.blocks.len() == old(f)@.blocks.len(),
            forall|i: int|
                0 <= i < old(f)@.blocks.len() ==> final(f)@.blocks[i].term == old(
                    f,
                )@.blocks[i].term,
    {
        let ghost c0 = self@;
        let ghost f0 = f@;
        let ghost bi = b as int;
        let mut i: usize = 1;
        while i < 32
            invariant
                1 <= i <= 32,
                wf_cache(c0),
                self@.gprs.len() == 32,
                self@.gprs[0] == c0.gprs[0],
                self@.hi == c0.hi,
                self@.lo == c0.lo,
                forall|j: int| 1 <= j < i ==> self@.gprs[j] is None,
                forall|j: int| i <= j < 32 ==> self@.gprs[j] == c0.gprs[j],
                f@ == push_ops_v(f0, bi, flush_ops_gprs(c0, i as int)),
                f@.blocks.len() == f0.blocks.len(),
                bi == b < f0.blocks.len(),
                forall|j: int|
                    0 <= j < f0.blocks.len() ==> f@.blocks[j].term == f0.blocks[j].term,
                f0.blocks[bi].term is None,
                crate::ir::all_blocks_wf(f0) ==> crate::ir::all_blocks_wf(f@),
            decreases 32 - i,
        {
            let ghost ops_so_far = flush_ops_gprs(c0, i as int);
            if let Some(v) = self.gprs[i] {
                let ghost op = IrInstruction::SetPtr(gpr_offset(i as int) as u64, IrSize::U64, v);
                f.push_op(b, IrInstruction::SetPtr(8 * (i as u64), IrSize::U64, v));
                proof {
                    lemma_push_ops_v_snoc(f0, bi, ops_so_far, op);
                    assert(flush_ops_gprs(c0, i as int + 1) =~= ops_so_far + seq![op]);
                }
            } else {
                proof {
                    assert(flush_ops_gprs(c0, i as int + 1) =~= ops_so_far);
                }
            }
            self.gprs[i] = None;
            i += 1;
        }
        let ghost lo_piece = (match c0.lo {
            Some(v) => seq![IrInstruction::SetPtr(MULT_LO_OFFSET, IrSize::U64, v)],
            None => Seq::<IrInstruction>::empty(),
        });
        if let Some(v) = self.lo {
            f.push_op(b, IrInstruction::SetPtr(MULT_LO_OFFSET, IrSize::U64, v));
            proof {
                lemma_push_ops_v_snoc(
                    f0,
                    bi,
                    flush_ops_gprs(c0, 32),
                    IrInstruction::SetPtr(MULT_LO_OFFSET, IrSize::U64, v),
                );
                assert(flush_ops_gprs(c0, 32) + lo_piece =~= flush_ops_gprs(c0, 32).push(
                    IrInstruction::SetPtr(MULT_LO_OFFSET, IrSize::U64, v),
                ));
                assert(flush_ops_gprs(c0, 32).push(
                    IrInstruction::SetPtr(MULT_LO_OFFSET, IrSize::U64, v),
                ) =~= flush_ops_gprs(c0, 32) + seq![
                    IrInstruction::SetPtr(MULT_LO_OFFSET, IrSize::U64, v),
                ]);
            }
        } else {
            proof {
                assert(flush_ops_gprs(c0, 32) + lo_piece =~= flush_ops_gprs(c0, 32));
            }
        }
        self.lo = None;
        let ghost after_lo = push_ops_v(f0, bi, flush_ops_gprs(c0, 32) + lo_piece);
        assert(f@ == after_lo);
        if let Some(v) = self.hi {
            f.push_op(b, IrInstruction::SetPtr(MULT_HI_OFFSET, IrSize::U64, v));
            proof {
                lemma_push_ops_v_snoc(
                    f0,
                    bi,
                    flush_ops_gprs(c0, 32) + lo_piece,
                    IrInstruction::SetPtr(MULT_HI_OFFSET, IrSize::U64, v),
                );
                assert(flush_ops(c0) =~= (flush_ops_gprs(c0, 32) + lo_piece) + seq![
                    IrInstruction::SetPtr(MULT_HI_OFFSET, IrSize::U64, v),
                ]);
            }
        } else {
            proof {
                assert(flush_ops(c0) =~= flush_ops_gprs(c0, 32) + lo_piece);
            }
        }
        self.hi = None;
        proof {
            assert(self@.gprs =~= fresh_cache().gprs);
        }
    }
}

/// The values that `ops` stores to the guest-state field at `off`, in order.
pub open spec fn stores_to(ops: Seq<IrInstruction>, off: u64) -> Seq<IrValue>
    decreases ops.len(),
{
    if ops.len() == 0 {
        Seq::empty()
    } else {
        stores_to(ops.drop_last(), off) + (match ops.last() {
            IrInstruction::SetPtr(o, sz, v) => if o == off {
                seq![v]
            } else {
                Seq::empty()
            },
            _ => Seq::empty(),
        })
    }
}

/// Distribution of [`stores_to`] over concatenation.
pub proof fn lemma_stores_to_concat(s1: Seq<IrInstruction>, s2: Seq<IrInstruction>, off: u64)
    ensures
        stores_to(s1 + s2, off) == stores_to(s1, off) + stores_to(s2, off),
    decreases s2.len(),
{
    if s2.len() == 0 {
        assert(s1 + s2 =~= s1);
        assert(stores_to(s1, off) + stores_to(s2, off) =~= stores_to(s1, off));
    } else {
        lemma_stores_to_concat(s1, s2.drop_last(), off);
        assert((s1 + s2).drop_last() =~= s1 + s2.drop_last());
        assert((s1 + s2).last() == s2.last());
        assert(stores_to(s1, off) + stores_to(s2, off) =~= (stores_to(s1, off) + stores_to(
            s2.drop_last(),
            off,
        )) + (match s2.last() {
            IrInstruction::SetPtr(o, sz, v) => if o == off {
                seq![v]
            } else {
                Seq::<IrValue>::empty()
            },
            _ => Seq::<IrValue>::empty(),
        }));
    }
}

/// [`stores_to`] of a single operation.
pub proof fn lemma_stores_to_single(op: IrInstruction, off: u64)
    ensures
        stores_to(seq![op], off) == (match op {
            IrInstruction::SetPtr(o, sz, v) => if o == off {
                seq![v]
            } else {
                Seq::<IrValue>::empty()
            },
            _ => Seq::<IrValue>::empty(),
        }),
{
    reveal_with_fuel(stores_to, 2);
    assert(seq![op].drop_last() =~= Seq::<IrInstruction>::empty());
    assert(seq![op].last() == op);
    match op {
        IrInstruction::SetPtr(o, sz, v) => {
            if o == off {
                assert(stores_to(seq![op], off) =~= seq![v]);
            } else {
                assert(stores_to(seq![op], off) =~= Seq::<IrValue>::empty());
            }
        },
        _ => {
            assert(stores_to(seq![op], off) =~= Seq::<IrValue>::empty());
        },
    }
}

/// What the general-purpose part of a flush stores to register `r`'s slot:
/// the cached value if `1 <= r < upto` and the slot is populated, nothing
/// otherwise.
pub proof fn lemma_flush_gprs_stores(c: CacheV, upto: int, r: int)
    requires
        c.gprs.len() == 32,
        1 <= r < 32,
        0 <= upto <= 32,
    ensures
        stores_to(flush_ops_gprs(c, upto), gpr_offset(r) as u64) == (if 1 <= r < upto {
            match c.gprs[r] {
                Some(v) => seq![v],
                None => Seq::<IrValue>::empty(),
            }
        } else {
            Seq::<IrValue>::empty()
        }),
    decreases upto,
{
    if upto <= 1 {
        assert(stores_to(flush_ops_gprs(c, upto), gpr_offset(r) as u64) =~= Seq::<
            IrValue,
        >::empty());
    } else {
        lemma_flush_gprs_stores(c, upto - 1, r);
        let piece = (match c.gprs[upto - 1] {
            Some(v) => seq![IrInstruction::SetPtr(gpr_offset(upto - 1) as u64, IrSize::U64, v)],
            None => Seq::<IrInstruction>::empty(),
        });
        lemma_stores_to_concat(flush_ops_gprs(c, upto - 1), piece, gpr_offset(r) as u64);
        assert(stores_to(piece, gpr_offset(r) as u64) == (if r == upto - 1 {
            match c.gprs[r] {
                Some(v) => seq![v],
                None => Seq::<IrValue>::empty(),
            }
        } else {
            Seq::<IrValue>::empty()
        })) by {
            match c.gprs[upto - 1] {
                Some(v) => {
                    let op = IrInstruction::SetPtr(gpr_offset(upto - 1) as u64, IrSize::U64, v);
                    lemma_stores_to_single(op, gpr_offset(r) as u64);
                    assert(piece =~= seq![op]);
                    if r != upto - 1 {
                        assert(gpr_offset(upto - 1) != gpr_offset(r));
                    }
                },
                None => {
                    assert(stores_to(piece, gpr_offset(r) as u64) =~= Seq::<IrValue>::empty());
                },
            }
        }
        assert(stores_to(flush_ops_gprs(c, upto), gpr_offset(r) as u64) =~= (if 1 <= r < upto {
            match c.gprs[r] {
                Some(v) => seq![v],
                None => Seq::<IrValue>::empty(),
            }
        } else {
            Seq::<IrValue>::empty()
        }));
    }
}

/// What a whole flush stores to register `r`'s slot (`1 <= r < 32`): exactly
/// the cached value if the slot is populated, nothing otherwise.  The LO and
/// HI stores live at distinct offsets and contribute nothing.
pub proof fn lemma_flush_stores_gpr(c: CacheV, r: int)
    requires
        c.gprs.len() == 32,
        1 <= r < 32,
    ensures
        stores_to(flush_ops(c), gpr_offset(r) as u64) == (match c.gprs[r] {
            Some(v) => seq![v],
            None => Seq::<IrValue>::empty(),
        }),
{
    let off = gpr_offset(r) as u64;
    let lo_piece = (match c.lo {
        Some(v) => seq![IrInstruction::SetPtr(MULT_LO_OFFSET, IrSize::U64, v)],
        None => Seq::<IrInstruction>::empty(),
    });
    let hi_piece = (match c.hi {
        Some(v) => seq![IrInstruction::SetPtr(MULT_HI_OFFSET, IrSize::U64, v)],
        None => Seq::<IrInstruction>::empty(),
    });
    lemma_flush_gprs_stores(c, 32, r);
    lemma_stores_to_concat(flush_ops_gprs(c, 32), lo_piece, off);
    lemma_stores_to_concat(flush_ops_gprs(c, 32) + lo_piece, hi_piece, off);
    assert(stores_to(lo_piece, off) =~= Seq::<IrValue>::empty()) by {
        match c.lo {
            Some(v) => {
                lemma_stores_to_single(
                    IrInstruction::SetPtr(MULT_LO_OFFSET, IrSize::U64, v),
                    off,
                );
            },
            None => {},
        }
    }
    assert(stores_to(hi_piece, off) =~= Seq::<IrValue>::empty()) by {
        match c.hi {
            Some(v) => {
                lemma_stores_to_single(
                    IrInstruction::SetPtr(MULT_HI_OFFSET, IrSize::U64, v),
                    off,
                );
            },
            None => {},
        }
    }
    assert(stores_to(flush_ops(c), off) =~= stores_to(flush_ops_gprs(c, 32), off));
}

/// Register-cache idempotence, reading side: reading register `r` twice with
/// no intervening write loads from guest memory at most once — exactly once
/// when the slot started empty, never when it was already cached — and both
/// reads yield the same value.
pub proof fn lemma_read_read_one_load(c: CacheV, f: FuncV, b: int, r: int)
    requires
        0 <= r < c.gprs.len(),
    ensures
        ({
            let (c1, f1, v1) = get_gpr_v(c, f, b, r);
            let (c2, f2, v2) = get_gpr_v(c1, f1, b, r);
            &&& c2 == c1
            &&& f2 == f1
            &&& v2 == v1
            &&& (c.gprs[r] is Some ==> f1 == f)
            &&& (c.gprs[r] is None ==> f1.arena == f.arena.push(
                IrInstruction::GetPtr(gpr_offset(r) as u64, IrSize::U64),
            ))
        }),
{
}

/// Register-cache idempotence, writing side: writing register `r` twice with
/// no flush in between leaves no trace of the first value, and the flush then
/// stores exactly the last written value to `r`'s slot, exactly once.
pub proof fn lemma_write_write_one_store(c: CacheV, r: int, first: IrValue, last: IrValue)
    requires
        c.gprs.len() == 32,
        1 <= r < 32,
    ensures
        set_gpr_v(set_gpr_v(c, r, first), r, last) == set_gpr_v(c, r, last),
        stores_to(flush_ops(set_gpr_v(set_gpr_v(c, r, first), r, last)), gpr_offset(r) as u64)
            == seq![last],
{
    let c2 = set_gpr_v(set_gpr_v(c, r, first), r, last);
    assert(c2.gprs =~= set_gpr_v(c, r, last).gprs);
    lemma_flush_stores_gpr(c2, r);
}

/// Register 0 invariant, reading side: `get(0)` never emits a load and
/// always yields the zero constant.
pub proof fn lemma_get_zero(c: CacheV, f: FuncV, b: int)
    requires
        wf_cache(c),
    ensures
        get_gpr_v(c, f, b, 0) == (c, f, IrValue::Const(0u64)),
{
}

/// Register 0 invariant, writing side: `set(0, x)` changes nothing, so it
/// has no observable effect on the flush.
pub proof fn lemma_set_zero_no_effect(c: CacheV, x: IrValue)
    ensures
        set_gpr_v(c, 0, x) == c,
        flush_ops(set_gpr_v(c, 0, x)) == flush_ops(c),
{
}

} // verus!
