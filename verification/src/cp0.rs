//! Coprocessor-0 (system control) register semantics: per-register read and
//! write lowering, architectural write masks, and the native side-effect
//! calls that some writes trigger.
//!
//! Plain registers are stored or loaded whole (loads sign-extend the 32-bit
//! field to 64 bits); masked registers update only the bits of their defined
//! writable mask and preserve the rest; writing `status` notifies the native
//! status-change hook, writing `compare` lowers the pending timer-interrupt
//! bit of `cause` and reschedules, and writing `count` stores the value
//! shifted left by one bit before rescheduling.

use vstd::prelude::*;

use crate::ir::FuncV;
use crate::ir::IrFunction;
use crate::ir::IrInstruction;
use crate::ir::IrSize;
use crate::ir::IrValue;
use crate::ir::push_op_v;
use crate::ir::push_op_val;
use crate::layout::CP0_CAUSE_OFFSET;
use crate::layout::CP0_COMPARE_OFFSET;
use crate::layout::CP0_COUNT_OFFSET;
use crate::layout::CP0_ENTRY_HI_OFFSET;
use crate::layout::CP0_ENTRY_LO0_OFFSET;
use crate::layout::CP0_ENTRY_LO1_OFFSET;
use crate::layout::CP0_INDEX_OFFSET;
use crate::layout::CP0_PAGE_MASK_OFFSET;
use crate::layout::CP0_STATUS_OFFSET;
use crate::layout::CP0_TAG_HI_OFFSET;
use crate::layout::CP0_TAG_LO_OFFSET;
use crate::layout::FCR0_OFFSET;
use crate::layout::FCR31_OFFSET;
use crate::regcache::CacheV;
use crate::regcache::GuestRegisterManager;
use crate::regcache::get_gpr_v;
use crate::regcache::set_gpr_v;

verus! {

/// CP0 register indices (the `rd` field of an `MFC0`/`MTC0` instruction).
pub const CP0_REG_INDEX: u8 = 0;

pub const CP0_REG_ENTRYLO0: u8 = 2;

pub const CP0_REG_ENTRYLO1: u8 = 3;

pub const CP0_REG_PAGEMASK: u8 = 5;

pub const CP0_REG_COUNT: u8 = 9;

pub const CP0_REG_ENTRYHI: u8 = 10;

pub const CP0_REG_COMPARE: u8 = 11;

pub const CP0_REG_STATUS: u8 = 12;

pub const CP0_REG_CAUSE: u8 = 13;

pub const CP0_REG_TAGLO: u8 = 28;

pub const CP0_REG_TAGHI: u8 = 29;

/// Writable bits of the `status` register.
pub const CP0_STATUS_WRITE_MASK: u32 = 0xFF57_FFFF;

/// Writable bits of `entry-hi`, applied to the sign-extended 64-bit value.
pub const CP0_ENTRY_HI_WRITE_MASK: u64 = 0xC000_00FF_FFFF_E0FF;

/// Writable bits of `page-mask`.
pub const CP0_PAGEMASK_WRITE_MASK: u32 = 0x01FF_E000;

/// Writable bits of the `cause` register (the two software-interrupt bits).
pub const CP0_CAUSE_WRITE_MASK: u32 = 0x300;

/// `cause` with the pending timer-interrupt bit (bit 15) lowered.
pub const CAUSE_CLEAR_TIMER_MASK: u32 = 0xFFFF_7FFF;

/// Writable control bits of floating-point control register 31.
pub const FCR31_WRITE_MASK: u32 = 0x0183_FFFF;

/// Effect of lowering `MFC0 rt, rd` on the cache and the function, or `None`
/// where the register's read lowering is not implemented: the field is
/// loaded as a signed 32-bit value, sign-extended to 64 bits, and written to
/// `rt`'s cache slot.
pub open spec fn mfc0_v(c: CacheV, f: FuncV, b: int, rd: u8, rt: u8) -> Option<(CacheV, FuncV)> {
    if rd == CP0_REG_ENTRYHI || rd == CP0_REG_STATUS {
        let off = if rd == CP0_REG_ENTRYHI {
            CP0_ENTRY_HI_OFFSET
        } else {
            CP0_STATUS_OFFSET
        };
        let f1 = push_op_v(f, b, IrInstruction::GetPtr(off, IrSize::S32));
        let loaded = push_op_val(f);
        let f2 = push_op_v(f1, b, IrInstruction::Convert(IrSize::S32, IrSize::S64, loaded));
        let sign_extended = push_op_val(f1);
        Some((set_gpr_v(c, rt as int, sign_extended), f2))
    } else {
        None
    }
}

/// Effect of lowering `MTC0 rt, rd`, or `None` where the register's write
/// lowering is not implemented.  The value is read through the register
/// cache first; `index` is the instruction's sequence number handed to the
/// native side-effect calls.
pub open spec fn mtc0_v(c: CacheV, f: FuncV, b: int, rd: u8, rt: u8, index: u32) -> Option<
    (CacheV, FuncV),
> {
    let (c1, f1, value) = get_gpr_v(c, f, b, rt as int);
    if rd == CP0_REG_ENTRYHI {
        let f2 = push_op_v(f1, b, IrInstruction::Convert(IrSize::S32, IrSize::S64, value));
        let sign_extended = push_op_val(f1);
        let f3 = push_op_v(
            f2,
            b,
            IrInstruction::And(
                IrSize::U64,
                sign_extended,
                IrValue::Const(CP0_ENTRY_HI_WRITE_MASK),
            ),
        );
        let masked = push_op_val(f2);
        Some((c1, push_op_v(f3, b, IrInstruction::SetPtr(CP0_ENTRY_HI_OFFSET, IrSize::U64, masked))))
    } else if rd == CP0_REG_STATUS {
        let mask = IrValue::Const(CP0_STATUS_WRITE_MASK as u64);
        let f2 = push_op_v(f1, b, IrInstruction::Not(IrSize::U32, mask));
        let inverse_mask = push_op_val(f1);
        let f3 = push_op_v(f2, b, IrInstruction::GetPtr(CP0_STATUS_OFFSET, IrSize::U32));
        let old_status = push_op_val(f2);
        let f4 = push_op_v(f3, b, IrInstruction::And(IrSize::U32, old_status, inverse_mask));
        let old_masked = push_op_val(f3);
        let f5 = push_op_v(f4, b, IrInstruction::And(IrSize::U32, value, mask));
        let value_masked = push_op_val(f4);
        let f6 = push_op_v(f5, b, IrInstruction::Or(IrSize::U32, value_masked, old_masked));
        let new_status = push_op_val(f5);
        let f7 = push_op_v(f6, b, IrInstruction::SetPtr(CP0_STATUS_OFFSET, IrSize::U32, new_status));
        Some((c1, push_op_v(f7, b, IrInstruction::CallStatusUpdated(index))))
    } else if rd == CP0_REG_TAGLO {
        Some((c1, push_op_v(f1, b, IrInstruction::SetPtr(CP0_TAG_LO_OFFSET, IrSize::U32, value))))
    } else if rd == CP0_REG_TAGHI {
        Some((c1, push_op_v(f1, b, IrInstruction::SetPtr(CP0_TAG_HI_OFFSET, IrSize::U32, value))))
    } else if rd == CP0_REG_CAUSE {
        let mask = IrValue::Const(CP0_CAUSE_WRITE_MASK as u64);
        let f2 = push_op_v(f1, b, IrInstruction::And(IrSize::U32, value, mask));
        let cause_masked = push_op_val(f1);
        let f3 = push_op_v(f2, b, IrInstruction::Not(IrSize::U32, mask));
        let inverse_mask = push_op_val(f2);
        let f4 = push_op_v(f3, b, IrInstruction::GetPtr(CP0_CAUSE_OFFSET, IrSize::U32));
        let old_cause = push_op_val(f3);
        let f5 = push_op_v(f4, b, IrInstruction::And(IrSize::U32, old_cause, inverse_mask));
        let old_masked = push_op_val(f4);
        let f6 = push_op_v(f5, b, IrInstruction::Or(IrSize::U32, old_masked, cause_masked));
        let new_cause = push_op_val(f5);
        Some((c1, push_op_v(f6, b, IrInstruction::SetPtr(CP0_CAUSE_OFFSET, IrSize::U32, new_cause))))
    } else if rd == CP0_REG_COMPARE {
        let f2 = push_op_v(f1, b, IrInstruction::GetPtr(CP0_CAUSE_OFFSET, IrSize::U32));
        let old_cause = push_op_val(f1);
        let f3 = push_op_v(
            f2,
            b,
            IrInstruction::And(IrSize::U32, old_cause, IrValue::Const(CAUSE_CLEAR_TIMER_MASK as u64)),
        );
        let lowered = push_op_val(f2);
        let f4 = push_op_v(f3, b, IrInstruction::SetPtr(CP0_CAUSE_OFFSET, IrSize::U32, lowered));
        Some((c1, push_op_v(f4, b, IrInstruction::CallRescheduleCompareInterrupt(index))))
    } else if rd == CP0_REG_ENTRYLO0 {
        Some(
            (c1, push_op_v(f1, b, IrInstruction::SetPtr(CP0_ENTRY_LO0_OFFSET, IrSize::U32, value))),
        )
    } else if rd == CP0_REG_ENTRYLO1 {
        Some(
            (c1, push_op_v(f1, b, IrInstruction::SetPtr(CP0_ENTRY_LO1_OFFSET, IrSize::U32, value))),
        )
    } else if rd == CP0_REG_PAGEMASK {
        let f2 = push_op_v(
            f1,
            b,
            IrInstruction::And(IrSize::U32, value, IrValue::Const(CP0_PAGEMASK_WRITE_MASK as u64)),
        );
        let masked = push_op_val(f1);
        Some((c1, push_op_v(f2, b, IrInstruction::SetPtr(CP0_PAGE_MASK_OFFSET, IrSize::U32, masked))))
    } else if rd == CP0_REG_INDEX {
        Some((c1, push_op_v(f1, b, IrInstruction::SetPtr(CP0_INDEX_OFFSET, IrSize::U32, value))))
    } else if rd == CP0_REG_COUNT {
        let f2 = push_op_v(f1, b, IrInstruction::Convert(IrSize::U64, IrSize::U32, value));
        let value_u32 = push_op_val(f1);
        let f3 = push_op_v(
            f2,
            b,
            IrInstruction::ShiftLeft(IrSize::U64, value_u32, IrValue::Const(1)),
        );
        let shifted = push_op_val(f2);
        let f4 = push_op_v(f3, b, IrInstruction::SetPtr(CP0_COUNT_OFFSET, IrSize::U32, shifted));
        Some((c1, push_op_v(f4, b, IrInstruction::CallRescheduleCompareInterrupt(index))))
    } else {
        None
    }
}

/// Effect of lowering `CFC1 rt, fs`, or `None` for a control register other
/// than 0 or 31.
pub open spec fn cfc1_v(c: CacheV, f: FuncV, b: int, fs: u8, rt: u8) -> Option<(CacheV, FuncV)> {
    if fs == 0 || fs == 31 {
        let off = if fs == 0 {
            FCR0_OFFSET
        } else {
            FCR31_OFFSET
        };
        let f1 = push_op_v(f, b, IrInstruction::GetPtr(off, IrSize::S32));
        let loaded = push_op_val(f);
        let f2 = push_op_v(f1, b, IrInstruction::Convert(IrSize::S32, IrSize::S64, loaded));
        let sign_extended = push_op_val(f1);
        Some((set_gpr_v(c, rt as int, sign_extended), f2))
    } else {
        None
    }
}

/// Effect of lowering `CTC1 rt, fs`: writes to the read-only register 0 are
/// silently dropped; register 31 is written under its control-bit mask;
/// anything else is `None`.
pub open spec fn ctc1_v(c: CacheV, f: FuncV, b: int, fs: u8, rt: u8) -> Option<(CacheV, FuncV)> {
    let (c1, f1, value) = get_gpr_v(c, f, b, rt as int);
    if fs == 0 {
        Some((c1, f1))
    } else if fs == 31 {
        let f2 = push_op_v(
            f1,
            b,
            IrInstruction::And(IrSize::U32, value, IrValue::Const(FCR31_WRITE_MASK as u64)),
        );
        let masked = push_op_val(f1);
        Some((c1, push_op_v(f2, b, IrInstruction::SetPtr(FCR31_OFFSET, IrSize::U32, masked))))
    } else {
        None
    }
}

/// Lower `MFC0 rt, rd`; `false` means the register has no read lowering and
/// nothing was changed.
pub fn lower_mfc0(
    func: &mut IrFunction,
    cache: &mut GuestRegisterManager,
    b: usize,
    rd: u8,
    rt: u8,
) -> (ok: bool)
    requires
        rt < 32,
        old(cache)@.gprs.len() == 32,
        b < old(func)@.blocks.len(),
        old(func)@.blocks[b as int].term is None,
    ensures
        ok == mfc0_v(old(cache)@, old(func)@, b as int, rd, rt).is_some(),
        ok ==> Some((final(cache)@, final(func)@)) == mfc0_v(
            old(cache)@,
            old(func)@,
            b as int,
            rd,
            rt,
        ),
        !ok ==> final(cache)@ == old(cache)@ && final(func)@ == old(func)@,
        crate::ir::wf_building(old(func)@) && b as int == old(func)@.blocks.len() - 1
            ==> crate::ir::wf_building(final(func)@),
{
    if rd == CP0_REG_ENTRYHI || rd == CP0_REG_STATUS {
        let off = if rd == CP0_REG_ENTRYHI {
            CP0_ENTRY_HI_OFFSET
        } else {
            CP0_STATUS_OFFSET
        };
        let loaded = func.push_op(b, IrInstruction::GetPtr(off, IrSize::S32));
        let sign_extended = func.push_op(b, IrInstruction::Convert(IrSize::S32, IrSize::S64, loaded));
        cache.set_gpr(rt, sign_extended);
        true
    } else {
        false
    }
}

/// Lower `MTC0 rt, rd`; `false` means the register has no write lowering
/// (the value read for the write may still have populated the cache).
pub fn lower_mtc0(
    func: &mut IrFunction,
    cache: &mut GuestRegisterManager,
    b: usize,
    rd: u8,
    rt: u8,
    index: u32,
) -> (ok: bool)
    requires
        rt < 32,
        old(cache)@.gprs.len() == 32,
        b < old(func)@.blocks.len(),
        old(func)@.blocks[b as int].term is None,
    ensures
        ok == mtc0_v(old(cache)@, old(func)@, b as int, rd, rt, index).is_some(),
        ok ==> Some((final(cache)@, final(func)@)) == mtc0_v(
            old(cache)@,
            old(func)@,
            b as int,
            rd,
            rt,
            index,
        ),
        crate::ir::wf_building(old(func)@) && b as int == old(func)@.blocks.len() - 1
            ==> crate::ir::wf_building(final(func)@),
{
    let value = cache.get_gpr(func, b, rt);
    if rd == CP0_REG_ENTRYHI {
        let sign_extended = func.push_op(b, IrInstruction::Convert(IrSize::S32, IrSize::S64, value));
        let masked = func.push_op(
            b,
            IrInstruction::And(IrSize::U64, sign_extended, IrValue::Const(CP0_ENTRY_HI_WRITE_MASK)),
        );
        func.push_op(b, IrInstruction::SetPtr(CP0_ENTRY_HI_OFFSET, IrSize::U64, masked));
        true
    } else if rd == CP0_REG_STATUS {
        let mask = IrValue::Const(CP0_STATUS_WRITE_MASK as u64);
        let inverse_mask = func.push_op(b, IrInstruction::Not(IrSize::U32, mask));
        let old_status = func.push_op(b, IrInstruction::GetPtr(CP0_STATUS_OFFSET, IrSize::U32));
        let old_masked = func.push_op(b, IrInstruction::And(IrSize::U32, old_status, inverse_mask));
        let value_masked = func.push_op(b, IrInstruction::And(IrSize::U32, value, mask));
        let new_status = func.push_op(b, IrInstruction::Or(IrSize::U32, value_masked, old_masked));
        func.push_op(b, IrInstruction::SetPtr(CP0_STATUS_OFFSET, IrSize::U32, new_status));
        func.push_op(b, IrInstruction::CallStatusUpdated(index));
        true
    } else if rd == CP0_REG_TAGLO {
        func.push_op(b, IrInstruction::SetPtr(CP0_TAG_LO_OFFSET, IrSize::U32, value));
        true
    } else if rd == CP0_REG_TAGHI {
        func.push_op(b, IrInstruction::SetPtr(CP0_TAG_HI_OFFSET, IrSize::U32, value));
        true
    } else if rd == CP0_REG_CAUSE {
        let mask = IrValue::Const(CP0_CAUSE_WRITE_MASK as u64);
        let cause_masked = func.push_op(b, IrInstruction::And(IrSize::U32, value, mask));
        let inverse_mask = func.push_op(b, IrInstruction::Not(IrSize::U32, mask));
        let old_cause = func.push_op(b, IrInstruction::GetPtr(CP0_CAUSE_OFFSET, IrSize::U32));
        let old_masked = func.push_op(b, IrInstruction::And(IrSize::U32, old_cause, inverse_mask));
        let new_cause = func.push_op(b, IrInstruction::Or(IrSize::U32, old_masked, cause_masked));
        func.push_op(b, IrInstruction::SetPtr(CP0_CAUSE_OFFSET, IrSize::U32, new_cause));
        true
    } else if rd == CP0_REG_COMPARE {
        let old_cause = func.push_op(b, IrInstruction::GetPtr(CP0_CAUSE_OFFSET, IrSize::U32));
        let lowered = func.push_op(
            b,
            IrInstruction::And(IrSize::U32, old_cause, IrValue::Const(CAUSE_CLEAR_TIMER_MASK as u64)),
        );
        func.push_op(b, IrInstruction::SetPtr(CP0_CAUSE_OFFSET, IrSize::U32, lowered));
        func.push_op(b, IrInstruction::CallRescheduleCompareInterrupt(index));
        true
    } else if rd == CP0_REG_ENTRYLO0 {
        func.push_op(b, IrInstruction::SetPtr(CP0_ENTRY_LO0_OFFSET, IrSize::U32, value));
        true
    } else if rd == CP0_REG_ENTRYLO1 {
        func.push_op(b, IrInstruction::SetPtr(CP0_ENTRY_LO1_OFFSET, IrSize::U32, value));
        true
    } else if rd == CP0_REG_PAGEMASK {
        let masked = func.push_op(
            b,
            IrInstruction::And(IrSize::U32, value, IrValue::Const(CP0_PAGEMASK_WRITE_MASK as u64)),
        );
        func.push_op(b, IrInstruction::SetPtr(CP0_PAGE_MASK_OFFSET, IrSize::U32, masked));
        true
    } else if rd == CP0_REG_INDEX {
        func.push_op(b, IrInstruction::SetPtr(CP0_INDEX_OFFSET, IrSize::U32, value));
        true
    } else if rd == CP0_REG_COUNT {
        let value_u32 = func.push_op(b, IrInstruction::Convert(IrSize::U64, IrSize::U32, value));
        let shifted = func.push_op(
            b,
            IrInstruction::ShiftLeft(IrSize::U64, value_u32, IrValue::Const(1)),
        );
        func.push_op(b, IrInstruction::SetPtr(CP0_COUNT_OFFSET, IrSize::U32, shifted));
        func.push_op(b, IrInstruction::CallRescheduleCompareInterrupt(index));
        true
    } else {
        false
    }
}

/// The coprocessor-1-enabled check before a floating-point control-register
/// transfer.  Deliberately a no-op: the architectural coprocessor-unusable
/// exception is not modelled by this core.
pub fn checkcp1() {
}

/// Lower `CFC1 rt, fs`; `false` for a control register other than 0 or 31.
pub fn lower_cfc1(
    func: &mut IrFunction,
    cache: &mut GuestRegisterManager,
    b: usize,
    fs: u8,
    rt: u8,
) -> (ok: bool)
    requires
        rt < 32,
        old(cache)@.gprs.len() == 32,
        b < old(func)@.blocks.len(),
        old(func)@.blocks[b as int].term is None,
    ensures
        ok == cfc1_v(old(cache)@, old(func)@, b as int, fs, rt).is_some(),
        ok ==> Some((final(cache)@, final(func)@)) == cfc1_v(
            old(cache)@,
            old(func)@,
            b as int,
            fs,
            rt,
        ),
        !ok ==> final(cache)@ == old(cache)@ && final(func)@ == old(func)@,
        crate::ir::wf_building(old(func)@) && b as int == old(func)@.blocks.len() - 1
            ==> crate::ir::wf_building(final(func)@),
{
    checkcp1();
    if fs == 0 || fs == 31 {
        let off = if fs == 0 {
            FCR0_OFFSET
        } else {
            FCR31_OFFSET
        };
        let loaded = func.push_op(b, IrInstruction::GetPtr(off, IrSize::S32));
        let sign_extended = func.push_op(b, IrInstruction::Convert(IrSize::S32, IrSize::S64, loaded));
        cache.set_gpr(rt, sign_extended);
        true
    } else {
        false
    }
}

/// Lower `CTC1 rt, fs`; `false` for a control register other than 0 or 31.
pub fn lower_ctc1(
    func: &mut IrFunction,
    cache: &mut GuestRegisterManager,
    b: usize,
    fs: u8,
    rt: u8,
) -> (ok: bool)
    requires
        rt < 32,
        old(cache)@.gprs.len() == 32,
        b < old(func)@.blocks.len(),
        old(func)@.blocks[b as int].term is None,
    ensures
        ok == ctc1_v(old(cache)@, old(func)@, b as int, fs, rt).is_some(),
        ok ==> Some((final(cache)@, final(func)@)) == ctc1_v(
            old(cache)@,
            old(func)@,
            b as int,
            fs,
            rt,
        ),
        crate::ir::wf_building(old(func)@) && b as int == old(func)@.blocks.len() - 1
            ==> crate::ir::wf_building(final(func)@),
{
    checkcp1();
    let value = cache.get_gpr(func, b, rt);
    if fs == 0 {
        true
    } else if fs == 31 {
        let masked = func.push_op(
            b,
            IrInstruction::And(IrSize::U32, value, IrValue::Const(FCR31_WRITE_MASK as u64)),
        );
        func.push_op(b, IrInstruction::SetPtr(FCR31_OFFSET, IrSize::U32, masked));
        true
    } else {
        false
    }
}

/// The arithmetic core of the masked `status` write: the operation sequence
/// the lowering emits computes exactly the masked combination.
pub proof fn lemma_status_mask_arith(p: u64, v: u64)
    by (bit_vector)
    requires
        p < 0x1_0000_0000,
    ensures
        ((((v & 0xFF57_FFFFu64) % 0x1_0000_0000) | ((p & ((0xFF57_FFFFu64
            ^ 0xFFFF_FFFF_FFFF_FFFF) % 0x1_0000_0000)) % 0x1_0000_0000)) % 0x1_0000_0000) == ((p
            & (0xFF57_FFFFu64 ^ 0xFFFF_FFFF)) | (v & 0xFF57_FFFFu64)),
{
}

/// The value a masked `status` write stores, for prior 32-bit value `p` and
/// incoming register value `v`: bits inside the writable mask come from `v`,
/// every other bit is preserved from `p`.
pub open spec fn masked_status(p: u64, v: u64) -> u64 {
    (p & ((CP0_STATUS_WRITE_MASK as u64) ^ 0xFFFF_FFFF)) | (v & (CP0_STATUS_WRITE_MASK as u64))
}

/// CP0 masked-write law: lowering a write of `v` to `status` when the prior
/// stored value is `p` makes the translated code store exactly
/// `(p & !mask) | (v & mask)` — independent of the bits of `v` outside the
/// writable mask — change no other guest-state slot, and invoke the native
/// status-change notification exactly once.
///
/// `val` is `rt`'s cached value and `m` any machine state in which it
/// evaluates to `v`; the new operations are the block's tail.
pub proof fn lemma_status_masked_write(
    c: CacheV,
    f: FuncV,
    b: int,
    rt: u8,
    index: u32,
    m: crate::eval::MachineV,
    v: u64,
    val: IrValue,
)
    requires
        c.gprs.len() == 32,
        rt < 32,
        c.gprs[rt as int] == Some(val),
        0 <= b < f.blocks.len(),
        f.arena.len() + 16 <= usize::MAX,
        m.env.len() == f.arena.len() + 7,
        m.mem.len() == crate::layout::STATE_SLOTS,
        crate::eval::eval_value(m.env, val) == Some(v),
        match val {
            IrValue::Op(k) => k < f.arena.len(),
            IrValue::Const(_) => true,
        },
        m.status_calls < 0xFFFF_FFFF_FFFF_FFFF,
    ensures
        match mtc0_v(c, f, b, CP0_REG_STATUS, rt, index) {
            Some(r) => {
                let new_ops = r.1.blocks[b].ops.skip(f.blocks[b].ops.len() as int);
                &&& r.0 == c
                &&& r.1.blocks[b].ops.len() == f.blocks[b].ops.len() + 7
                &&& match crate::eval::eval_ops(r.1, new_ops, m) {
                    Some(m2) => {
                        &&& m2.mem == m.mem.update(
                            CP0_STATUS_OFFSET as int / 8,
                            masked_status(
                                crate::bits::low32(m.mem[CP0_STATUS_OFFSET as int / 8]),
                                v,
                            ),
                        )
                        &&& m2.status_calls == m.status_calls + 1
                        &&& m2.resched_calls == m.resched_calls
                    },
                    None => false,
                }
            },
            None => false,
        },
{
    let n = f.arena.len() as int;
    let mask = IrValue::Const(CP0_STATUS_WRITE_MASK as u64);
    let (c1, f1, value) = get_gpr_v(c, f, b, rt as int);
    assert(c1 == c && f1 == f && value == val);
    let r = mtc0_v(c, f, b, CP0_REG_STATUS, rt, index);
    let ff = r.arrow_Some_0().1;
    assert(ff.blocks[b].ops =~= f.blocks[b].ops + seq![
        n as usize,
        (n + 1) as usize,
        (n + 2) as usize,
        (n + 3) as usize,
        (n + 4) as usize,
        (n + 5) as usize,
        (n + 6) as usize,
    ]);
    let new_ops = ff.blocks[b].ops.skip(f.blocks[b].ops.len() as int);
    assert(new_ops =~= seq![
        n as usize,
        (n + 1) as usize,
        (n + 2) as usize,
        (n + 3) as usize,
        (n + 4) as usize,
        (n + 5) as usize,
        (n + 6) as usize,
    ]);
    let mbits = CP0_STATUS_WRITE_MASK as u64;
    let not_mask = crate::eval::trunc_size(IrSize::U32, mbits ^ 0xFFFF_FFFF_FFFF_FFFF);
    let m1 = crate::eval::set_result(m, n, not_mask);
    assert(crate::eval::eval_op(n, ff.arena[n], m) == Some(m1));
    let p_raw = m.mem[CP0_STATUS_OFFSET as int / 8];
    let p = crate::bits::low32(p_raw);
    let m2 = crate::eval::set_result(m1, n + 1, p);
    assert(crate::eval::eval_op(n + 1, ff.arena[n + 1], m1) == Some(m2));
    let old_masked = crate::eval::trunc_size(IrSize::U32, p & not_mask);
    let m3 = crate::eval::set_result(m2, n + 2, old_masked);
    assert(crate::eval::eval_value(m2.env, IrValue::Op((n + 1) as usize)) == Some(p));
    assert(crate::eval::eval_value(m2.env, IrValue::Op(n as usize)) == Some(not_mask));
    assert(crate::eval::eval_op(n + 2, ff.arena[n + 2], m2) == Some(m3));
    assert(crate::eval::eval_value(m3.env, val) == Some(v));
    let value_masked = crate::eval::trunc_size(IrSize::U32, v & mbits);
    let m4 = crate::eval::set_result(m3, n + 3, value_masked);
    assert(crate::eval::eval_op(n + 3, ff.arena[n + 3], m3) == Some(m4));
    let new_status = crate::eval::trunc_size(IrSize::U32, value_masked | old_masked);
    let m5 = crate::eval::set_result(m4, n + 4, new_status);
    assert(crate::eval::eval_value(m4.env, IrValue::Op((n + 3) as usize)) == Some(value_masked));
    assert(crate::eval::eval_value(m4.env, IrValue::Op((n + 2) as usize)) == Some(old_masked));
    assert(crate::eval::eval_op(n + 4, ff.arena[n + 4], m4) == Some(m5));
    let stored = crate::eval::trunc_size(IrSize::U32, new_status);
    let m6 = crate::eval::MachineV {
        mem: m5.mem.update(CP0_STATUS_OFFSET as int / 8, stored),
        env: m5.env,
        resched_calls: m5.resched_calls,
        status_calls: m5.status_calls,
    };
    assert(crate::eval::eval_value(m5.env, IrValue::Op((n + 4) as usize)) == Some(new_status));
    assert(crate::eval::eval_op(n + 5, ff.arena[n + 5], m5) == Some(m6));
    let m7 = crate::eval::MachineV {
        mem: m6.mem,
        env: m6.env,
        resched_calls: m6.resched_calls,
        status_calls: vstd::wrapping::u64_specs::wrapping_add(m6.status_calls, 1),
    };
    assert(crate::eval::eval_op(n + 6, ff.arena[n + 6], m6) == Some(m7));
    let s1 = new_ops.skip(1);
    let s2 = s1.skip(1);
    let s3 = s2.skip(1);
    let s4 = s3.skip(1);
    let s5 = s4.skip(1);
    let s6 = s5.skip(1);
    assert(s1 =~= seq![
        (n + 1) as usize,
        (n + 2) as usize,
        (n + 3) as usize,
        (n + 4) as usize,
        (n + 5) as usize,
        (n + 6) as usize,
    ]);
    assert(s6 =~= seq![(n + 6) as usize]);
    assert(s6.skip(1) =~= Seq::<usize>::empty());
    assert(crate::eval::eval_ops(ff, s6.skip(1), m7) == Some(m7));
    assert(crate::eval::eval_ops(ff, s6, m6) == Some(m7));
    assert(crate::eval::eval_ops(ff, s5, m5) == Some(m7));
    assert(crate::eval::eval_ops(ff, s4, m4) == Some(m7));
    assert(crate::eval::eval_ops(ff, s3, m3) == Some(m7));
    assert(crate::eval::eval_ops(ff, s2, m2) == Some(m7));
    assert(crate::eval::eval_ops(ff, s1, m1) == Some(m7));
    assert(crate::eval::eval_ops(ff, new_ops, m) == Some(m7));
    assert(p < 0x1_0000_0000);
    lemma_status_mask_arith(p, v);
    assert(stored == masked_status(p, v));
    assert(m7.mem =~= m.mem.update(CP0_STATUS_OFFSET as int / 8, masked_status(p, v)));
}

/// Count-register scaling law: lowering a write of `v` to `count` makes the
/// translated code store exactly `v` shifted left by one bit, modulo the
/// 32-bit field width, change no other slot, and trigger exactly one
/// compare-interrupt reschedule call.
pub proof fn lemma_count_write_scales(
    c: CacheV,
    f: FuncV,
    b: int,
    rt: u8,
    index: u32,
    m: crate::eval::MachineV,
    v: u64,
    val: IrValue,
)
    requires
        c.gprs.len() == 32,
        rt < 32,
        c.gprs[rt as int] == Some(val),
        0 <= b < f.blocks.len(),
        f.arena.len() + 16 <= usize::MAX,
        m.env.len() == f.arena.len() + 4,
        m.mem.len() == crate::layout::STATE_SLOTS,
        crate::eval::eval_value(m.env, val) == Some(v),
        match val {
            IrValue::Op(k) => k < f.arena.len(),
            IrValue::Const(_) => true,
        },
        m.resched_calls < 0xFFFF_FFFF_FFFF_FFFF,
    ensures
        match mtc0_v(c, f, b, CP0_REG_COUNT, rt, index) {
            Some(r) => {
                let new_ops = r.1.blocks[b].ops.skip(f.blocks[b].ops.len() as int);
                &&& r.0 == c
                &&& r.1.blocks[b].ops.len() == f.blocks[b].ops.len() + 4
                &&& match crate::eval::eval_ops(r.1, new_ops, m) {
                    Some(m2) => {
                        &&& m2.mem == m.mem.update(
                            CP0_COUNT_OFFSET as int / 8,
                            crate::bits::low32(crate::bits::low32(v) << 1),
                        )
                        &&& m2.resched_calls == m.resched_calls + 1
                        &&& m2.status_calls == m.status_calls
                    },
                    None => false,
                }
            },
            None => false,
        },
{
    let n = f.arena.len() as int;
    let (c1, f1, value) = get_gpr_v(c, f, b, rt as int);
    assert(c1 == c && f1 == f && value == val);
    let r = mtc0_v(c, f, b, CP0_REG_COUNT, rt, index);
    let ff = r.arrow_Some_0().1;
    assert(ff.blocks[b].ops =~= f.blocks[b].ops + seq![
        n as usize,
        (n + 1) as usize,
        (n + 2) as usize,
        (n + 3) as usize,
    ]);
    let new_ops = ff.blocks[b].ops.skip(f.blocks[b].ops.len() as int);
    assert(new_ops =~= seq![n as usize, (n + 1) as usize, (n + 2) as usize, (n + 3) as usize]);
    let low = crate::bits::low32(v);
    let m1 = crate::eval::set_result(m, n, low);
    assert(crate::eval::convert_sem(IrSize::U64, IrSize::U32, v) == low);
    assert(crate::eval::eval_op(n, ff.arena[n], m) == Some(m1));
    assert(low < 0x1_0000_0000);
    let shifted = crate::eval::trunc_size(
        IrSize::U64,
        crate::eval::trunc_size(IrSize::U64, low) << crate::eval::shift_amount(
            IrSize::U64,
            1,
        ),
    );
    let m2 = crate::eval::set_result(m1, n + 1, shifted);
    assert(crate::eval::eval_value(m1.env, IrValue::Op(n as usize)) == Some(low));
    assert(crate::eval::eval_op(n + 1, ff.arena[n + 1], m1) == Some(m2));
    let stored = crate::eval::trunc_size(IrSize::U32, shifted);
    let m3 = crate::eval::MachineV {
        mem: m2.mem.update(CP0_COUNT_OFFSET as int / 8, stored),
        env: m2.env,
        resched_calls: m2.resched_calls,
        status_calls: m2.status_calls,
    };
    assert(crate::eval::eval_value(m2.env, IrValue::Op((n + 1) as usize)) == Some(shifted));
    assert(crate::eval::eval_op(n + 2, ff.arena[n + 2], m2) == Some(m3));
    let m4 = crate::eval::MachineV {
        mem: m3.mem,
        env: m3.env,
        resched_calls: vstd::wrapping::u64_specs::wrapping_add(m3.resched_calls, 1),
        status_calls: m3.status_calls,
    };
    assert(crate::eval::eval_op(n + 3, ff.arena[n + 3], m3) == Some(m4));
    let s1 = new_ops.skip(1);
    let s2 = s1.skip(1);
    let s3 = s2.skip(1);
    assert(s1 =~= seq![(n + 1) as usize, (n + 2) as usize, (n + 3) as usize]);
    assert(s3 =~= seq![(n + 3) as usize]);
    assert(s3.skip(1) =~= Seq::<usize>::empty());
    assert(crate::eval::eval_ops(ff, s3.skip(1), m4) == Some(m4));
    assert(crate::eval::eval_ops(ff, s3, m3) == Some(m4));
    assert(crate::eval::eval_ops(ff, s2, m2) == Some(m4));
    assert(crate::eval::eval_ops(ff, s1, m1) == Some(m4));
    assert(crate::eval::eval_ops(ff, new_ops, m) == Some(m4));
    assert(crate::eval::shift_amount(IrSize::U64, 1) == 1);
    assert(stored == crate::bits::low32(crate::bits::low32(v) << 1));
    assert(m4.mem =~= m.mem.update(
        CP0_COUNT_OFFSET as int / 8,
        crate::bits::low32(crate::bits::low32(v) << 1),
    ));
}

} // verus!
