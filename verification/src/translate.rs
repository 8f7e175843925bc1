//! The block translator: drives the decoded instruction stream in program
//! order, dispatches each opcode to its lowering rule, weaves the explicit
//! control-flow graph for branches and jumps (honouring the one-instruction
//! delay slot and the early return of "likely" branches), tracks the cycle
//! count, and finalizes the function by flushing the register cache and
//! emitting the return terminator.

use vstd::prelude::*;

use crate::bits::sext16;
use crate::bits::sext32;
use crate::bits::sign_extend16;
use crate::decoder::BranchCondition;
use crate::eval::MachineV;
use crate::eval::eval_op;
use crate::eval::eval_ops;
use crate::eval::eval_value;
use crate::eval::set_result;
use crate::eval::trunc_size;
use crate::decoder::BranchInfo;
use crate::decoder::MipsOpcode;
use crate::decoder::ParsedMipsInstruction;
use crate::ir::FuncV;
use crate::ir::IrFunction;
use crate::ir::IrInstruction;
use crate::ir::IrSize;
use crate::ir::IrValue;
use crate::ir::CompareKind;
use crate::ir::MemAccessKind;
use crate::ir::Terminator;
use crate::ir::empty_block_v;
use crate::ir::new_block_v;
use crate::ir::push_op_v;
use crate::ir::push_op_val;
use crate::ir::set_term_v;
use crate::ir::wf_building;
use crate::ir::all_blocks_wf;
use crate::layout::NEXT_PC_OFFSET;
use crate::layout::MULT_HI_OFFSET;
use crate::layout::MULT_LO_OFFSET;
use crate::layout::PC_OFFSET;
use crate::regcache::CacheV;
use crate::regcache::GuestRegisterManager;
use crate::regcache::flush_ops;
use crate::regcache::fresh_cache;
use crate::regcache::get_gpr_v;
use crate::regcache::get_hi_v;
use crate::regcache::get_lo_v;
use crate::regcache::push_ops_v;
use crate::regcache::set_gpr_v;
use crate::regcache::wf_cache;

verus! {

/// The translator's whole state between two instructions: the register
/// cache, the function under construction (whose last block is the one
/// currently being filled), and the cycles accumulated so far.
pub struct TransV {
    pub cache: CacheV,
    pub func: FuncV,
    pub cycles: u64,
}

/// Failure of a translation: the instruction at `index` (with raw word
/// `word`) has no lowering rule.  This is a development-time defect — a gap
/// in the opcode coverage — never a runtime guest condition.
#[derive(Clone, Copy, PartialEq, Eq, Structural, Debug)]
pub enum TranslateError {
    UnimplementedOpcode { index: usize, word: u32 },
}

/// Commit a control transfer to `value`: write `pc`, then `value + 4` into
/// `next_pc` (priming the delay-slot fetch).
pub open spec fn set_pc_v(f: FuncV, b: int, value: IrValue) -> FuncV {
    let f1 = push_op_v(f, b, IrInstruction::SetPtr(PC_OFFSET, IrSize::U64, value));
    let f2 = push_op_v(f1, b, IrInstruction::Add(IrSize::U64, value, IrValue::Const(4)));
    let next = push_op_val(f1);
    push_op_v(f2, b, IrInstruction::SetPtr(NEXT_PC_OFFSET, IrSize::U64, next))
}

/// Executable form of [`set_pc_v`].
pub fn set_pc(func: &mut IrFunction, b: usize, value: IrValue)
    requires
        b < old(func)@.blocks.len(),
        old(func)@.blocks[b as int].term is None,
    ensures
        final(func)@ == set_pc_v(old(func)@, b as int, value),
        all_blocks_wf(old(func)@) ==> all_blocks_wf(final(func)@),
        final(func)@.blocks.len() == old(func)@.blocks.len(),
        forall|i: int|
            0 <= i < old(func)@.blocks.len() ==> final(func)@.blocks[i].term == old(
                func,
            )@.blocks[i].term,
{
    func.push_op(b, IrInstruction::SetPtr(PC_OFFSET, IrSize::U64, value));
    let next = func.push_op(b, IrInstruction::Add(IrSize::U64, value, IrValue::Const(4)));
    func.push_op(b, IrInstruction::SetPtr(NEXT_PC_OFFSET, IrSize::U64, next));
}

/// The return address a link form writes: two instructions past the branch,
/// skipping the delay slot.
pub open spec fn link_address(vaddr: u64) -> u64 {
    vstd::wrapping::u64_specs::wrapping_add(vaddr, 8)
}

/// Effect of a link form on the cache.
pub open spec fn set_link_reg_v(c: CacheV, vaddr: u64, mips_reg: u8) -> CacheV {
    set_gpr_v(c, mips_reg as int, IrValue::Const(link_address(vaddr)))
}

/// Write the return address (the address after the delay slot) into the
/// designated link register.
pub fn set_link_reg(cache: &mut GuestRegisterManager, vaddr: u64, mips_reg: u8)
    requires
        mips_reg < 32,
        old(cache)@.gprs.len() == 32,
    ensures
        final(cache)@ == set_link_reg_v(old(cache)@, vaddr, mips_reg),
{
    cache.set_gpr(mips_reg, IrValue::Const(vaddr.wrapping_add(8)));
}

/// Effect of resolving `base + offset` through the native virtual-to-physical
/// translator.  The current block ends in a branch on the resolver's success
/// flag: the failure block invokes the native translation-fault handler and
/// returns immediately; the success block (the new current block) loads the
/// resolved physical address from the call's scratch output and continues.
pub open spec fn paddr_v(
    c: CacheV,
    f: FuncV,
    b: int,
    base_reg: u8,
    offset: u16,
    kind: MemAccessKind,
) -> (CacheV, FuncV, IrValue) {
    let (c1, f1, base) = get_gpr_v(c, f, b, base_reg as int);
    let f2 = push_op_v(
        f1,
        b,
        IrInstruction::Add(IrSize::U64, base, IrValue::Const(sext16(offset))),
    );
    let virtual_address = push_op_val(f1);
    let f3 = push_op_v(f2, b, IrInstruction::CallResolveVirtual(virtual_address, kind));
    let success = push_op_val(f2);
    let fail = f3.blocks.len() as int;
    let f4 = new_block_v(f3);
    let f5 = push_op_v(f4, fail, IrInstruction::CallTranslationFault(virtual_address));
    let f6 = set_term_v(f5, fail, Terminator::Ret(None));
    let succ = f6.blocks.len() as int;
    let f7 = new_block_v(f6);
    let f8 = set_term_v(f7, b, Terminator::Branch(success, succ as usize, fail as usize));
    let f9 = push_op_v(f8, succ, IrInstruction::LoadResolvedPaddr(success));
    let paddr = push_op_val(f8);
    (c1, f9, paddr)
}

/// Executable form of [`paddr_v`]: returns the physical-address value and the
/// new current block.
pub fn get_paddr_for_loadstore(
    func: &mut IrFunction,
    cache: &mut GuestRegisterManager,
    b: usize,
    base_reg: u8,
    offset: u16,
    kind: MemAccessKind,
) -> (r: (IrValue, usize))
    requires
        base_reg < 32,
        old(cache)@.gprs.len() == 32,
        b as int == old(func)@.blocks.len() - 1,
        old(func)@.blocks[b as int].term is None,
    ensures
        (final(cache)@, final(func)@, r.0) == paddr_v(
            old(cache)@,
            old(func)@,
            b as int,
            base_reg,
            offset,
            kind,
        ),
        r.1 as int == final(func)@.blocks.len() - 1,
        final(func)@.blocks[r.1 as int].term is None,
        final(cache)@.gprs.len() == old(cache)@.gprs.len(),
        wf_building(old(func)@) ==> wf_building(final(func)@),
{
    let base = cache.get_gpr(func, b, base_reg);
    let virtual_address = func.push_op(
        b,
        IrInstruction::Add(IrSize::U64, base, IrValue::Const(sign_extend16(offset))),
    );
    let success = func.push_op(b, IrInstruction::CallResolveVirtual(virtual_address, kind));
    let fail = func.new_block();
    func.push_op(fail, IrInstruction::CallTranslationFault(virtual_address));
    func.set_term(fail, Terminator::Ret(None));
    let succ = func.new_block();
    func.set_term(b, Terminator::Branch(success, succ, fail));
    let paddr = func.push_op(succ, IrInstruction::LoadResolvedPaddr(success));
    (paddr, succ)
}

/// The comparison an IR branch performs for a decoded branch condition; the
/// single-operand kinds compare against register 0.
pub open spec fn branch_compare_kind(cond: BranchCondition) -> CompareKind {
    match cond {
        BranchCondition::EQ => CompareKind::Equal,
        BranchCondition::NE => CompareKind::NotEqual,
        BranchCondition::GTZ => CompareKind::GreaterThanSigned,
        BranchCondition::LTZ => CompareKind::LessThanSigned,
        BranchCondition::LEZ => CompareKind::LessThanOrEqualSigned,
        BranchCondition::GEZ => CompareKind::GreaterThanOrEqualSigned,
    }
}

/// Whether the second operand is forced to register 0.
pub open spec fn branch_uses_zero(cond: BranchCondition) -> bool {
    match cond {
        BranchCondition::EQ => false,
        BranchCondition::NE => false,
        _ => true,
    }
}

/// The branch target: the delay-slot address plus the sign-extended offset
/// scaled by four, wrapping.
pub open spec fn branch_taken_pc(vaddr: u64, imm: u16) -> u64 {
    vstd::wrapping::u64_specs::wrapping_add(
        vstd::wrapping::u64_specs::wrapping_add(vaddr, 4),
        vstd::wrapping::u64_specs::wrapping_mul(sext16(imm), 4),
    )
}

/// The fall-through target: past the delay slot, wrapping.
pub open spec fn branch_not_taken_pc(vaddr: u64) -> u64 {
    vstd::wrapping::u64_specs::wrapping_add(vaddr, 8)
}

/// Effect of lowering a conditional branch at `vaddr` with `cycles`
/// instructions already accumulated.
///
/// Two successor blocks are created, each committing its own control-transfer
/// target in full (the two commit paths are never merged); the current block
/// branches between them on the comparison.  Lowering then continues in a
/// fresh continuation block — where the delay-slot instruction will land —
/// reached from the taken successor, and, for a non-likely branch, from the
/// not-taken successor as well.  A likely branch instead flushes the cache
/// before the split and lets the not-taken successor return at once with the
/// cycle count through this instruction, skipping the delay slot.
pub open spec fn branch_v(
    c: CacheV,
    f: FuncV,
    b: int,
    info: BranchInfo,
    rs: u8,
    rt: u8,
    imm: u16,
    vaddr: u64,
    cycles: u64,
) -> (CacheV, FuncV) {
    let c0 = if info.link {
        set_link_reg_v(c, vaddr, 31)
    } else {
        c
    };
    let rt_reg = if branch_uses_zero(info.cond) {
        0u8
    } else {
        rt
    };
    let (c1, f1, rs_v) = get_gpr_v(c0, f, b, rs as int);
    let (c2, f2, rt_v) = get_gpr_v(c1, f1, b, rt_reg as int);
    let f3 = push_op_v(
        f2,
        b,
        IrInstruction::Compare(branch_compare_kind(info.cond), rs_v, rt_v),
    );
    let take_branch = push_op_val(f2);
    let taken = f3.blocks.len() as int;
    let f4 = new_block_v(f3);
    let not_taken = f4.blocks.len() as int;
    let f5 = new_block_v(f4);
    let f6 = set_pc_v(f5, taken, IrValue::Const(branch_taken_pc(vaddr, imm)));
    let f7 = set_pc_v(f6, not_taken, IrValue::Const(branch_not_taken_pc(vaddr)));
    let c3 = if info.likely {
        fresh_cache()
    } else {
        c2
    };
    let f8 = if info.likely {
        push_ops_v(f7, b, flush_ops(c2))
    } else {
        f7
    };
    let f9 = set_term_v(f8, b, Terminator::Branch(take_branch, taken as usize, not_taken as usize));
    let cont = f9.blocks.len() as int;
    let f10 = new_block_v(f9);
    let f11 = set_term_v(f10, taken, Terminator::Jump(cont as usize));
    let f12 = if info.likely {
        set_term_v(
            f11,
            not_taken,
            Terminator::Ret(Some(IrValue::Const(cycles.wrapping_add(1)))),
        )
    } else {
        set_term_v(f11, not_taken, Terminator::Jump(cont as usize))
    };
    (c3, f12)
}

/// Executable form of [`branch_v`]: returns the new current block.
pub fn lower_branch(
    func: &mut IrFunction,
    cache: &mut GuestRegisterManager,
    b: usize,
    info: BranchInfo,
    rs: u8,
    rt: u8,
    imm: u16,
    vaddr: u64,
    cycles: u64,
) -> (new_cur: usize)
    requires
        rs < 32,
        rt < 32,
        wf_cache(old(cache)@),
        b as int == old(func)@.blocks.len() - 1,
        old(func)@.blocks[b as int].term is None,
    ensures
        (final(cache)@, final(func)@) == branch_v(
            old(cache)@,
            old(func)@,
            b as int,
            info,
            rs,
            rt,
            imm,
            vaddr,
            cycles,
        ),
        new_cur as int == final(func)@.blocks.len() - 1,
        final(func)@.blocks[new_cur as int].term is None,
        final(cache)@.gprs.len() == 32,
        wf_building(old(func)@) ==> wf_building(final(func)@),
{
    if info.link {
        set_link_reg(cache, vaddr, 31);
    }
    let rt_reg: u8 = match info.cond {
        BranchCondition::EQ => rt,
        BranchCondition::NE => rt,
        _ => 0,
    };
    let compare_kind = match info.cond {
        BranchCondition::EQ => CompareKind::Equal,
        BranchCondition::NE => CompareKind::NotEqual,
        BranchCondition::GTZ => CompareKind::GreaterThanSigned,
        BranchCondition::LTZ => CompareKind::LessThanSigned,
        BranchCondition::LEZ => CompareKind::LessThanOrEqualSigned,
        BranchCondition::GEZ => CompareKind::GreaterThanOrEqualSigned,
    };
    let rs_v = cache.get_gpr(func, b, rs);
    let rt_v = cache.get_gpr(func, b, rt_reg);
    let take_branch = func.push_op(b, IrInstruction::Compare(compare_kind, rs_v, rt_v));
    let taken = func.new_block();
    let not_taken = func.new_block();
    let taken_pc = vaddr.wrapping_add(4).wrapping_add(sign_extend16(imm).wrapping_mul(4));
    let not_taken_pc = vaddr.wrapping_add(8);
    set_pc(func, taken, IrValue::Const(taken_pc));
    proof {
        assert(func@.blocks[b as int].term is None);
        assert(func@.blocks[not_taken as int].term is None);
        assert(func@.blocks[taken as int].term is None);
    }
    set_pc(func, not_taken, IrValue::Const(not_taken_pc));
    proof {
        assert(func@.blocks[b as int].term is None);
        assert(func@.blocks[not_taken as int].term is None);
        assert(func@.blocks[taken as int].term is None);
    }
    if info.likely {
        // Flush before the split so both successors see consistent guest
        // memory; values the delay slot needs are reloaded.
        let ghost f_pre = func@;
        let ghost c_pre = cache@;
        cache.flush_all(func, b);
        proof {
            crate::regcache::lemma_push_ops_v_shape(f_pre, b as int, flush_ops(c_pre));
            assert(func@.blocks[not_taken as int].term is None);
            assert(func@.blocks[taken as int].term is None);
        }
    }
    func.set_term(b, Terminator::Branch(take_branch, taken, not_taken));
    proof {
        assert(func@.blocks[not_taken as int].term is None);
        assert(func@.blocks[taken as int].term is None);
    }
    let cont = func.new_block();
    func.set_term(taken, Terminator::Jump(cont));
    if info.likely {
        // A likely branch not taken returns at once: the delay slot is
        // skipped entirely on that path.
        func.set_term(
            not_taken,
            Terminator::Ret(Some(IrValue::Const(cycles.wrapping_add(1)))),
        );
    } else {
        // A normal branch falls through into the continuation: the delay
        // slot executes on both paths.
        func.set_term(not_taken, Terminator::Jump(cont));
    }
    cont
}

/// Effect of lowering `DIV rs, rt`: a runtime check splits on a zero
/// divisor.  On the zero path HI becomes the sign-extended dividend and LO
/// the architectural ±1 by the dividend's sign; on the normal path the
/// 32-bit quotient and remainder are computed and stored.  Both paths join
/// in a fresh continuation block.  Results are written straight to guest
/// memory, bypassing the cache, as architectural convention demands no fault.
pub open spec fn div_v(c: CacheV, f: FuncV, b: int, rs: u8, rt: u8) -> (CacheV, FuncV) {
    let (c1, d1, dividend) = get_gpr_v(c, f, b, rs as int);
    let (c2, d2, divisor) = get_gpr_v(c1, d1, b, rt as int);
    let d3 = push_op_v(
        d2,
        b,
        IrInstruction::Compare(CompareKind::Equal, divisor, IrValue::Const(0)),
    );
    let is_zero = push_op_val(d2);
    let normal = d3.blocks.len() as int;
    let d4 = new_block_v(d3);
    let zero = d4.blocks.len() as int;
    let d5 = new_block_v(d4);
    let d6 = set_term_v(d5, b, Terminator::Branch(is_zero, zero as usize, normal as usize));
    let d7 = push_op_v(d6, zero, IrInstruction::Convert(IrSize::S32, IrSize::S64, dividend));
    let sign_extended = push_op_val(d6);
    let d8 = push_op_v(d7, zero, IrInstruction::SetPtr(MULT_HI_OFFSET, IrSize::S64, sign_extended));
    let d9 = push_op_v(
        d8,
        zero,
        IrInstruction::Compare(CompareKind::GreaterThanOrEqualSigned, dividend, IrValue::Const(0)),
    );
    let is_gte = push_op_val(d8);
    let gte = d9.blocks.len() as int;
    let d10 = new_block_v(d9);
    let ltz = d10.blocks.len() as int;
    let d11 = new_block_v(d10);
    let d12 = set_term_v(d11, zero, Terminator::Branch(is_gte, gte as usize, ltz as usize));
    let d13 = push_op_v(
        d12,
        gte,
        IrInstruction::SetPtr(MULT_LO_OFFSET, IrSize::S64, IrValue::Const(0xFFFF_FFFF_FFFF_FFFF)),
    );
    let d14 = push_op_v(
        d13,
        ltz,
        IrInstruction::SetPtr(MULT_LO_OFFSET, IrSize::S64, IrValue::Const(1)),
    );
    let d15 = push_op_v(d14, normal, IrInstruction::DivQuot(IrSize::S32, dividend, divisor));
    let quot = push_op_val(d14);
    let d16 = push_op_v(d15, normal, IrInstruction::DivRem(IrSize::S32, dividend, divisor));
    let rem = push_op_val(d15);
    let d17 = push_op_v(d16, normal, IrInstruction::Convert(IrSize::S32, IrSize::S64, quot));
    let quot64 = push_op_val(d16);
    let d18 = push_op_v(d17, normal, IrInstruction::Convert(IrSize::S32, IrSize::S64, rem));
    let rem64 = push_op_val(d17);
    let d19 = push_op_v(d18, normal, IrInstruction::SetPtr(MULT_LO_OFFSET, IrSize::S64, quot64));
    let d20 = push_op_v(d19, normal, IrInstruction::SetPtr(MULT_HI_OFFSET, IrSize::S64, rem64));
    let end = d20.blocks.len() as int;
    let d21 = new_block_v(d20);
    let d22 = set_term_v(d21, gte, Terminator::Jump(end as usize));
    let d23 = set_term_v(d22, ltz, Terminator::Jump(end as usize));
    let d24 = set_term_v(d23, normal, Terminator::Jump(end as usize));
    (c2, d24)
}

/// Executable form of [`div_v`]: returns the new current block.
pub fn lower_div(
    func: &mut IrFunction,
    cache: &mut GuestRegisterManager,
    b: usize,
    rs: u8,
    rt: u8,
) -> (new_cur: usize)
    requires
        rs < 32,
        rt < 32,
        old(cache)@.gprs.len() == 32,
        b as int == old(func)@.blocks.len() - 1,
        old(func)@.blocks[b as int].term is None,
    ensures
        (final(cache)@, final(func)@) == div_v(old(cache)@, old(func)@, b as int, rs, rt),
        new_cur as int == final(func)@.blocks.len() - 1,
        final(func)@.blocks[new_cur as int].term is None,
        final(cache)@.gprs.len() == old(cache)@.gprs.len(),
        wf_building(old(func)@) ==> wf_building(final(func)@),
{
    let dividend = cache.get_gpr(func, b, rs);
    let divisor = cache.get_gpr(func, b, rt);
    let is_zero = func.push_op(
        b,
        IrInstruction::Compare(CompareKind::Equal, divisor, IrValue::Const(0)),
    );
    let normal = func.new_block();
    let zero = func.new_block();
    func.set_term(b, Terminator::Branch(is_zero, zero, normal));
    let sign_extended = func.push_op(
        zero,
        IrInstruction::Convert(IrSize::S32, IrSize::S64, dividend),
    );
    func.push_op(zero, IrInstruction::SetPtr(MULT_HI_OFFSET, IrSize::S64, sign_extended));
    let is_gte = func.push_op(
        zero,
        IrInstruction::Compare(CompareKind::GreaterThanOrEqualSigned, dividend, IrValue::Const(0)),
    );
    let gte = func.new_block();
    let ltz = func.new_block();
    func.set_term(zero, Terminator::Branch(is_gte, gte, ltz));
    func.push_op(
        gte,
        IrInstruction::SetPtr(MULT_LO_OFFSET, IrSize::S64, IrValue::Const(0xFFFF_FFFF_FFFF_FFFF)),
    );
    func.push_op(ltz, IrInstruction::SetPtr(MULT_LO_OFFSET, IrSize::S64, IrValue::Const(1)));
    let quot = func.push_op(normal, IrInstruction::DivQuot(IrSize::S32, dividend, divisor));
    let rem = func.push_op(normal, IrInstruction::DivRem(IrSize::S32, dividend, divisor));
    let quot64 = func.push_op(normal, IrInstruction::Convert(IrSize::S32, IrSize::S64, quot));
    let rem64 = func.push_op(normal, IrInstruction::Convert(IrSize::S32, IrSize::S64, rem));
    func.push_op(normal, IrInstruction::SetPtr(MULT_LO_OFFSET, IrSize::S64, quot64));
    func.push_op(normal, IrInstruction::SetPtr(MULT_HI_OFFSET, IrSize::S64, rem64));
    let end = func.new_block();
    func.set_term(gte, Terminator::Jump(end));
    func.set_term(ltz, Terminator::Jump(end));
    func.set_term(normal, Terminator::Jump(end));
    end
}

/// Effect of lowering `MULT`/`MULTU`: the 32-bit operands produce a paired
/// result; its halves are sign-extended and written to the LO and HI cache
/// slots.
pub open spec fn mult_v(c: CacheV, f: FuncV, b: int, rs: u8, rt: u8, signed: bool) -> (
    CacheV,
    FuncV,
) {
    let size = if signed {
        IrSize::S32
    } else {
        IrSize::U32
    };
    let (c1, f1, a) = get_gpr_v(c, f, b, rs as int);
    let (c2, f2, bb) = get_gpr_v(c1, f1, b, rt as int);
    let f3 = push_op_v(f2, b, IrInstruction::MulLo(size, a, bb));
    let lo32 = push_op_val(f2);
    let f4 = push_op_v(f3, b, IrInstruction::MulHi(size, a, bb));
    let hi32 = push_op_val(f3);
    let f5 = push_op_v(f4, b, IrInstruction::Convert(IrSize::S32, IrSize::S64, lo32));
    let lo = push_op_val(f4);
    let f6 = push_op_v(f5, b, IrInstruction::Convert(IrSize::S32, IrSize::S64, hi32));
    let hi = push_op_val(f5);
    (CacheV { gprs: c2.gprs, hi: Some(hi), lo: Some(lo) }, f6)
}

/// Executable form of [`mult_v`].
pub fn lower_mult(
    func: &mut IrFunction,
    cache: &mut GuestRegisterManager,
    b: usize,
    rs: u8,
    rt: u8,
    signed: bool,
)
    requires
        rs < 32,
        rt < 32,
        old(cache)@.gprs.len() == 32,
        b < old(func)@.blocks.len(),
        old(func)@.blocks[b as int].term is None,
    ensures
        (final(cache)@, final(func)@) == mult_v(old(cache)@, old(func)@, b as int, rs, rt, signed),
        wf_building(old(func)@) && b as int == old(func)@.blocks.len() - 1 ==> wf_building(
            final(func)@,
        ),
{
    let size = if signed {
        IrSize::S32
    } else {
        IrSize::U32
    };
    let a = cache.get_gpr(func, b, rs);
    let bb = cache.get_gpr(func, b, rt);
    let lo32 = func.push_op(b, IrInstruction::MulLo(size, a, bb));
    let hi32 = func.push_op(b, IrInstruction::MulHi(size, a, bb));
    let lo = func.push_op(b, IrInstruction::Convert(IrSize::S32, IrSize::S64, lo32));
    let hi = func.push_op(b, IrInstruction::Convert(IrSize::S32, IrSize::S64, hi32));
    cache.set_lo(lo);
    cache.set_hi(hi);
}


/// The instructions this translator has lowering rules for.  Everything else
/// — including the coprocessor-0/1 registers whose transfer lowering is
/// missing — reports an unimplemented-opcode condition.
pub open spec fn supported_instr(p: ParsedMipsInstruction) -> bool {
    let rd = crate::decoder::rd_of(p.instr.0);
    match p.op {
        MipsOpcode::NOP => true,
        MipsOpcode::CACHE => true,
        MipsOpcode::TLBWI => true,
        MipsOpcode::LUI => true,
        MipsOpcode::ADDI => true,
        MipsOpcode::ADDIU => true,
        MipsOpcode::DADDI => true,
        MipsOpcode::ANDI => true,
        MipsOpcode::ORI => true,
        MipsOpcode::XORI => true,
        MipsOpcode::SLTIU => true,
        MipsOpcode::LBU => true,
        MipsOpcode::LW => true,
        MipsOpcode::LWU => true,
        MipsOpcode::SB => true,
        MipsOpcode::SW => true,
        MipsOpcode::J => true,
        MipsOpcode::JAL => true,
        MipsOpcode::JR => true,
        MipsOpcode::JALR => true,
        MipsOpcode::BRANCH(_) => true,
        MipsOpcode::SLL => true,
        MipsOpcode::SRL => true,
        MipsOpcode::SRA => true,
        MipsOpcode::SLLV => true,
        MipsOpcode::SRLV => true,
        MipsOpcode::MFHI => true,
        MipsOpcode::MFLO => true,
        MipsOpcode::MULT => true,
        MipsOpcode::MULTU => true,
        MipsOpcode::DIV => true,
        MipsOpcode::ADD => true,
        MipsOpcode::ADDU => true,
        MipsOpcode::SUB => true,
        MipsOpcode::SUBU => true,
        MipsOpcode::AND => true,
        MipsOpcode::OR => true,
        MipsOpcode::XOR => true,
        MipsOpcode::SLT => true,
        MipsOpcode::SLTU => true,
        MipsOpcode::MFC0 => rd == crate::cp0::CP0_REG_ENTRYHI || rd == crate::cp0::CP0_REG_STATUS,
        MipsOpcode::MTC0 => rd == crate::cp0::CP0_REG_ENTRYHI || rd == crate::cp0::CP0_REG_STATUS
            || rd == crate::cp0::CP0_REG_TAGLO || rd == crate::cp0::CP0_REG_TAGHI
            || rd == crate::cp0::CP0_REG_CAUSE || rd == crate::cp0::CP0_REG_COMPARE
            || rd == crate::cp0::CP0_REG_ENTRYLO0 || rd == crate::cp0::CP0_REG_ENTRYLO1
            || rd == crate::cp0::CP0_REG_PAGEMASK || rd == crate::cp0::CP0_REG_INDEX
            || rd == crate::cp0::CP0_REG_COUNT,
        MipsOpcode::CFC1 => rd == 0 || rd == 31,
        MipsOpcode::CTC1 => rd == 0 || rd == 31,
        _ => false,
    }
}

/// Effect of lowering one decoded instruction on the whole translator state,
/// or `None` where the opcode (or the system register it names) has no
/// lowering rule.  The current block is always the function's last; `index`
/// is the instruction's sequence number, handed to native side-effect calls.
pub open spec fn step_v(s: TransV, p: ParsedMipsInstruction, index: u32) -> Option<TransV> {
    let b = s.func.blocks.len() - 1;
    let w = p.instr.0;
    let rs = crate::decoder::rs_of(w);
    let rt = crate::decoder::rt_of(w);
    let rd = crate::decoder::rd_of(w);
    let sa = crate::decoder::sa_of(w);
    let imm = crate::decoder::imm_of(w);
    let cyc = vstd::wrapping::u64_specs::wrapping_add(s.cycles, 1);
    match p.op {
        MipsOpcode::NOP => Some(TransV { cache: s.cache, func: s.func, cycles: cyc }),
        MipsOpcode::CACHE => Some(TransV { cache: s.cache, func: s.func, cycles: cyc }),
        MipsOpcode::TLBWI => Some(TransV { cache: s.cache, func: s.func, cycles: cyc }),
        MipsOpcode::LUI => {
            let c1 = set_gpr_v(
                s.cache,
                rt as int,
                IrValue::Const(sext32(((imm as u64) * 0x10000) as u64)),
            );
            Some(TransV { cache: c1, func: s.func, cycles: cyc })
        },
        MipsOpcode::ADDI => Some(step_alu_imm_sext(s, b, rs, rt, imm, cyc)),
        MipsOpcode::ADDIU => Some(step_alu_imm_sext(s, b, rs, rt, imm, cyc)),
        MipsOpcode::DADDI => {
            let (c1, f1, rs_v) = get_gpr_v(s.cache, s.func, b, rs as int);
            let f2 = push_op_v(
                f1,
                b,
                IrInstruction::Add(IrSize::S64, rs_v, IrValue::Const(sext16(imm))),
            );
            let result = push_op_val(f1);
            Some(TransV { cache: set_gpr_v(c1, rt as int, result), func: f2, cycles: cyc })
        },
        MipsOpcode::ANDI => Some(step_logic_imm(s, b, rs, rt, imm, LogicKind::AndOp, cyc)),
        MipsOpcode::ORI => Some(step_logic_imm(s, b, rs, rt, imm, LogicKind::OrOp, cyc)),
        MipsOpcode::XORI => Some(step_logic_imm(s, b, rs, rt, imm, LogicKind::XorOp, cyc)),
        MipsOpcode::SLTIU => {
            let (c1, f1, rs_v) = get_gpr_v(s.cache, s.func, b, rs as int);
            let f2 = push_op_v(
                f1,
                b,
                IrInstruction::Compare(
                    CompareKind::LessThanUnsigned,
                    rs_v,
                    IrValue::Const(sext16(imm)),
                ),
            );
            let result = push_op_val(f1);
            Some(TransV { cache: set_gpr_v(c1, rt as int, result), func: f2, cycles: cyc })
        },
        MipsOpcode::LBU => {
            let (c1, f1, paddr) = paddr_v(s.cache, s.func, b, rs, imm, MemAccessKind::Load);
            let b2 = f1.blocks.len() - 1;
            let f2 = push_op_v(f1, b2, IrInstruction::CallReadByte(paddr));
            let value = push_op_val(f1);
            Some(TransV { cache: set_gpr_v(c1, rt as int, value), func: f2, cycles: cyc })
        },
        MipsOpcode::LW => {
            let (c1, f1, paddr) = paddr_v(s.cache, s.func, b, rs, imm, MemAccessKind::Load);
            let b2 = f1.blocks.len() - 1;
            let f2 = push_op_v(f1, b2, IrInstruction::CallReadWord(paddr));
            let temp = push_op_val(f1);
            let f3 = push_op_v(f2, b2, IrInstruction::Convert(IrSize::S32, IrSize::S64, temp));
            let value = push_op_val(f2);
            Some(TransV { cache: set_gpr_v(c1, rt as int, value), func: f3, cycles: cyc })
        },
        MipsOpcode::LWU => {
            let (c1, f1, paddr) = paddr_v(s.cache, s.func, b, rs, imm, MemAccessKind::Load);
            let b2 = f1.blocks.len() - 1;
            let f2 = push_op_v(f1, b2, IrInstruction::CallReadWord(paddr));
            let value = push_op_val(f1);
            Some(TransV { cache: set_gpr_v(c1, rt as int, value), func: f2, cycles: cyc })
        },
        MipsOpcode::SB => {
            let (c1, f1, paddr) = paddr_v(s.cache, s.func, b, rs, imm, MemAccessKind::Store);
            let b2 = f1.blocks.len() - 1;
            let (c2, f2, to_write) = get_gpr_v(c1, f1, b2, rt as int);
            let f3 = push_op_v(f2, b2, IrInstruction::CallWriteByte(paddr, to_write));
            Some(TransV { cache: c2, func: f3, cycles: cyc })
        },
        MipsOpcode::SW => {
            let (c1, f1, paddr) = paddr_v(s.cache, s.func, b, rs, imm, MemAccessKind::Store);
            let b2 = f1.blocks.len() - 1;
            let (c2, f2, to_write) = get_gpr_v(c1, f1, b2, rt as int);
            let f3 = push_op_v(f2, b2, IrInstruction::CallWriteWord(paddr, to_write));
            Some(TransV { cache: c2, func: f3, cycles: cyc })
        },
        MipsOpcode::J => {
            let target = jump_target(p.vaddr, w);
            Some(TransV {
                cache: s.cache,
                func: set_pc_v(s.func, b, IrValue::Const(target)),
                cycles: cyc,
            })
        },
        MipsOpcode::JAL => {
            let c1 = set_link_reg_v(s.cache, p.vaddr, 31);
            let target = jump_target(p.vaddr, w);
            Some(TransV {
                cache: c1,
                func: set_pc_v(s.func, b, IrValue::Const(target)),
                cycles: cyc,
            })
        },
        MipsOpcode::JR => {
            let (c1, f1, target) = get_gpr_v(s.cache, s.func, b, rs as int);
            Some(TransV { cache: c1, func: set_pc_v(f1, b, target), cycles: cyc })
        },
        MipsOpcode::JALR => {
            let (c1, f1, target) = get_gpr_v(s.cache, s.func, b, rs as int);
            let f2 = set_pc_v(f1, b, target);
            Some(TransV { cache: set_link_reg_v(c1, p.vaddr, rd), func: f2, cycles: cyc })
        },
        MipsOpcode::BRANCH(info) => {
            let (c1, f1) = branch_v(s.cache, s.func, b, info, rs, rt, imm, p.vaddr, s.cycles);
            Some(TransV { cache: c1, func: f1, cycles: cyc })
        },
        MipsOpcode::SLL => Some(step_shift_const(s, b, rt, rd, sa, ShiftForm::Sll, cyc)),
        MipsOpcode::SRL => Some(step_shift_const(s, b, rt, rd, sa, ShiftForm::Srl, cyc)),
        MipsOpcode::SRA => Some(step_shift_const(s, b, rt, rd, sa, ShiftForm::Sra, cyc)),
        MipsOpcode::SLLV => Some(step_shift_var(s, b, rs, rt, rd, true, cyc)),
        MipsOpcode::SRLV => Some(step_shift_var(s, b, rs, rt, rd, false, cyc)),
        MipsOpcode::MFHI => {
            let (c1, f1, hi) = get_hi_v(s.cache, s.func, b);
            Some(TransV { cache: set_gpr_v(c1, rd as int, hi), func: f1, cycles: cyc })
        },
        MipsOpcode::MFLO => {
            let (c1, f1, lo) = get_lo_v(s.cache, s.func, b);
            Some(TransV { cache: set_gpr_v(c1, rd as int, lo), func: f1, cycles: cyc })
        },
        MipsOpcode::MULT => {
            let (c1, f1) = mult_v(s.cache, s.func, b, rs, rt, true);
            Some(TransV { cache: c1, func: f1, cycles: cyc })
        },
        MipsOpcode::MULTU => {
            let (c1, f1) = mult_v(s.cache, s.func, b, rs, rt, false);
            Some(TransV { cache: c1, func: f1, cycles: cyc })
        },
        MipsOpcode::DIV => {
            let (c1, f1) = div_v(s.cache, s.func, b, rs, rt);
            Some(TransV { cache: c1, func: f1, cycles: cyc })
        },
        MipsOpcode::ADD => Some(step_alu_reg_sext(s, b, rs, rt, rd, true, cyc)),
        MipsOpcode::ADDU => Some(step_alu_reg_sext(s, b, rs, rt, rd, true, cyc)),
        MipsOpcode::SUB => Some(step_alu_reg_sext(s, b, rs, rt, rd, false, cyc)),
        MipsOpcode::SUBU => Some(step_alu_reg_sext(s, b, rs, rt, rd, false, cyc)),
        MipsOpcode::AND => Some(step_logic_reg(s, b, rs, rt, rd, LogicKind::AndOp, cyc)),
        MipsOpcode::OR => Some(step_logic_reg(s, b, rs, rt, rd, LogicKind::OrOp, cyc)),
        MipsOpcode::XOR => Some(step_logic_reg(s, b, rs, rt, rd, LogicKind::XorOp, cyc)),
        MipsOpcode::SLT => Some(step_set_less(s, b, rs, rt, rd, true, cyc)),
        MipsOpcode::SLTU => Some(step_set_less(s, b, rs, rt, rd, false, cyc)),
        MipsOpcode::MFC0 => match crate::cp0::mfc0_v(s.cache, s.func, b, rd, rt) {
            Some((c1, f1)) => Some(TransV { cache: c1, func: f1, cycles: cyc }),
            None => None,
        },
        MipsOpcode::MTC0 => match crate::cp0::mtc0_v(s.cache, s.func, b, rd, rt, index) {
            Some((c1, f1)) => Some(TransV { cache: c1, func: f1, cycles: cyc }),
            None => None,
        },
        MipsOpcode::CFC1 => match crate::cp0::cfc1_v(s.cache, s.func, b, rd, rt) {
            Some((c1, f1)) => Some(TransV { cache: c1, func: f1, cycles: cyc }),
            None => None,
        },
        MipsOpcode::CTC1 => match crate::cp0::ctc1_v(s.cache, s.func, b, rd, rt) {
            Some((c1, f1)) => Some(TransV { cache: c1, func: f1, cycles: cyc }),
            None => None,
        },
        _ => None,
    }
}

/// The absolute target of `J`/`JAL`: the 26-bit field scaled by four,
/// combined with the delay-slot region's upper address bits.
pub open spec fn jump_target(vaddr: u64, w: u32) -> u64 {
    (((crate::decoder::jtarget_of(w) as u64) * 4) as u64) | (vaddr & 0xFFFF_FFFF_F000_0000)
}

/// Which bitwise operation a logical form lowers to.
pub enum LogicKind {
    AndOp,
    OrOp,
    XorOp,
}

/// The IR operation of a 64-bit logical form.
pub open spec fn logic_op(kind: LogicKind, size: IrSize, a: IrValue, bb: IrValue) -> IrInstruction {
    match kind {
        LogicKind::AndOp => IrInstruction::And(size, a, bb),
        LogicKind::OrOp => IrInstruction::Or(size, a, bb),
        LogicKind::XorOp => IrInstruction::Xor(size, a, bb),
    }
}

/// The constant-shift forms.
pub enum ShiftForm {
    Sll,
    Srl,
    Sra,
}

/// 32-bit immediate arithmetic (`ADDI`/`ADDIU`): add at word width, then
/// sign-extend the 32-bit result to the full register width.
pub open spec fn step_alu_imm_sext(
    s: TransV,
    b: int,
    rs: u8,
    rt: u8,
    imm: u16,
    cyc: u64,
) -> TransV {
    let (c1, f1, rs_v) = get_gpr_v(s.cache, s.func, b, rs as int);
    let f2 = push_op_v(
        f1,
        b,
        IrInstruction::Add(IrSize::S32, rs_v, IrValue::Const(sext16(imm))),
    );
    let result = push_op_val(f1);
    let f3 = push_op_v(f2, b, IrInstruction::Convert(IrSize::S32, IrSize::S64, result));
    let sign_extended = push_op_val(f2);
    TransV { cache: set_gpr_v(c1, rt as int, sign_extended), func: f3, cycles: cyc }
}

/// Zero-extended immediate logical forms (`ANDI`/`ORI`/`XORI`).
pub open spec fn step_logic_imm(
    s: TransV,
    b: int,
    rs: u8,
    rt: u8,
    imm: u16,
    kind: LogicKind,
    cyc: u64,
) -> TransV {
    let (c1, f1, rs_v) = get_gpr_v(s.cache, s.func, b, rs as int);
    let f2 = push_op_v(f1, b, logic_op(kind, IrSize::U64, rs_v, IrValue::Const(imm as u64)));
    let result = push_op_val(f1);
    TransV { cache: set_gpr_v(c1, rt as int, result), func: f2, cycles: cyc }
}

/// Register-register word arithmetic (`ADD`/`ADDU`/`SUB`/`SUBU`): word-width
/// operation, sign-extended result.
pub open spec fn step_alu_reg_sext(
    s: TransV,
    b: int,
    rs: u8,
    rt: u8,
    rd: u8,
    is_add: bool,
    cyc: u64,
) -> TransV {
    let (c1, f1, rs_v) = get_gpr_v(s.cache, s.func, b, rs as int);
    let (c2, f2, rt_v) = get_gpr_v(c1, f1, b, rt as int);
    let f3 = push_op_v(f2, b, if is_add {
        IrInstruction::Add(IrSize::S32, rs_v, rt_v)
    } else {
        IrInstruction::Sub(IrSize::S32, rs_v, rt_v)
    });
    let result = push_op_val(f2);
    let f4 = push_op_v(f3, b, IrInstruction::Convert(IrSize::S32, IrSize::S64, result));
    let sign_extended = push_op_val(f3);
    TransV { cache: set_gpr_v(c2, rd as int, sign_extended), func: f4, cycles: cyc }
}

/// Register-register 64-bit logical forms (`AND`/`OR`/`XOR`).
pub open spec fn step_logic_reg(
    s: TransV,
    b: int,
    rs: u8,
    rt: u8,
    rd: u8,
    kind: LogicKind,
    cyc: u64,
) -> TransV {
    let (c1, f1, rs_v) = get_gpr_v(s.cache, s.func, b, rs as int);
    let (c2, f2, rt_v) = get_gpr_v(c1, f1, b, rt as int);
    let f3 = push_op_v(f2, b, logic_op(kind, IrSize::U64, rs_v, rt_v));
    let result = push_op_val(f2);
    TransV { cache: set_gpr_v(c2, rd as int, result), func: f3, cycles: cyc }
}

/// `SLT`/`SLTU`: a 64-bit comparison whose boolean result lands in `rd`.
pub open spec fn step_set_less(
    s: TransV,
    b: int,
    rs: u8,
    rt: u8,
    rd: u8,
    signed: bool,
    cyc: u64,
) -> TransV {
    let (c1, f1, rs_v) = get_gpr_v(s.cache, s.func, b, rs as int);
    let (c2, f2, rt_v) = get_gpr_v(c1, f1, b, rt as int);
    let f3 = push_op_v(f2, b, IrInstruction::Compare(if signed {
        CompareKind::LessThanSigned
    } else {
        CompareKind::LessThanUnsigned
    }, rs_v, rt_v));
    let result = push_op_val(f2);
    TransV { cache: set_gpr_v(c2, rd as int, result), func: f3, cycles: cyc }
}

/// Constant shifts: `SLL` shifts the word left; `SRL` shifts the word right
/// logically; `SRA` shifts the whole 64-bit value right and sign-extends the
/// low word.  All write the sign-extended 32-bit result.
pub open spec fn step_shift_const(
    s: TransV,
    b: int,
    rt: u8,
    rd: u8,
    sa: u8,
    form: ShiftForm,
    cyc: u64,
) -> TransV {
    let (c1, f1, input) = get_gpr_v(s.cache, s.func, b, rt as int);
    let op = match form {
        ShiftForm::Sll => IrInstruction::ShiftLeft(IrSize::S32, input, IrValue::Const(sa as u64)),
        ShiftForm::Srl => IrInstruction::ShiftRight(IrSize::U32, input, IrValue::Const(sa as u64)),
        ShiftForm::Sra => IrInstruction::ShiftRight(IrSize::U64, input, IrValue::Const(sa as u64)),
    };
    let f2 = push_op_v(f1, b, op);
    let result = push_op_val(f1);
    let f3 = push_op_v(f2, b, IrInstruction::Convert(IrSize::S32, IrSize::S64, result));
    let sign_extended = push_op_val(f2);
    TransV { cache: set_gpr_v(c1, rd as int, sign_extended), func: f3, cycles: cyc }
}

/// Variable shifts (`SLLV`/`SRLV`): the amount is `rs` masked to five bits.
pub open spec fn step_shift_var(
    s: TransV,
    b: int,
    rs: u8,
    rt: u8,
    rd: u8,
    left: bool,
    cyc: u64,
) -> TransV {
    let (c1, f1, rs_v) = get_gpr_v(s.cache, s.func, b, rs as int);
    let f2 = push_op_v(f1, b, IrInstruction::And(IrSize::U32, rs_v, IrValue::Const(0x1F)));
    let amount = push_op_val(f1);
    let (c2, f3, rt_v) = get_gpr_v(c1, f2, b, rt as int);
    let f4 = push_op_v(f3, b, if left {
        IrInstruction::ShiftLeft(IrSize::U32, rt_v, amount)
    } else {
        IrInstruction::ShiftRight(IrSize::U32, rt_v, amount)
    });
    let result = push_op_val(f3);
    let f5 = push_op_v(f4, b, IrInstruction::Convert(IrSize::S32, IrSize::S64, result));
    let sign_extended = push_op_val(f4);
    TransV { cache: set_gpr_v(c2, rd as int, sign_extended), func: f5, cycles: cyc }
}

/// A `u32` view of an instruction's sequence number.
pub open spec fn trunc_index(i: int) -> u32 {
    (i % 0x1_0000_0000) as u32
}

/// Lower one decoded instruction into the function's current (last) block.
/// Returns the block in which lowering continues, or `None` — reporting an
/// unimplemented-opcode condition — exactly when the instruction has no
/// lowering rule.
#[verifier::rlimit(100)]
#[verifier::spinoff_prover]
pub fn step(
    func: &mut IrFunction,
    cache: &mut GuestRegisterManager,
    cur: usize,
    cycles: u64,
    p: &ParsedMipsInstruction,
    index: u32,
) -> (r: Option<usize>)
    requires
        wf_cache(old(cache)@),
        old(func)@.blocks.len() >= 1,
        cur as int == old(func)@.blocks.len() - 1,
        old(func)@.blocks[cur as int].term is None,
    ensures
        r is Some <==> supported_instr(*p),
        match r {
            Some(new_cur) => {
                &&& step_v(TransV { cache: old(cache)@, func: old(func)@, cycles }, *p, index)
                    == Some(
                    TransV {
                        cache: final(cache)@,
                        func: final(func)@,
                        cycles: vstd::wrapping::u64_specs::wrapping_add(cycles, 1),
                    },
                )
                &&& new_cur as int == final(func)@.blocks.len() - 1
                &&& final(func)@.blocks[new_cur as int].term is None
                &&& wf_cache(final(cache)@)
                &&& (wf_building(old(func)@) ==> wf_building(final(func)@))
            },
            None => step_v(
                TransV { cache: old(cache)@, func: old(func)@, cycles },
                *p,
                index,
            ) is None,
        },
{
    let w = p.instr;
    match p.op {
        MipsOpcode::NOP => Some(cur),
        MipsOpcode::CACHE => Some(cur),
        MipsOpcode::TLBWI => Some(cur),
        MipsOpcode::LUI => {
            let c: u64 = (w.imm() as u64) * 0x10000;
            cache.set_gpr(w.rt(), IrValue::Const(crate::bits::sign_extend32(c)));
            Some(cur)
        },
        MipsOpcode::ADDI => Some(step_alu_imm_sext_x(func, cache, cur, w.rs(), w.rt(), w.imm())),
        MipsOpcode::ADDIU => Some(step_alu_imm_sext_x(func, cache, cur, w.rs(), w.rt(), w.imm())),
        MipsOpcode::DADDI => {
            let rs_v = cache.get_gpr(func, cur, w.rs());
            let result = func.push_op(
                cur,
                IrInstruction::Add(IrSize::S64, rs_v, IrValue::Const(sign_extend16(w.imm()))),
            );
            cache.set_gpr(w.rt(), result);
            Some(cur)
        },
        MipsOpcode::ANDI => Some(
            step_logic_imm_x(func, cache, cur, w.rs(), w.rt(), w.imm(), LogicKind::AndOp),
        ),
        MipsOpcode::ORI => Some(
            step_logic_imm_x(func, cache, cur, w.rs(), w.rt(), w.imm(), LogicKind::OrOp),
        ),
        MipsOpcode::XORI => Some(
            step_logic_imm_x(func, cache, cur, w.rs(), w.rt(), w.imm(), LogicKind::XorOp),
        ),
        MipsOpcode::SLTIU => {
            let rs_v = cache.get_gpr(func, cur, w.rs());
            let result = func.push_op(
                cur,
                IrInstruction::Compare(
                    CompareKind::LessThanUnsigned,
                    rs_v,
                    IrValue::Const(sign_extend16(w.imm())),
                ),
            );
            cache.set_gpr(w.rt(), result);
            Some(cur)
        },
        MipsOpcode::LBU => {
            let (paddr, b2) = get_paddr_for_loadstore(
                func,
                cache,
                cur,
                w.rs(),
                w.imm(),
                MemAccessKind::Load,
            );
            let value = func.push_op(b2, IrInstruction::CallReadByte(paddr));
            cache.set_gpr(w.rt(), value);
            Some(b2)
        },
        MipsOpcode::LW => {
            let (paddr, b2) = get_paddr_for_loadstore(
                func,
                cache,
                cur,
                w.rs(),
                w.imm(),
                MemAccessKind::Load,
            );
            let temp = func.push_op(b2, IrInstruction::CallReadWord(paddr));
            let value = func.push_op(b2, IrInstruction::Convert(IrSize::S32, IrSize::S64, temp));
            cache.set_gpr(w.rt(), value);
            Some(b2)
        },
        MipsOpcode::LWU => {
            let (paddr, b2) = get_paddr_for_loadstore(
                func,
                cache,
                cur,
                w.rs(),
                w.imm(),
                MemAccessKind::Load,
            );
            let value = func.push_op(b2, IrInstruction::CallReadWord(paddr));
            cache.set_gpr(w.rt(), value);
            Some(b2)
        },
        MipsOpcode::SB => {
            let (paddr, b2) = get_paddr_for_loadstore(
                func,
                cache,
                cur,
                w.rs(),
                w.imm(),
                MemAccessKind::Store,
            );
            let to_write = cache.get_gpr(func, b2, w.rt());
            func.push_op(b2, IrInstruction::CallWriteByte(paddr, to_write));
            Some(b2)
        },
        MipsOpcode::SW => {
            let (paddr, b2) = get_paddr_for_loadstore(
                func,
                cache,
                cur,
                w.rs(),
                w.imm(),
                MemAccessKind::Store,
            );
            let to_write = cache.get_gpr(func, b2, w.rt());
            func.push_op(b2, IrInstruction::CallWriteWord(paddr, to_write));
            Some(b2)
        },
        MipsOpcode::J => {
            let target = ((w.j_target() as u64) * 4) | (p.vaddr & 0xFFFF_FFFF_F000_0000);
            set_pc(func, cur, IrValue::Const(target));
            Some(cur)
        },
        MipsOpcode::JAL => {
            set_link_reg(cache, p.vaddr, 31);
            let target = ((w.j_target() as u64) * 4) | (p.vaddr & 0xFFFF_FFFF_F000_0000);
            set_pc(func, cur, IrValue::Const(target));
            Some(cur)
        },
        MipsOpcode::JR => {
            let target = cache.get_gpr(func, cur, w.rs());
            set_pc(func, cur, target);
            Some(cur)
        },
        MipsOpcode::JALR => {
            let target = cache.get_gpr(func, cur, w.rs());
            set_pc(func, cur, target);
            set_link_reg(cache, p.vaddr, w.rd());
            Some(cur)
        },
        MipsOpcode::BRANCH(info) => Some(
            lower_branch(func, cache, cur, info, w.rs(), w.rt(), w.imm(), p.vaddr, cycles),
        ),
        MipsOpcode::SLL => Some(
            step_shift_const_x(func, cache, cur, w.rt(), w.rd(), w.sa(), ShiftForm::Sll),
        ),
        MipsOpcode::SRL => Some(
            step_shift_const_x(func, cache, cur, w.rt(), w.rd(), w.sa(), ShiftForm::Srl),
        ),
        MipsOpcode::SRA => Some(
            step_shift_const_x(func, cache, cur, w.rt(), w.rd(), w.sa(), ShiftForm::Sra),
        ),
        MipsOpcode::SLLV => Some(step_shift_var_x(func, cache, cur, w.rs(), w.rt(), w.rd(), true)),
        MipsOpcode::SRLV => Some(step_shift_var_x(func, cache, cur, w.rs(), w.rt(), w.rd(), false)),
        MipsOpcode::MFHI => {
            let hi = cache.get_hi(func, cur);
            cache.set_gpr(w.rd(), hi);
            Some(cur)
        },
        MipsOpcode::MFLO => {
            let lo = cache.get_lo(func, cur);
            cache.set_gpr(w.rd(), lo);
            Some(cur)
        },
        MipsOpcode::MULT => {
            lower_mult(func, cache, cur, w.rs(), w.rt(), true);
            Some(cur)
        },
        MipsOpcode::MULTU => {
            lower_mult(func, cache, cur, w.rs(), w.rt(), false);
            Some(cur)
        },
        MipsOpcode::DIV => Some(lower_div(func, cache, cur, w.rs(), w.rt())),
        MipsOpcode::ADD => Some(step_alu_reg_sext_x(func, cache, cur, w.rs(), w.rt(), w.rd(), true)),
        MipsOpcode::ADDU => Some(
            step_alu_reg_sext_x(func, cache, cur, w.rs(), w.rt(), w.rd(), true),
        ),
        MipsOpcode::SUB => Some(
            step_alu_reg_sext_x(func, cache, cur, w.rs(), w.rt(), w.rd(), false),
        ),
        MipsOpcode::SUBU => Some(
            step_alu_reg_sext_x(func, cache, cur, w.rs(), w.rt(), w.rd(), false),
        ),
        MipsOpcode::AND => Some(
            step_logic_reg_x(func, cache, cur, w.rs(), w.rt(), w.rd(), LogicKind::AndOp),
        ),
        MipsOpcode::OR => Some(
            step_logic_reg_x(func, cache, cur, w.rs(), w.rt(), w.rd(), LogicKind::OrOp),
        ),
        MipsOpcode::XOR => Some(
            step_logic_reg_x(func, cache, cur, w.rs(), w.rt(), w.rd(), LogicKind::XorOp),
        ),
        MipsOpcode::SLT => Some(step_set_less_x(func, cache, cur, w.rs(), w.rt(), w.rd(), true)),
        MipsOpcode::SLTU => Some(step_set_less_x(func, cache, cur, w.rs(), w.rt(), w.rd(), false)),
        MipsOpcode::MFC0 => {
            if crate::cp0::lower_mfc0(func, cache, cur, w.rd(), w.rt()) {
                Some(cur)
            } else {
                None
            }
        },
        MipsOpcode::MTC0 => {
            if crate::cp0::lower_mtc0(func, cache, cur, w.rd(), w.rt(), index) {
                Some(cur)
            } else {
                None
            }
        },
        MipsOpcode::CFC1 => {
            if crate::cp0::lower_cfc1(func, cache, cur, w.rd(), w.rt()) {
                Some(cur)
            } else {
                None
            }
        },
        MipsOpcode::CTC1 => {
            if crate::cp0::lower_ctc1(func, cache, cur, w.rd(), w.rt()) {
                Some(cur)
            } else {
                None
            }
        },
        _ => None,
    }
}

/// Executable 32-bit immediate arithmetic; returns the (unchanged) current
/// block.
fn step_alu_imm_sext_x(
    func: &mut IrFunction,
    cache: &mut GuestRegisterManager,
    cur: usize,
    rs: u8,
    rt: u8,
    imm: u16,
) -> (r: usize)
    requires
        rs < 32,
        rt < 32,
        old(cache)@.gprs.len() == 32,
        cur < old(func)@.blocks.len(),
        old(func)@.blocks[cur as int].term is None,
    ensures
        ({
            let sv = step_alu_imm_sext(
                TransV { cache: old(cache)@, func: old(func)@, cycles: 0 },
                cur as int,
                rs,
                rt,
                imm,
                0,
            );
            final(cache)@ == sv.cache && final(func)@ == sv.func
        }),
        r == cur,
        crate::ir::all_blocks_wf(old(func)@) ==> crate::ir::all_blocks_wf(final(func)@),
        final(func)@.blocks.len() == old(func)@.blocks.len(),
        forall|i: int|
            0 <= i < old(func)@.blocks.len() ==> final(func)@.blocks[i].term == old(
                func,
            )@.blocks[i].term,
        final(cache)@.gprs.len() == 32,
{
    let rs_v = cache.get_gpr(func, cur, rs);
    let result = func.push_op(
        cur,
        IrInstruction::Add(IrSize::S32, rs_v, IrValue::Const(sign_extend16(imm))),
    );
    let sign_extended = func.push_op(cur, IrInstruction::Convert(IrSize::S32, IrSize::S64, result));
    cache.set_gpr(rt, sign_extended);
    cur
}

/// Executable zero-extended immediate logical forms.
fn step_logic_imm_x(
    func: &mut IrFunction,
    cache: &mut GuestRegisterManager,
    cur: usize,
    rs: u8,
    rt: u8,
    imm: u16,
    kind: LogicKind,
) -> (r: usize)
    requires
        rs < 32,
        rt < 32,
        old(cache)@.gprs.len() == 32,
        cur < old(func)@.blocks.len(),
        old(func)@.blocks[cur as int].term is None,
    ensures
        ({
            let sv = step_logic_imm(
                TransV { cache: old(cache)@, func: old(func)@, cycles: 0 },
                cur as int,
                rs,
                rt,
                imm,
                kind,
                0,
            );
            final(cache)@ == sv.cache && final(func)@ == sv.func
        }),
        r == cur,
        crate::ir::all_blocks_wf(old(func)@) ==> crate::ir::all_blocks_wf(final(func)@),
        final(func)@.blocks.len() == old(func)@.blocks.len(),
        forall|i: int|
            0 <= i < old(func)@.blocks.len() ==> final(func)@.blocks[i].term == old(
                func,
            )@.blocks[i].term,
        final(cache)@.gprs.len() == 32,
{
    let rs_v = cache.get_gpr(func, cur, rs);
    let op = match kind {
        LogicKind::AndOp => IrInstruction::And(IrSize::U64, rs_v, IrValue::Const(imm as u64)),
        LogicKind::OrOp => IrInstruction::Or(IrSize::U64, rs_v, IrValue::Const(imm as u64)),
        LogicKind::XorOp => IrInstruction::Xor(IrSize::U64, rs_v, IrValue::Const(imm as u64)),
    };
    let result = func.push_op(cur, op);
    cache.set_gpr(rt, result);
    cur
}

/// Executable register-register word arithmetic.
fn step_alu_reg_sext_x(
    func: &mut IrFunction,
    cache: &mut GuestRegisterManager,
    cur: usize,
    rs: u8,
    rt: u8,
    rd: u8,
    is_add: bool,
) -> (r: usize)
    requires
        rs < 32,
        rt < 32,
        rd < 32,
        old(cache)@.gprs.len() == 32,
        cur < old(func)@.blocks.len(),
        old(func)@.blocks[cur as int].term is None,
    ensures
        ({
            let sv = step_alu_reg_sext(
                TransV { cache: old(cache)@, func: old(func)@, cycles: 0 },
                cur as int,
                rs,
                rt,
                rd,
                is_add,
                0,
            );
            final(cache)@ == sv.cache && final(func)@ == sv.func
        }),
        r == cur,
        crate::ir::all_blocks_wf(old(func)@) ==> crate::ir::all_blocks_wf(final(func)@),
        final(func)@.blocks.len() == old(func)@.blocks.len(),
        forall|i: int|
            0 <= i < old(func)@.blocks.len() ==> final(func)@.blocks[i].term == old(
                func,
            )@.blocks[i].term,
        final(cache)@.gprs.len() == 32,
{
    let rs_v = cache.get_gpr(func, cur, rs);
    let rt_v = cache.get_gpr(func, cur, rt);
    let op = if is_add {
        IrInstruction::Add(IrSize::S32, rs_v, rt_v)
    } else {
        IrInstruction::Sub(IrSize::S32, rs_v, rt_v)
    };
    let result = func.push_op(cur, op);
    let sign_extended = func.push_op(cur, IrInstruction::Convert(IrSize::S32, IrSize::S64, result));
    cache.set_gpr(rd, sign_extended);
    cur
}

/// Executable register-register 64-bit logical forms.
fn step_logic_reg_x(
    func: &mut IrFunction,
    cache: &mut GuestRegisterManager,
    cur: usize,
    rs: u8,
    rt: u8,
    rd: u8,
    kind: LogicKind,
) -> (r: usize)
    requires
        rs < 32,
        rt < 32,
        rd < 32,
        old(cache)@.gprs.len() == 32,
        cur < old(func)@.blocks.len(),
        old(func)@.blocks[cur as int].term is None,
    ensures
        ({
            let sv = step_logic_reg(
                TransV { cache: old(cache)@, func: old(func)@, cycles: 0 },
                cur as int,
                rs,
                rt,
                rd,
                kind,
                0,
            );
            final(cache)@ == sv.cache && final(func)@ == sv.func
        }),
        r == cur,
        crate::ir::all_blocks_wf(old(func)@) ==> crate::ir::all_blocks_wf(final(func)@),
        final(func)@.blocks.len() == old(func)@.blocks.len(),
        forall|i: int|
            0 <= i < old(func)@.blocks.len() ==> final(func)@.blocks[i].term == old(
                func,
            )@.blocks[i].term,
        final(cache)@.gprs.len() == 32,
{
    let rs_v = cache.get_gpr(func, cur, rs);
    let rt_v = cache.get_gpr(func, cur, rt);
    let op = match kind {
        LogicKind::AndOp => IrInstruction::And(IrSize::U64, rs_v, rt_v),
        LogicKind::OrOp => IrInstruction::Or(IrSize::U64, rs_v, rt_v),
        LogicKind::XorOp => IrInstruction::Xor(IrSize::U64, rs_v, rt_v),
    };
    let result = func.push_op(cur, op);
    cache.set_gpr(rd, result);
    cur
}

/// Executable `SLT`/`SLTU`.
fn step_set_less_x(
    func: &mut IrFunction,
    cache: &mut GuestRegisterManager,
    cur: usize,
    rs: u8,
    rt: u8,
    rd: u8,
    signed: bool,
) -> (r: usize)
    requires
        rs < 32,
        rt < 32,
        rd < 32,
        old(cache)@.gprs.len() == 32,
        cur < old(func)@.blocks.len(),
        old(func)@.blocks[cur as int].term is None,
    ensures
        ({
            let sv = step_set_less(
                TransV { cache: old(cache)@, func: old(func)@, cycles: 0 },
                cur as int,
                rs,
                rt,
                rd,
                signed,
                0,
            );
            final(cache)@ == sv.cache && final(func)@ == sv.func
        }),
        r == cur,
        crate::ir::all_blocks_wf(old(func)@) ==> crate::ir::all_blocks_wf(final(func)@),
        final(func)@.blocks.len() == old(func)@.blocks.len(),
        forall|i: int|
            0 <= i < old(func)@.blocks.len() ==> final(func)@.blocks[i].term == old(
                func,
            )@.blocks[i].term,
        final(cache)@.gprs.len() == 32,
{
    let rs_v = cache.get_gpr(func, cur, rs);
    let rt_v = cache.get_gpr(func, cur, rt);
    let kind = if signed {
        CompareKind::LessThanSigned
    } else {
        CompareKind::LessThanUnsigned
    };
    let result = func.push_op(cur, IrInstruction::Compare(kind, rs_v, rt_v));
    cache.set_gpr(rd, result);
    cur
}

/// Executable constant shifts.
fn step_shift_const_x(
    func: &mut IrFunction,
    cache: &mut GuestRegisterManager,
    cur: usize,
    rt: u8,
    rd: u8,
    sa: u8,
    form: ShiftForm,
) -> (r: usize)
    requires
        rt < 32,
        rd < 32,
        old(cache)@.gprs.len() == 32,
        cur < old(func)@.blocks.len(),
        old(func)@.blocks[cur as int].term is None,
    ensures
        ({
            let sv = step_shift_const(
                TransV { cache: old(cache)@, func: old(func)@, cycles: 0 },
                cur as int,
                rt,
                rd,
                sa,
                form,
                0,
            );
            final(cache)@ == sv.cache && final(func)@ == sv.func
        }),
        r == cur,
        crate::ir::all_blocks_wf(old(func)@) ==> crate::ir::all_blocks_wf(final(func)@),
        final(func)@.blocks.len() == old(func)@.blocks.len(),
        forall|i: int|
            0 <= i < old(func)@.blocks.len() ==> final(func)@.blocks[i].term == old(
                func,
            )@.blocks[i].term,
        final(cache)@.gprs.len() == 32,
{
    let input = cache.get_gpr(func, cur, rt);
    let op = match form {
        ShiftForm::Sll => IrInstruction::ShiftLeft(IrSize::S32, input, IrValue::Const(sa as u64)),
        ShiftForm::Srl => IrInstruction::ShiftRight(IrSize::U32, input, IrValue::Const(sa as u64)),
        ShiftForm::Sra => IrInstruction::ShiftRight(IrSize::U64, input, IrValue::Const(sa as u64)),
    };
    let result = func.push_op(cur, op);
    let sign_extended = func.push_op(cur, IrInstruction::Convert(IrSize::S32, IrSize::S64, result));
    cache.set_gpr(rd, sign_extended);
    cur
}

/// Executable variable shifts.
fn step_shift_var_x(
    func: &mut IrFunction,
    cache: &mut GuestRegisterManager,
    cur: usize,
    rs: u8,
    rt: u8,
    rd: u8,
    left: bool,
) -> (r: usize)
    requires
        rs < 32,
        rt < 32,
        rd < 32,
        old(cache)@.gprs.len() == 32,
        cur < old(func)@.blocks.len(),
        old(func)@.blocks[cur as int].term is None,
    ensures
        ({
            let sv = step_shift_var(
                TransV { cache: old(cache)@, func: old(func)@, cycles: 0 },
                cur as int,
                rs,
                rt,
                rd,
                left,
                0,
            );
            final(cache)@ == sv.cache && final(func)@ == sv.func
        }),
        r == cur,
        crate::ir::all_blocks_wf(old(func)@) ==> crate::ir::all_blocks_wf(final(func)@),
        final(func)@.blocks.len() == old(func)@.blocks.len(),
        forall|i: int|
            0 <= i < old(func)@.blocks.len() ==> final(func)@.blocks[i].term == old(
                func,
            )@.blocks[i].term,
        final(cache)@.gprs.len() == 32,
{
    let rs_v = cache.get_gpr(func, cur, rs);
    let amount = func.push_op(cur, IrInstruction::And(IrSize::U32, rs_v, IrValue::Const(0x1F)));
    let rt_v = cache.get_gpr(func, cur, rt);
    let op = if left {
        IrInstruction::ShiftLeft(IrSize::U32, rt_v, amount)
    } else {
        IrInstruction::ShiftRight(IrSize::U32, rt_v, amount)
    };
    let result = func.push_op(cur, op);
    let sign_extended = func.push_op(cur, IrInstruction::Convert(IrSize::S32, IrSize::S64, result));
    cache.set_gpr(rd, sign_extended);
    cur
}

/// The translator's starting state: an empty function with just the open
/// entry block, a fresh cache, and no cycles accumulated.
pub open spec fn init_v() -> TransV {
    TransV {
        cache: fresh_cache(),
        func: FuncV { arena: Seq::empty(), blocks: seq![empty_block_v()] },
        cycles: 0,
    }
}

/// Lowering the instruction run from position `i` onward, or `None` as soon
/// as an instruction has no lowering rule.
pub open spec fn translate_from_v(list: Seq<ParsedMipsInstruction>, i: int, s: TransV) -> Option<
    TransV,
>
    decreases list.len() - i,
{
    if i < 0 || i >= list.len() {
        Some(s)
    } else {
        match step_v(s, list[i], trunc_index(i)) {
            Some(s2) => translate_from_v(list, i + 1, s2),
            None => None,
        }
    }
}

/// Completing a translated run: flush the register cache into the current
/// block and seal it with the return terminator carrying the cycle count.
pub open spec fn finalize_v(s: TransV) -> FuncV {
    let b = s.func.blocks.len() - 1;
    let f1 = push_ops_v(s.func, b, flush_ops(s.cache));
    set_term_v(f1, b, Terminator::Ret(Some(IrValue::Const(s.cycles))))
}

/// What `to_ir` produces for a decoded instruction run: the finalized
/// function, or `None` where some instruction has no lowering rule.
pub open spec fn translate_v(list: Seq<ParsedMipsInstruction>) -> Option<FuncV> {
    match translate_from_v(list, 0, init_v()) {
        Some(s) => Some(finalize_v(s)),
        None => None,
    }
}

/// Translate a run of decoded guest instructions into a completed IR
/// function.
///
/// On success the result is exactly [`translate_v`] of the input — the
/// instructions lowered in program order from the initial state, the cache
/// flushed once at block exit, and the return terminator carrying the final
/// cycle count — and the function is well formed.  Translation fails, with
/// the position and raw word of the offending instruction, exactly when the
/// run contains an instruction without a lowering rule; everything before
/// the reported position is supported.
#[verifier::rlimit(100)]
#[verifier::spinoff_prover]
pub fn to_ir(parsed: Vec<ParsedMipsInstruction>) -> (r: Result<IrFunction, TranslateError>)
    ensures
        match r {
            Ok(f) => {
                &&& translate_v(parsed@) == Some(f@)
                &&& crate::ir::wf_func(f@)
                &&& forall|j: int| 0 <= j < parsed@.len() ==> supported_instr(parsed@[j])
            },
            Err(e) => {
                &&& translate_v(parsed@) is None
                &&& match e {
                    TranslateError::UnimplementedOpcode { index, word } => {
                        &&& index < parsed@.len()
                        &&& word == parsed@[index as int].instr.0
                        &&& !supported_instr(parsed@[index as int])
                        &&& forall|j: int| 0 <= j < index ==> supported_instr(parsed@[j])
                    },
                }
            },
        },
{
    let mut func = IrFunction::new();
    let mut cur: usize = func.new_block();
    let mut cache = GuestRegisterManager::new();
    let mut cycles: u64 = 0;
    proof {
        assert(func@.blocks =~= init_v().func.blocks);
        assert(func@.arena =~= init_v().func.arena);
        assert(func@ == init_v().func);
        assert(crate::ir::wf_block(func@, 0));
        assert(wf_building(func@));
    }
    let n = parsed.len();
    let mut i: usize = 0;
    while i < n
        invariant
            n == parsed@.len(),
            0 <= i <= n,
            wf_cache(cache@),
            wf_building(func@),
            cur as int == func@.blocks.len() - 1,
            func@.blocks[cur as int].term is None,
            translate_from_v(
                parsed@,
                i as int,
                TransV { cache: cache@, func: func@, cycles },
            ) == translate_from_v(parsed@, 0, init_v()),
            forall|j: int| 0 <= j < i ==> supported_instr(parsed@[j]),
        decreases n - i,
    {
        let p = parsed[i];
        let index: u32 = ((i as u64) % 0x1_0000_0000) as u32;
        let ghost pre = TransV { cache: cache@, func: func@, cycles };
        match step(&mut func, &mut cache, cur, cycles, &p, index) {
            Some(new_cur) => {
                cur = new_cur;
                cycles = cycles.wrapping_add(1);
                proof {
                    assert(step_v(pre, p, trunc_index(i as int)) == Some(
                        TransV { cache: cache@, func: func@, cycles },
                    ));
                }
            },
            None => {
                proof {
                    assert(translate_from_v(parsed@, i as int, pre) is None);
                }
                return Err(TranslateError::UnimplementedOpcode { index: i, word: p.instr.0 });
            },
        }
        i += 1;
    }
    let ghost s_end = TransV { cache: cache@, func: func@, cycles };
    let ghost f_pre_flush = func@;
    let ghost c_pre_flush = cache@;
    cache.flush_all(&mut func, cur);
    proof {
        crate::regcache::lemma_push_ops_v_shape(f_pre_flush, cur as int, flush_ops(c_pre_flush));
    }
    func.set_term(cur, Terminator::Ret(Some(IrValue::Const(cycles))));
    proof {
        assert(translate_from_v(parsed@, n as int, s_end) == Some(s_end));
        assert(func@ == finalize_v(s_end));
        assert(crate::ir::wf_func(func@));
    }
    Ok(func)
}

/// Running a pc-commit triple — the three operations that `set_pc_v`
/// appends, at arena indices `n`, `n+1`, `n+2` — writes the target into `pc`
/// and the following address into `next_pc`, and changes nothing else: no
/// other slot, no notification counter.
pub proof fn lemma_pc_commit_ops(ff: FuncV, n: int, value: IrValue, m: MachineV, v: u64)
    requires
        0 <= n,
        n + 2 < ff.arena.len(),
        ff.arena.len() <= usize::MAX,
        ff.arena[n] == IrInstruction::SetPtr(PC_OFFSET, IrSize::U64, value),
        ff.arena[n + 1] == IrInstruction::Add(IrSize::U64, value, IrValue::Const(4)),
        ff.arena[n + 2] == IrInstruction::SetPtr(
            NEXT_PC_OFFSET,
            IrSize::U64,
            IrValue::Op((n + 1) as usize),
        ),
        m.env.len() == ff.arena.len(),
        m.mem.len() == crate::layout::STATE_SLOTS,
        eval_value(m.env, value) == Some(v),
        match value {
            IrValue::Op(k) => k < n,
            IrValue::Const(_) => true,
        },
    ensures
        ({
            let ops = seq![n as usize, (n + 1) as usize, (n + 2) as usize];
            match eval_ops(ff, ops, m) {
                Some(m2) => {
                    &&& m2.mem == m.mem.update(PC_OFFSET as int / 8, v).update(
                        NEXT_PC_OFFSET as int / 8,
                        vstd::wrapping::u64_specs::wrapping_add(v, 4),
                    )
                    &&& m2.resched_calls == m.resched_calls
                    &&& m2.status_calls == m.status_calls
                },
                None => false,
            }
        }),
{
    let ops = seq![n as usize, (n + 1) as usize, (n + 2) as usize];
    let m1 = MachineV {
        mem: m.mem.update(PC_OFFSET as int / 8, v),
        env: m.env,
        resched_calls: m.resched_calls,
        status_calls: m.status_calls,
    };
    assert(eval_op(n, ff.arena[n], m) == Some(m1));
    let next = vstd::wrapping::u64_specs::wrapping_add(v, 4);
    let m2 = set_result(m1, n + 1, next);
    assert(eval_value(m1.env, value) == Some(v));
    assert(eval_op(n + 1, ff.arena[n + 1], m1) == Some(m2));
    assert(eval_value(m2.env, IrValue::Op((n + 1) as usize)) == Some(next));
    let m3 = MachineV {
        mem: m2.mem.update(NEXT_PC_OFFSET as int / 8, next),
        env: m2.env,
        resched_calls: m2.resched_calls,
        status_calls: m2.status_calls,
    };
    assert(eval_op(n + 2, ff.arena[n + 2], m2) == Some(m3));
    let ops1 = seq![(n + 1) as usize, (n + 2) as usize];
    let ops2 = seq![(n + 2) as usize];
    assert(ops.skip(1) =~= ops1);
    assert(ops1.skip(1) =~= ops2);
    assert(ops2.skip(1) =~= Seq::<usize>::empty());
    assert(eval_ops(ff, ops2.skip(1), m3) == Some(m3));
    assert(eval_ops(ff, ops2, m2) == Some(m3));
    assert(eval_ops(ff, ops1, m1) == Some(m3));
    assert(eval_ops(ff, ops, m) == Some(m3));
    assert(m3.mem =~= m.mem.update(PC_OFFSET as int / 8, v).update(NEXT_PC_OFFSET as int / 8, next));
}

/// Delay-slot law: for a non-likely branch, both successor blocks are sealed
/// onto the same continuation block — the function's new last block, where
/// the instruction after the branch (the delay slot) is lowered next — so
/// that instruction stands on the taken and the not-taken path alike, ahead
/// of either path's control transfer taking effect at block exit.  Each
/// successor holds exactly its own full three-operation control-transfer
/// commit (see [`lemma_pc_commit_ops`] for what running one does): the two
/// commits stand in distinct blocks and are never merged.
pub proof fn lemma_delay_slot_on_both_paths(
    c: CacheV,
    f: FuncV,
    info: BranchInfo,
    rs: u8,
    rt: u8,
    imm: u16,
    vaddr: u64,
    cycles: u64,
)
    requires
        !info.likely,
        f.blocks.len() > 0,
        f.arena.len() + 16 <= usize::MAX,
    ensures
        ({
            let b = f.blocks.len() - 1;
            let (c1, f1) = branch_v(c, f, b, info, rs, rt, imm, vaddr, cycles);
            let taken = f.blocks.len() as int;
            let not_taken = taken + 1;
            let cont = taken + 2;
            let k = f1.arena.len() - 6;
            &&& f1.blocks.len() == f.blocks.len() + 3
            &&& f1.blocks[taken].term == Some(Terminator::Jump(cont as usize))
            &&& f1.blocks[not_taken].term == Some(Terminator::Jump(cont as usize))
            &&& cont == f1.blocks.len() - 1
            &&& f1.blocks[cont].term is None
            &&& f1.blocks[cont].ops.len() == 0
            &&& f1.blocks[taken].ops == seq![k as usize, (k + 1) as usize, (k + 2) as usize]
            &&& f1.blocks[not_taken].ops == seq![
                (k + 3) as usize,
                (k + 4) as usize,
                (k + 5) as usize,
            ]
            &&& f1.arena[k] == IrInstruction::SetPtr(
                PC_OFFSET,
                IrSize::U64,
                IrValue::Const(branch_taken_pc(vaddr, imm)),
            )
            &&& f1.arena[k + 1] == IrInstruction::Add(
                IrSize::U64,
                IrValue::Const(branch_taken_pc(vaddr, imm)),
                IrValue::Const(4),
            )
            &&& f1.arena[k + 2] == IrInstruction::SetPtr(
                NEXT_PC_OFFSET,
                IrSize::U64,
                IrValue::Op((k + 1) as usize),
            )
            &&& f1.arena[k + 3] == IrInstruction::SetPtr(
                PC_OFFSET,
                IrSize::U64,
                IrValue::Const(branch_not_taken_pc(vaddr)),
            )
            &&& f1.arena[k + 4] == IrInstruction::Add(
                IrSize::U64,
                IrValue::Const(branch_not_taken_pc(vaddr)),
                IrValue::Const(4),
            )
            &&& f1.arena[k + 5] == IrInstruction::SetPtr(
                NEXT_PC_OFFSET,
                IrSize::U64,
                IrValue::Op((k + 4) as usize),
            )
        }),
{
    let b = f.blocks.len() - 1;
    let rt_reg = if branch_uses_zero(info.cond) {
        0u8
    } else {
        rt
    };
    let c0 = if info.link {
        set_link_reg_v(c, vaddr, 31)
    } else {
        c
    };
    let (c1g, f1g, rs_v) = get_gpr_v(c0, f, b, rs as int);
    let (c2g, f2g, rt_v) = get_gpr_v(c1g, f1g, b, rt_reg as int);
    let f3 = push_op_v(
        f2g,
        b,
        IrInstruction::Compare(branch_compare_kind(info.cond), rs_v, rt_v),
    );
    let taken = f.blocks.len() as int;
    let f4 = new_block_v(f3);
    let f5 = new_block_v(f4);
    let f6 = set_pc_v(f5, taken, IrValue::Const(branch_taken_pc(vaddr, imm)));
    let f7 = set_pc_v(f6, taken + 1, IrValue::Const(branch_not_taken_pc(vaddr)));
    assert(f6.blocks[taken].ops =~= seq![
        f5.arena.len() as usize,
        (f5.arena.len() + 1) as usize,
        (f5.arena.len() + 2) as usize,
    ]);
    assert(f7.blocks[taken + 1].ops =~= seq![
        f6.arena.len() as usize,
        (f6.arena.len() + 1) as usize,
        (f6.arena.len() + 2) as usize,
    ]);
}

/// Likely-branch skip law: for a likely branch, the register cache is
/// flushed before the split, and the not-taken successor is sealed with an
/// immediate return whose value is the cycle count through the branch
/// itself.  A sealed block accepts no further operation (the builder requires
/// an unsealed block), so no instruction lowered after the branch can reach
/// that path; the delay slot lands only in the continuation, which the taken
/// successor alone reaches.
pub proof fn lemma_likely_branch_skips_delay_slot(
    c: CacheV,
    f: FuncV,
    info: BranchInfo,
    rs: u8,
    rt: u8,
    imm: u16,
    vaddr: u64,
    cycles: u64,
)
    requires
        info.likely,
        cycles < 0xFFFF_FFFF_FFFF_FFFF,
        f.blocks.len() > 0,
    ensures
        ({
            let b = f.blocks.len() - 1;
            let (c1, f1) = branch_v(c, f, b, info, rs, rt, imm, vaddr, cycles);
            let taken = f.blocks.len() as int;
            let not_taken = taken + 1;
            let cont = taken + 2;
            &&& f1.blocks.len() == f.blocks.len() + 3
            &&& f1.blocks[not_taken].term == Some(
                Terminator::Ret(Some(IrValue::Const((cycles + 1) as u64))),
            )
            &&& f1.blocks[not_taken].ops.len() == 3
            &&& f1.blocks[taken].term == Some(Terminator::Jump(cont as usize))
            &&& f1.blocks[cont].term is None
            &&& f1.blocks[cont].ops.len() == 0
            &&& c1 == fresh_cache()
        }),
{
    let b = f.blocks.len() - 1;
    let rt_reg = if branch_uses_zero(info.cond) {
        0u8
    } else {
        rt
    };
    let c0 = if info.link {
        set_link_reg_v(c, vaddr, 31)
    } else {
        c
    };
    let (c1g, f1g, rs_v) = get_gpr_v(c0, f, b, rs as int);
    let (c2g, f2g, rt_v) = get_gpr_v(c1g, f1g, b, rt_reg as int);
    let f3 = push_op_v(
        f2g,
        b,
        IrInstruction::Compare(branch_compare_kind(info.cond), rs_v, rt_v),
    );
    let f4 = new_block_v(f3);
    let f5 = new_block_v(f4);
    let f6 = set_pc_v(f5, f.blocks.len() as int, IrValue::Const(branch_taken_pc(vaddr, imm)));
    let f7 = set_pc_v(
        f6,
        f.blocks.len() as int + 1,
        IrValue::Const(branch_not_taken_pc(vaddr)),
    );
    assert(f7.blocks[f.blocks.len() as int + 1].ops =~= seq![
        f6.arena.len() as usize,
        (f6.arena.len() + 1) as usize,
        (f6.arena.len() + 2) as usize,
    ]);
    crate::regcache::lemma_push_ops_v_shape(f7, b, flush_ops(c2g));
}

} // verus!
