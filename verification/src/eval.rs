//! An evaluator for the pure subset of the IR.
//!
//! The guest CPU state is modelled as one 8-byte slot per field (see
//! [`crate::layout`]); native side-effect notifications are counted rather
//! than performed.  Operations that leave the pure subset — bus reads and
//! writes, address resolution, and the translation-fault handler — stop
//! evaluation with `None`.  The evaluator is what the architectural-effect
//! statements and tests of this crate are expressed against.

use vstd::prelude::*;

use crate::bits::as_signed;
use crate::bits::low32;
use crate::bits::sext16_64;
use crate::bits::sext32;
use crate::bits::sext8_64;
use crate::ir::CompareKind;
use crate::ir::FuncV;
use crate::ir::IrFunction;
use crate::ir::IrInstruction;
use crate::ir::IrSize;
use crate::ir::IrValue;
use crate::ir::Terminator;

verus! {

/// The evaluator's running state: the guest-state slots, the value of every
/// operation evaluated so far (by arena index), and how many times each
/// native notification was invoked.
pub struct MachineState {
    pub mem: Vec<u64>,
    pub env: Vec<Option<u64>>,
    pub resched_calls: u64,
    pub status_calls: u64,
}

/// Mathematical image of the evaluator state.
pub struct MachineV {
    pub mem: Seq<u64>,
    pub env: Seq<Option<u64>>,
    pub resched_calls: u64,
    pub status_calls: u64,
}

impl View for MachineState {
    type V = MachineV;

    open spec fn view(&self) -> MachineV {
        MachineV {
            mem: self.mem@,
            env: self.env@,
            resched_calls: self.resched_calls,
            status_calls: self.status_calls,
        }
    }
}

/// The width of an operation size, in bits.
pub open spec fn size_bits(sz: IrSize) -> u64 {
    match sz {
        IrSize::U8 => 8,
        IrSize::S8 => 8,
        IrSize::U16 => 16,
        IrSize::S16 => 16,
        IrSize::U32 => 32,
        IrSize::S32 => 32,
        IrSize::U64 => 64,
        IrSize::S64 => 64,
    }
}

/// Truncation of a 64-bit value to the low bits of a size.
pub open spec fn trunc_size(sz: IrSize, x: u64) -> u64 {
    match sz {
        IrSize::U8 => x % 0x100,
        IrSize::S8 => x % 0x100,
        IrSize::U16 => x % 0x1_0000,
        IrSize::S16 => x % 0x1_0000,
        IrSize::U32 => low32(x),
        IrSize::S32 => low32(x),
        IrSize::U64 => x,
        IrSize::S64 => x,
    }
}

/// The 64-bit value a load of the given size yields from a raw slot: signed
/// sizes sign-extend their field, unsigned sizes zero-extend it.
pub open spec fn load_convert(sz: IrSize, raw: u64) -> u64 {
    match sz {
        IrSize::U8 => raw % 0x100,
        IrSize::S8 => sext8_64(raw % 0x100),
        IrSize::U16 => raw % 0x1_0000,
        IrSize::S16 => sext16_64(raw % 0x1_0000),
        IrSize::U32 => low32(raw),
        IrSize::S32 => sext32(low32(raw)),
        IrSize::U64 => raw,
        IrSize::S64 => raw,
    }
}

/// Re-reading a value at width `from` and extending it to width `to`.
pub open spec fn convert_sem(from: IrSize, to: IrSize, x: u64) -> u64 {
    trunc_size(to, load_convert(from, x))
}

/// Comparison on full 64-bit register values; signed kinds reinterpret the
/// bit pattern.
pub open spec fn compare_sem(kind: CompareKind, a: u64, b: u64) -> bool {
    match kind {
        CompareKind::Equal => a == b,
        CompareKind::NotEqual => a != b,
        CompareKind::LessThanSigned => as_signed(a) < as_signed(b),
        CompareKind::LessThanUnsigned => a < b,
        CompareKind::GreaterThanSigned => as_signed(a) > as_signed(b),
        CompareKind::LessThanOrEqualSigned => as_signed(a) <= as_signed(b),
        CompareKind::GreaterThanOrEqualSigned => as_signed(a) >= as_signed(b),
    }
}

/// Shift amount masking: a shift moves by the amount modulo the width.
pub open spec fn shift_amount(sz: IrSize, amt: u64) -> u64 {
    amt % size_bits(sz)
}

/// The low 32 bits of a register value read as a signed integer.
pub open spec fn as_signed32(x: u64) -> int {
    if low32(x) < 0x8000_0000 {
        low32(x) as int
    } else {
        low32(x) - 0x1_0000_0000
    }
}

/// A (possibly negative) integer reduced to its 32-bit two's-complement
/// pattern.
pub open spec fn emod32(p: int) -> u64 {
    (p % 0x1_0000_0000) as u64
}

/// Truncated (round-toward-zero) division, the convention of the guest's
/// divide instruction.
pub open spec fn div_trunc(a: int, b: int) -> int
    recommends
        b != 0,
{
    if (a < 0) == (b < 0) {
        (vstd::math::abs(a) / vstd::math::abs(b)) as int
    } else {
        -((vstd::math::abs(a) / vstd::math::abs(b)) as int)
    }
}

/// The 32-bit product of the operands' low words, signed or unsigned.
pub open spec fn mul32_prod(signed: bool, x: u64, y: u64) -> int {
    if signed {
        as_signed32(x) * as_signed32(y)
    } else {
        low32(x) * low32(y)
    }
}

/// Low word of a 32-bit multiply.
pub open spec fn mullo32(signed: bool, x: u64, y: u64) -> u64 {
    emod32(mul32_prod(signed, x, y))
}

/// High word of a 32-bit multiply.
pub open spec fn mulhi32(signed: bool, x: u64, y: u64) -> u64 {
    emod32(mul32_prod(signed, x, y) / 0x1_0000_0000)
}

/// Quotient pattern of a 32-bit divide; a zero divisor yields zero here, and
/// the translator's runtime check keeps translated code off this case.
pub open spec fn divquot32(signed: bool, x: u64, y: u64) -> u64 {
    if signed {
        if as_signed32(y) == 0 {
            0
        } else {
            emod32(div_trunc(as_signed32(x), as_signed32(y)))
        }
    } else {
        if low32(y) == 0 {
            0
        } else {
            emod32((low32(x) / low32(y)) as int)
        }
    }
}

/// Remainder pattern of a 32-bit divide (sign of the dividend).
pub open spec fn divrem32(signed: bool, x: u64, y: u64) -> u64 {
    if signed {
        if as_signed32(y) == 0 {
            0
        } else {
            emod32(as_signed32(x) - as_signed32(y) * div_trunc(as_signed32(x), as_signed32(y)))
        }
    } else {
        if low32(y) == 0 {
            0
        } else {
            emod32((low32(x) % low32(y)) as int)
        }
    }
}

/// What a value reference denotes: a constant, or the result of an already
/// evaluated operation.
pub open spec fn eval_value(env: Seq<Option<u64>>, v: IrValue) -> Option<u64> {
    match v {
        IrValue::Const(c) => Some(c),
        IrValue::Op(k) => if k < env.len() {
            env[k as int]
        } else {
            None
        },
    }
}

/// Record the result of operation `id`.
pub open spec fn set_result(m: MachineV, id: int, val: u64) -> MachineV {
    MachineV {
        mem: m.mem,
        env: m.env.update(id, Some(val)),
        resched_calls: m.resched_calls,
        status_calls: m.status_calls,
    }
}

/// One step of the evaluator: the effect of operation `id` on the machine,
/// or `None` where the operation leaves the pure subset or is ill formed.
pub open spec fn eval_op(id: int, op: IrInstruction, m: MachineV) -> Option<MachineV> {
    if !(0 <= id < m.env.len()) {
        None
    } else {
        match op {
            IrInstruction::Nop => Some(m),
            IrInstruction::Or(sz, a, b) => match (eval_value(m.env, a), eval_value(m.env, b)) {
                (Some(x), Some(y)) => Some(set_result(m, id, trunc_size(sz, x | y))),
                _ => None,
            },
            IrInstruction::Xor(sz, a, b) => match (eval_value(m.env, a), eval_value(m.env, b)) {
                (Some(x), Some(y)) => Some(set_result(m, id, trunc_size(sz, x ^ y))),
                _ => None,
            },
            IrInstruction::And(sz, a, b) => match (eval_value(m.env, a), eval_value(m.env, b)) {
                (Some(x), Some(y)) => Some(set_result(m, id, trunc_size(sz, x & y))),
                _ => None,
            },
            IrInstruction::Add(sz, a, b) => match (eval_value(m.env, a), eval_value(m.env, b)) {
                (Some(x), Some(y)) => Some(
                    set_result(
                        m,
                        id,
                        trunc_size(sz, vstd::wrapping::u64_specs::wrapping_add(x, y)),
                    ),
                ),
                _ => None,
            },
            IrInstruction::Sub(sz, a, b) => match (eval_value(m.env, a), eval_value(m.env, b)) {
                (Some(x), Some(y)) => Some(
                    set_result(
                        m,
                        id,
                        trunc_size(sz, vstd::wrapping::u64_specs::wrapping_sub(x, y)),
                    ),
                ),
                _ => None,
            },
            IrInstruction::Not(sz, a) => match eval_value(m.env, a) {
                Some(x) => Some(set_result(m, id, trunc_size(sz, x ^ 0xFFFF_FFFF_FFFF_FFFF))),
                None => None,
            },
            IrInstruction::ShiftLeft(sz, a, b) => match (
                eval_value(m.env, a),
                eval_value(m.env, b),
            ) {
                (Some(x), Some(y)) => Some(
                    set_result(m, id, trunc_size(sz, trunc_size(sz, x) << shift_amount(sz, y))),
                ),
                _ => None,
            },
            IrInstruction::ShiftRight(sz, a, b) => match (
                eval_value(m.env, a),
                eval_value(m.env, b),
            ) {
                (Some(x), Some(y)) => Some(
                    set_result(m, id, trunc_size(sz, x) >> shift_amount(sz, y)),
                ),
                _ => None,
            },
            IrInstruction::Compare(kind, a, b) => match (
                eval_value(m.env, a),
                eval_value(m.env, b),
            ) {
                (Some(x), Some(y)) => Some(
                    set_result(m, id, if compare_sem(kind, x, y) {
                        1
                    } else {
                        0
                    }),
                ),
                _ => None,
            },
            IrInstruction::Convert(from, to, a) => match eval_value(m.env, a) {
                Some(x) => Some(set_result(m, id, convert_sem(from, to, x))),
                None => None,
            },
            IrInstruction::GetPtr(off, sz) => if off % 8 == 0 && off / 8 < m.mem.len() {
                Some(set_result(m, id, load_convert(sz, m.mem[off as int / 8])))
            } else {
                None
            },
            IrInstruction::SetPtr(off, sz, v) => match eval_value(m.env, v) {
                Some(x) => if off % 8 == 0 && off / 8 < m.mem.len() {
                    Some(
                        MachineV {
                            mem: m.mem.update(off as int / 8, trunc_size(sz, x)),
                            env: m.env,
                            resched_calls: m.resched_calls,
                            status_calls: m.status_calls,
                        },
                    )
                } else {
                    None
                },
                None => None,
            },
            IrInstruction::MulLo(sz, a, b) => match (eval_value(m.env, a), eval_value(m.env, b)) {
                (Some(x), Some(y)) => match sz {
                    IrSize::S32 => Some(set_result(m, id, mullo32(true, x, y))),
                    IrSize::U32 => Some(set_result(m, id, mullo32(false, x, y))),
                    _ => None,
                },
                _ => None,
            },
            IrInstruction::MulHi(sz, a, b) => match (eval_value(m.env, a), eval_value(m.env, b)) {
                (Some(x), Some(y)) => match sz {
                    IrSize::S32 => Some(set_result(m, id, mulhi32(true, x, y))),
                    IrSize::U32 => Some(set_result(m, id, mulhi32(false, x, y))),
                    _ => None,
                },
                _ => None,
            },
            IrInstruction::DivQuot(sz, a, b) => match (eval_value(m.env, a), eval_value(m.env, b)) {
                (Some(x), Some(y)) => match sz {
                    IrSize::S32 => Some(set_result(m, id, divquot32(true, x, y))),
                    IrSize::U32 => Some(set_result(m, id, divquot32(false, x, y))),
                    _ => None,
                },
                _ => None,
            },
            IrInstruction::DivRem(sz, a, b) => match (eval_value(m.env, a), eval_value(m.env, b)) {
                (Some(x), Some(y)) => match sz {
                    IrSize::S32 => Some(set_result(m, id, divrem32(true, x, y))),
                    IrSize::U32 => Some(set_result(m, id, divrem32(false, x, y))),
                    _ => None,
                },
                _ => None,
            },
            IrInstruction::CallStatusUpdated(_) => Some(
                MachineV {
                    mem: m.mem,
                    env: m.env,
                    resched_calls: m.resched_calls,
                    status_calls: vstd::wrapping::u64_specs::wrapping_add(m.status_calls, 1),
                },
            ),
            IrInstruction::CallRescheduleCompareInterrupt(_) => Some(
                MachineV {
                    mem: m.mem,
                    env: m.env,
                    resched_calls: vstd::wrapping::u64_specs::wrapping_add(m.resched_calls, 1),
                    status_calls: m.status_calls,
                },
            ),
            _ => None,
        }
    }
}

/// Running a block's operation list, front to back.
pub open spec fn eval_ops(f: FuncV, ops: Seq<usize>, m: MachineV) -> Option<MachineV>
    decreases ops.len(),
{
    if ops.len() == 0 {
        Some(m)
    } else {
        let id = ops[0];
        if id < f.arena.len() {
            match eval_op(id as int, f.arena[id as int], m) {
                Some(m2) => eval_ops(f, ops.skip(1), m2),
                None => None,
            }
        } else {
            None
        }
    }
}

/// Running the function from block `b` to a return.  Control must move
/// strictly forward (as the translator guarantees); anything else stops
/// evaluation.  The result carries the final machine and the returned value.
pub open spec fn eval_from(f: FuncV, b: int, m: MachineV) -> Option<(MachineV, Option<u64>)>
    decreases f.blocks.len() - b,
{
    if !(0 <= b < f.blocks.len()) {
        None
    } else {
        match eval_ops(f, f.blocks[b].ops, m) {
            None => None,
            Some(m2) => match f.blocks[b].term {
                None => None,
                Some(Terminator::Jump(t)) => if b < t < f.blocks.len() {
                    eval_from(f, t as int, m2)
                } else {
                    None
                },
                Some(Terminator::Branch(c, t, e)) => match eval_value(m2.env, c) {
                    Some(cv) => {
                        let tgt = if cv != 0 {
                            t
                        } else {
                            e
                        };
                        if b < tgt < f.blocks.len() {
                            eval_from(f, tgt as int, m2)
                        } else {
                            None
                        }
                    },
                    None => None,
                },
                Some(Terminator::Ret(v)) => match v {
                    None => Some((m2, None)),
                    Some(val) => match eval_value(m2.env, val) {
                        Some(x) => Some((m2, Some(x))),
                        None => None,
                    },
                },
            },
        }
    }
}

/// A fresh environment: no operation evaluated yet.
pub open spec fn fresh_env(n: int) -> Seq<Option<u64>> {
    Seq::new(n as nat, |i: int| None)
}

/// Running a whole function over initial guest-state slots `mem`.
pub open spec fn eval_func_v(f: FuncV, mem: Seq<u64>) -> Option<(MachineV, Option<u64>)> {
    eval_from(
        f,
        0,
        MachineV { mem, env: fresh_env(f.arena.len() as int), resched_calls: 0, status_calls: 0 },
    )
}

/// Executable form of [`eval_value`].
pub fn eval_value_x(env: &Vec<Option<u64>>, v: IrValue) -> (r: Option<u64>)
    ensures
        r == eval_value(env@, v),
{
    match v {
        IrValue::Const(c) => Some(c),
        IrValue::Op(k) => if k < env.len() {
            env[k]
        } else {
            None
        },
    }
}

/// Executable truncation to a size.
pub fn trunc_size_x(sz: IrSize, x: u64) -> (r: u64)
    ensures
        r == trunc_size(sz, x),
{
    match sz {
        IrSize::U8 => x % 0x100,
        IrSize::S8 => x % 0x100,
        IrSize::U16 => x % 0x1_0000,
        IrSize::S16 => x % 0x1_0000,
        IrSize::U32 => x % 0x1_0000_0000,
        IrSize::S32 => x % 0x1_0000_0000,
        IrSize::U64 => x,
        IrSize::S64 => x,
    }
}

/// Executable load conversion.
pub fn load_convert_x(sz: IrSize, raw: u64) -> (r: u64)
    ensures
        r == load_convert(sz, raw),
{
    match sz {
        IrSize::U8 => raw % 0x100,
        IrSize::S8 => crate::bits::sign_extend8_64(raw % 0x100),
        IrSize::U16 => raw % 0x1_0000,
        IrSize::S16 => crate::bits::sign_extend16_64(raw % 0x1_0000),
        IrSize::U32 => raw % 0x1_0000_0000,
        IrSize::S32 => crate::bits::sign_extend32(raw % 0x1_0000_0000),
        IrSize::U64 => raw,
        IrSize::S64 => raw,
    }
}

/// Executable width conversion.
pub fn convert_sem_x(from: IrSize, to: IrSize, x: u64) -> (r: u64)
    ensures
        r == convert_sem(from, to, x),
{
    trunc_size_x(to, load_convert_x(from, x))
}

/// Executable comparison.
pub fn compare_sem_x(kind: CompareKind, a: u64, b: u64) -> (r: bool)
    ensures
        r == compare_sem(kind, a, b),
{
    match kind {
        CompareKind::Equal => a == b,
        CompareKind::NotEqual => a != b,
        CompareKind::LessThanSigned => crate::bits::lt_signed(a, b),
        CompareKind::LessThanUnsigned => a < b,
        CompareKind::GreaterThanSigned => crate::bits::lt_signed(b, a),
        CompareKind::LessThanOrEqualSigned => !crate::bits::lt_signed(b, a),
        CompareKind::GreaterThanOrEqualSigned => !crate::bits::lt_signed(a, b),
    }
}

/// Executable bit width.
pub fn size_bits_x(sz: IrSize) -> (r: u64)
    ensures
        r == size_bits(sz),
        1 <= r <= 64,
{
    match sz {
        IrSize::U8 => 8,
        IrSize::S8 => 8,
        IrSize::U16 => 16,
        IrSize::S16 => 16,
        IrSize::U32 => 32,
        IrSize::S32 => 32,
        IrSize::U64 => 64,
        IrSize::S64 => 64,
    }
}


/// Executable 32-bit multiply: the low and high words of the product.
pub fn mul32_parts(signed: bool, x: u64, y: u64) -> (r: (u64, u64))
    ensures
        r.0 == mullo32(signed, x, y),
        r.1 == mulhi32(signed, x, y),
{
    let xl = x % 0x1_0000_0000;
    let yl = y % 0x1_0000_0000;
    let neg_x = signed && xl >= 0x8000_0000;
    let neg_y = signed && yl >= 0x8000_0000;
    let mag_x = if neg_x {
        0x1_0000_0000 - xl
    } else {
        xl
    };
    let mag_y = if neg_y {
        0x1_0000_0000 - yl
    } else {
        yl
    };
    let ghost sx: int = if signed {
        as_signed32(x)
    } else {
        low32(x) as int
    };
    let ghost sy: int = if signed {
        as_signed32(y)
    } else {
        low32(y) as int
    };
    proof {
        assert(sx == if neg_x {
            -(mag_x as int)
        } else {
            mag_x as int
        });
        assert(sy == if neg_y {
            -(mag_y as int)
        } else {
            mag_y as int
        });
        assert(mag_x * mag_y <= 0xFFFF_FFFF * 0xFFFF_FFFF) by (nonlinear_arith)
            requires
                mag_x <= 0xFFFF_FFFF,
                mag_y <= 0xFFFF_FFFF,
        ;
    }
    let p_mag = mag_x * mag_y;
    let neg = (neg_x != neg_y) && p_mag != 0;
    let ghost p: int = mul32_prod(signed, x, y);
    proof {
        assert(p == if neg {
            -(p_mag as int)
        } else {
            p_mag as int
        }) by (nonlinear_arith)
            requires
                p == sx * sy,
                p_mag == mag_x * mag_y,
                sx == if neg_x {
                    -(mag_x as int)
                } else {
                    mag_x as int
                },
                sy == if neg_y {
                    -(mag_y as int)
                } else {
                    mag_y as int
                },
                neg == ((neg_x != neg_y) && p_mag != 0),
        ;
    }
    let q = p_mag / 0x1_0000_0000;
    let w = p_mag % 0x1_0000_0000;
    if !neg {
        proof {
            assert(p % 0x1_0000_0000 == w);
            assert(p / 0x1_0000_0000 == q);
            assert(q < 0x1_0000_0000);
            assert((q as int) % 0x1_0000_0000 == q);
        }
        (w, q)
    } else {
        if w == 0 {
            proof {
                assert(q >= 1);
                vstd::arithmetic::div_mod::lemma_fundamental_div_mod_converse_mod(
                    p,
                    0x1_0000_0000,
                    -(q as int),
                    0,
                );
                vstd::arithmetic::div_mod::lemma_fundamental_div_mod_converse_div(
                    p,
                    0x1_0000_0000,
                    -(q as int),
                    0,
                );
                vstd::arithmetic::div_mod::lemma_fundamental_div_mod_converse_mod(
                    -(q as int),
                    0x1_0000_0000,
                    -1,
                    0x1_0000_0000 - q,
                );
            }
            (0, 0x1_0000_0000 - q)
        } else {
            proof {
                vstd::arithmetic::div_mod::lemma_fundamental_div_mod_converse_mod(
                    p,
                    0x1_0000_0000,
                    -(q as int) - 1,
                    0x1_0000_0000 - w,
                );
                vstd::arithmetic::div_mod::lemma_fundamental_div_mod_converse_div(
                    p,
                    0x1_0000_0000,
                    -(q as int) - 1,
                    0x1_0000_0000 - w,
                );
                vstd::arithmetic::div_mod::lemma_fundamental_div_mod_converse_mod(
                    -(q as int) - 1,
                    0x1_0000_0000,
                    -1,
                    0x1_0000_0000 - q - 1,
                );
            }
            (0x1_0000_0000 - w, 0x1_0000_0000 - 1 - q)
        }
    }
}

/// Executable 32-bit divide: the quotient and remainder patterns; a zero
/// divisor yields the architectural placeholder pair `(0, 0)` that translated
/// code never consults.
pub fn div32_quot_rem(signed: bool, x: u64, y: u64) -> (r: (u64, u64))
    ensures
        r.0 == divquot32(signed, x, y),
        r.1 == divrem32(signed, x, y),
{
    let xl = x % 0x1_0000_0000;
    let yl = y % 0x1_0000_0000;
    if yl == 0 {
        return (0, 0);
    }
    if !signed {
        return (xl / yl, xl % yl);
    }
    let neg_x = xl >= 0x8000_0000;
    let neg_y = yl >= 0x8000_0000;
    let mag_x = if neg_x {
        0x1_0000_0000 - xl
    } else {
        xl
    };
    let mag_y = if neg_y {
        0x1_0000_0000 - yl
    } else {
        yl
    };
    let ghost sx: int = as_signed32(x);
    let ghost sy: int = as_signed32(y);
    proof {
        assert(sx == if neg_x {
            -(mag_x as int)
        } else {
            mag_x as int
        });
        assert(sy == if neg_y {
            -(mag_y as int)
        } else {
            mag_y as int
        });
        assert(sy != 0);
        assert(vstd::math::abs(sx) == mag_x);
        assert(vstd::math::abs(sy) == mag_y);
    }
    let q_mag = mag_x / mag_y;
    let r_mag = mag_x % mag_y;
    let neg_q = neg_x != neg_y;
    let ghost dt: int = div_trunc(sx, sy);
    proof {
        assert(dt == if neg_q {
            -(q_mag as int)
        } else {
            q_mag as int
        });
    }
    let quot = if neg_q && q_mag != 0 {
        proof {
            vstd::arithmetic::div_mod::lemma_fundamental_div_mod_converse_mod(
                dt,
                0x1_0000_0000,
                -1,
                0x1_0000_0000 - q_mag,
            );
        }
        0x1_0000_0000 - q_mag
    } else {
        proof {
            assert(emod32(dt) == if neg_q {
                0
            } else {
                q_mag
            });
        }
        if neg_q {
            0
        } else {
            q_mag
        }
    };
    let ghost rem: int = sx - sy * dt;
    proof {
        assert(mag_x == mag_y * q_mag + r_mag) by {
            vstd::arithmetic::div_mod::lemma_fundamental_div_mod(mag_x as int, mag_y as int);
        }
        assert(rem == if neg_x {
            -(r_mag as int)
        } else {
            r_mag as int
        }) by (nonlinear_arith)
            requires
                rem == sx - sy * dt,
                mag_x == mag_y * q_mag + r_mag,
                sx == if neg_x {
                    -(mag_x as int)
                } else {
                    mag_x as int
                },
                sy == if neg_y {
                    -(mag_y as int)
                } else {
                    mag_y as int
                },
                dt == if neg_x != neg_y {
                    -(q_mag as int)
                } else {
                    q_mag as int
                },
        ;
    }
    let rem_bits = if neg_x && r_mag != 0 {
        proof {
            vstd::arithmetic::div_mod::lemma_fundamental_div_mod_converse_mod(
                rem,
                0x1_0000_0000,
                -1,
                0x1_0000_0000 - r_mag,
            );
        }
        0x1_0000_0000 - r_mag
    } else {
        proof {
            assert(emod32(rem) == if neg_x {
                0
            } else {
                r_mag
            });
        }
        if neg_x {
            0
        } else {
            r_mag
        }
    };
    (quot, rem_bits)
}

/// One executable evaluator step.  `true` means the operation was applied;
/// `false` means it leaves the pure subset (or is ill formed) and the state
/// is unchanged.
#[verifier::rlimit(100)]
#[verifier::spinoff_prover]
pub fn eval_op_x(id: usize, op: &IrInstruction, st: &mut MachineState) -> (ok: bool)
    ensures
        ok <==> eval_op(id as int, *op, old(st)@) is Some,
        ok ==> Some(final(st)@) == eval_op(id as int, *op, old(st)@),
        !ok ==> final(st)@ == old(st)@,
{
    if id >= st.env.len() {
        return false;
    }
    match *op {
        IrInstruction::Nop => true,
        IrInstruction::Or(sz, a, b) => {
            match (eval_value_x(&st.env, a), eval_value_x(&st.env, b)) {
                (Some(x), Some(y)) => {
                    st.env[id] = Some(trunc_size_x(sz, x | y));
                    true
                },
                _ => false,
            }
        },
        IrInstruction::Xor(sz, a, b) => {
            match (eval_value_x(&st.env, a), eval_value_x(&st.env, b)) {
                (Some(x), Some(y)) => {
                    st.env[id] = Some(trunc_size_x(sz, x ^ y));
                    true
                },
                _ => false,
            }
        },
        IrInstruction::And(sz, a, b) => {
            match (eval_value_x(&st.env, a), eval_value_x(&st.env, b)) {
                (Some(x), Some(y)) => {
                    st.env[id] = Some(trunc_size_x(sz, x & y));
                    true
                },
                _ => false,
            }
        },
        IrInstruction::Add(sz, a, b) => {
            match (eval_value_x(&st.env, a), eval_value_x(&st.env, b)) {
                (Some(x), Some(y)) => {
                    st.env[id] = Some(trunc_size_x(sz, x.wrapping_add(y)));
                    true
                },
                _ => false,
            }
        },
        IrInstruction::Sub(sz, a, b) => {
            match (eval_value_x(&st.env, a), eval_value_x(&st.env, b)) {
                (Some(x), Some(y)) => {
                    st.env[id] = Some(trunc_size_x(sz, x.wrapping_sub(y)));
                    true
                },
                _ => false,
            }
        },
        IrInstruction::Not(sz, a) => {
            match eval_value_x(&st.env, a) {
                Some(x) => {
                    st.env[id] = Some(trunc_size_x(sz, x ^ 0xFFFF_FFFF_FFFF_FFFF));
                    true
                },
                None => false,
            }
        },
        IrInstruction::ShiftLeft(sz, a, b) => {
            match (eval_value_x(&st.env, a), eval_value_x(&st.env, b)) {
                (Some(x), Some(y)) => {
                    let bits = size_bits_x(sz);
                    st.env[id] = Some(trunc_size_x(sz, trunc_size_x(sz, x) << (y % bits)));
                    true
                },
                _ => false,
            }
        },
        IrInstruction::ShiftRight(sz, a, b) => {
            match (eval_value_x(&st.env, a), eval_value_x(&st.env, b)) {
                (Some(x), Some(y)) => {
                    let bits = size_bits_x(sz);
                    st.env[id] = Some(trunc_size_x(sz, x) >> (y % bits));
                    true
                },
                _ => false,
            }
        },
        IrInstruction::Compare(kind, a, b) => {
            match (eval_value_x(&st.env, a), eval_value_x(&st.env, b)) {
                (Some(x), Some(y)) => {
                    st.env[id] = Some(
                        if compare_sem_x(kind, x, y) {
                            1
                        } else {
                            0
                        },
                    );
                    true
                },
                _ => false,
            }
        },
        IrInstruction::Convert(from, to, a) => {
            match eval_value_x(&st.env, a) {
                Some(x) => {
                    st.env[id] = Some(convert_sem_x(from, to, x));
                    true
                },
                None => false,
            }
        },
        IrInstruction::GetPtr(off, sz) => {
            if off % 8 == 0 && (off / 8) < (st.mem.len() as u64) {
                let raw = st.mem[(off / 8) as usize];
                st.env[id] = Some(load_convert_x(sz, raw));
                true
            } else {
                false
            }
        },
        IrInstruction::SetPtr(off, sz, v) => {
            match eval_value_x(&st.env, v) {
                Some(x) => {
                    if off % 8 == 0 && (off / 8) < (st.mem.len() as u64) {
                        st.mem[(off / 8) as usize] = trunc_size_x(sz, x);
                        true
                    } else {
                        false
                    }
                },
                None => false,
            }
        },
        IrInstruction::MulLo(sz, a, b) => {
            match (eval_value_x(&st.env, a), eval_value_x(&st.env, b)) {
                (Some(x), Some(y)) => match sz {
                    IrSize::S32 => {
                        st.env[id] = Some(mul32_parts(true, x, y).0);
                        true
                    },
                    IrSize::U32 => {
                        st.env[id] = Some(mul32_parts(false, x, y).0);
                        true
                    },
                    _ => false,
                },
                _ => false,
            }
        },
        IrInstruction::MulHi(sz, a, b) => {
            match (eval_value_x(&st.env, a), eval_value_x(&st.env, b)) {
                (Some(x), Some(y)) => match sz {
                    IrSize::S32 => {
                        st.env[id] = Some(mul32_parts(true, x, y).1);
                        true
                    },
                    IrSize::U32 => {
                        st.env[id] = Some(mul32_parts(false, x, y).1);
                        true
                    },
                    _ => false,
                },
                _ => false,
            }
        },
        IrInstruction::DivQuot(sz, a, b) => {
            match (eval_value_x(&st.env, a), eval_value_x(&st.env, b)) {
                (Some(x), Some(y)) => match sz {
                    IrSize::S32 => {
                        st.env[id] = Some(div32_quot_rem(true, x, y).0);
                        true
                    },
                    IrSize::U32 => {
                        st.env[id] = Some(div32_quot_rem(false, x, y).0);
                        true
                    },
                    _ => false,
                },
                _ => false,
            }
        },
        IrInstruction::DivRem(sz, a, b) => {
            match (eval_value_x(&st.env, a), eval_value_x(&st.env, b)) {
                (Some(x), Some(y)) => match sz {
                    IrSize::S32 => {
                        st.env[id] = Some(div32_quot_rem(true, x, y).1);
                        true
                    },
                    IrSize::U32 => {
                        st.env[id] = Some(div32_quot_rem(false, x, y).1);
                        true
                    },
                    _ => false,
                },
                _ => false,
            }
        },
        IrInstruction::CallStatusUpdated(_) => {
            st.status_calls = st.status_calls.wrapping_add(1);
            true
        },
        IrInstruction::CallRescheduleCompareInterrupt(_) => {
            st.resched_calls = st.resched_calls.wrapping_add(1);
            true
        },
        _ => false,
    }
}

/// Run one block's operations; `false` means evaluation got stuck.
pub fn eval_block_ops(f: &IrFunction, b: usize, st: &mut MachineState) -> (ok: bool)
    requires
        b < f@.blocks.len(),
    ensures
        ok <==> eval_ops(f@, f@.blocks[b as int].ops, old(st)@) is Some,
        ok ==> Some(final(st)@) == eval_ops(f@, f@.blocks[b as int].ops, old(st)@),
{
    let ghost all_ops = f@.blocks[b as int].ops;
    let ghost st0 = st@;
    proof {
        assert(all_ops.skip(0) =~= all_ops);
    }
    let num_ops = f.blocks[b].ops.len();
    let mut k: usize = 0;
    while k < num_ops
        invariant
            b < f@.blocks.len(),
            all_ops == f@.blocks[b as int].ops,
            num_ops == all_ops.len(),
            0 <= k <= num_ops,
            st0 == old(st)@,
            eval_ops(f@, all_ops.skip(k as int), st@) == eval_ops(f@, all_ops, st0),
        decreases num_ops - k,
    {
        let id = f.blocks[b].ops[k];
        let ghost pre = st@;
        if id >= f.arena.len() {
            proof {
                assert(all_ops.skip(k as int)[0] == id);
                assert(eval_ops(f@, all_ops.skip(k as int), pre) is None);
            }
            return false;
        }
        let op = f.arena[id];
        let ok = eval_op_x(id, &op, st);
        if !ok {
            proof {
                assert(all_ops.skip(k as int)[0] == id);
                assert(eval_op(id as int, f@.arena[id as int], pre) is None);
                assert(eval_ops(f@, all_ops.skip(k as int), pre) is None);
            }
            return false;
        }
        proof {
            assert(all_ops.skip(k as int)[0] == id);
            assert(all_ops.skip(k as int).skip(1) =~= all_ops.skip(k as int + 1));
        }
        k += 1;
    }
    proof {
        assert(all_ops.skip(num_ops as int).len() == 0);
    }
    true
}

/// Run the function from block `b` to a return, moving strictly forward.
pub fn eval_func_from(f: &IrFunction, b: usize, st: &mut MachineState) -> (r: Option<Option<u64>>)
    requires
        b < f@.blocks.len(),
    ensures
        match r {
            Some(ret) => eval_from(f@, b as int, old(st)@) == Some((final(st)@, ret)),
            None => eval_from(f@, b as int, old(st)@) is None,
        },
    decreases f@.blocks.len() - b,
{
    let ok = eval_block_ops(f, b, st);
    if !ok {
        return None;
    }
    let term = match &f.blocks[b].term {
        Some(t) => *t,
        None => {
            return None;
        },
    };
    match term {
        Terminator::Jump(t) => {
            if b < t && t < f.blocks.len() {
                eval_func_from(f, t, st)
            } else {
                None
            }
        },
        Terminator::Branch(c, t, e) => {
            match eval_value_x(&st.env, c) {
                Some(cv) => {
                    let tgt = if cv != 0 {
                        t
                    } else {
                        e
                    };
                    if b < tgt && tgt < f.blocks.len() {
                        eval_func_from(f, tgt, st)
                    } else {
                        None
                    }
                },
                None => None,
            }
        },
        Terminator::Ret(v) => {
            match v {
                None => Some(None),
                Some(val) => {
                    match eval_value_x(&st.env, val) {
                        Some(x) => Some(Some(x)),
                        None => None,
                    }
                },
            }
        },
    }
}

/// Run a whole translated function over the initial guest-state slots.
/// `None` means evaluation left the pure subset.  On success the result is
/// exactly [`eval_func_v`]: the final machine state and the block's returned
/// cycle count.
pub fn eval_func(f: &IrFunction, mem: Vec<u64>) -> (r: Option<(MachineState, Option<u64>)>)
    ensures
        match r {
            Some(out) => eval_func_v(f@, mem@) == Some((out.0@, out.1)),
            None => eval_func_v(f@, mem@) is None,
        },
{
    let arena_len = f.arena.len();
    let mut env: Vec<Option<u64>> = Vec::new();
    let mut k: usize = 0;
    while k < arena_len
        invariant
            0 <= k <= arena_len,
            env@.len() == k,
            forall|i: int| 0 <= i < k ==> env@[i] is None,
        decreases arena_len - k,
    {
        env.push(None);
        k += 1;
    }
    proof {
        assert(env@ =~= fresh_env(f@.arena.len() as int));
    }
    let mut st = MachineState { mem, env, resched_calls: 0, status_calls: 0 };
    if f.blocks.len() == 0 {
        return None;
    }
    match eval_func_from(f, 0, &mut st) {
        Some(ret) => Some((st, ret)),
        None => None,
    }
}

} // verus!
