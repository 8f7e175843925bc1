//! Decoding of raw 32-bit MIPS instruction words.
//!
//! Decoding is a total function: every 32-bit pattern maps either to a known
//! opcode or to the explicit [`MipsOpcode::Unimplemented`] marker; no word is
//! silently misparsed.  Conditional branches of every flavour are folded into
//! the single [`MipsOpcode::BRANCH`] variant carrying the comparison kind,
//! the "likely" flag and the "link" flag, so downstream lowering never
//! re-derives comparison semantics from raw bits.

use vstd::prelude::*;

verus! {

/// Comparison performed by a conditional branch; the single-operand kinds
/// compare the `rs` register against zero.
#[derive(Clone, Copy, PartialEq, Eq, Structural, Debug)]
pub enum BranchCondition {
    EQ,
    NE,
    GTZ,
    LTZ,
    LEZ,
    GEZ,
}

/// The decoded shape of a conditional branch.
#[derive(Clone, Copy, PartialEq, Eq, Structural, Debug)]
pub struct BranchInfo {
    pub cond: BranchCondition,
    pub likely: bool,
    pub link: bool,
}

/// Every opcode of the target CPU that the translator knows about, plus the
/// explicit marker for patterns outside the known set.
#[derive(Clone, Copy, PartialEq, Eq, Structural, Debug)]
pub enum MipsOpcode {
    NOP,
    J,
    JAL,
    BRANCH(BranchInfo),
    ADDI,
    ADDIU,
    SLTI,
    SLTIU,
    ANDI,
    ORI,
    XORI,
    LUI,
    DADDI,
    DADDIU,
    LDL,
    LDR,
    RDHWR,
    LB,
    LH,
    LWL,
    LW,
    LBU,
    LHU,
    LWR,
    LWU,
    SB,
    SH,
    SWL,
    SW,
    SDL,
    SDR,
    SWR,
    CACHE,
    LL,
    LWC1,
    LLD,
    LDC1,
    LD,
    SC,
    SWC1,
    SCD,
    SDC1,
    SD,
    SLL,
    SRL,
    SRA,
    SLLV,
    SRLV,
    SRAV,
    JR,
    JALR,
    SYSCALL,
    SYNC,
    MFHI,
    MTHI,
    MFLO,
    MTLO,
    DSLLV,
    DSRLV,
    DSRAV,
    MULT,
    MULTU,
    DIV,
    DIVU,
    DMULT,
    DMULTU,
    DDIV,
    DDIVU,
    ADD,
    ADDU,
    SUB,
    SUBU,
    AND,
    OR,
    XOR,
    NOR,
    SLT,
    SLTU,
    DADD,
    DADDU,
    DSUB,
    DSUBU,
    TGE,
    TGEU,
    TLT,
    TLTU,
    TEQ,
    TNE,
    DSLL,
    DSRL,
    DSRA,
    DSLL32,
    DSRL32,
    DSRA32,
    MFC0,
    DMFC0,
    CFC0,
    DCFC0,
    MTC0,
    DMTC0,
    CTC0,
    DCTC0,
    MFC1,
    DMFC1,
    CFC1,
    DCFC1,
    MTC1,
    DMTC1,
    CTC1,
    DCTC1,
    TLBWI,
    Unimplemented,
}

/// A raw instruction word with verified bit-field accessors: bits 26–31 are
/// the primary opcode, 21–25 `rs`, 16–20 `rt`, 11–15 `rd`, 6–10 the shift
/// amount, 0–15 the immediate, 0–5 the secondary function code and 0–25 the
/// jump target.
#[derive(Clone, Copy, PartialEq, Eq, Structural, Debug)]
pub struct MipsInstructionBitfield(pub u32);

pub open spec fn op_bits_of(w: u32) -> u32 {
    w >> 26
}

pub open spec fn rs_of(w: u32) -> u8 {
    ((w >> 21) & 0x1F) as u8
}

pub open spec fn rt_of(w: u32) -> u8 {
    ((w >> 16) & 0x1F) as u8
}

pub open spec fn rd_of(w: u32) -> u8 {
    ((w >> 11) & 0x1F) as u8
}

pub open spec fn sa_of(w: u32) -> u8 {
    ((w >> 6) & 0x1F) as u8
}

pub open spec fn funct_of(w: u32) -> u32 {
    w & 0x3F
}

pub open spec fn imm_of(w: u32) -> u16 {
    (w & 0xFFFF) as u16
}

pub open spec fn jtarget_of(w: u32) -> u32 {
    w & 0x03FF_FFFF
}

/// Every extracted field is bounded by its width.
pub proof fn lemma_field_bounds(w: u32)
    by (bit_vector)
    ensures
        (w >> 26) < 64,
        ((w >> 21) & 0x1F) < 32,
        ((w >> 16) & 0x1F) < 32,
        ((w >> 11) & 0x1F) < 32,
        ((w >> 6) & 0x1F) < 32,
        (w & 0x3F) < 64,
        (w & 0xFFFF) < 0x1_0000,
        (w & 0x03FF_FFFF) < 0x0400_0000,
{
}

impl MipsInstructionBitfield {
    pub fn raw(&self) -> (r: u32)
        ensures
            r == self.0,
    {
        self.0
    }

    pub fn rs(&self) -> (r: u8)
        ensures
            r == rs_of(self.0),
            r < 32,
    {
        proof {
            lemma_field_bounds(self.0);
        }
        ((self.0 >> 21) & 0x1F) as u8
    }

    pub fn rt(&self) -> (r: u8)
        ensures
            r == rt_of(self.0),
            r < 32,
    {
        proof {
            lemma_field_bounds(self.0);
        }
        ((self.0 >> 16) & 0x1F) as u8
    }

    pub fn rd(&self) -> (r: u8)
        ensures
            r == rd_of(self.0),
            r < 32,
    {
        proof {
            lemma_field_bounds(self.0);
        }
        ((self.0 >> 11) & 0x1F) as u8
    }

    pub fn sa(&self) -> (r: u8)
        ensures
            r == sa_of(self.0),
            r < 32,
    {
        proof {
            lemma_field_bounds(self.0);
        }
        ((self.0 >> 6) & 0x1F) as u8
    }

    pub fn imm(&self) -> (r: u16)
        ensures
            r == imm_of(self.0),
    {
        proof {
            lemma_field_bounds(self.0);
        }
        (self.0 & 0xFFFF) as u16
    }

    pub fn j_target(&self) -> (r: u32)
        ensures
            r == jtarget_of(self.0),
            r < 0x0400_0000,
    {
        proof {
            lemma_field_bounds(self.0);
        }
        self.0 & 0x03FF_FFFF
    }
}

/// Secondary dispatch for the function-coded ("special") bucket.
pub open spec fn decode_special(funct: u32) -> MipsOpcode {
    if funct == 0 {
        MipsOpcode::SLL
    } else if funct == 2 {
        MipsOpcode::SRL
    } else if funct == 3 {
        MipsOpcode::SRA
    } else if funct == 4 {
        MipsOpcode::SLLV
    } else if funct == 6 {
        MipsOpcode::SRLV
    } else if funct == 7 {
        MipsOpcode::SRAV
    } else if funct == 8 {
        MipsOpcode::JR
    } else if funct == 9 {
        MipsOpcode::JALR
    } else if funct == 12 {
        MipsOpcode::SYSCALL
    } else if funct == 15 {
        MipsOpcode::SYNC
    } else if funct == 16 {
        MipsOpcode::MFHI
    } else if funct == 17 {
        MipsOpcode::MTHI
    } else if funct == 18 {
        MipsOpcode::MFLO
    } else if funct == 19 {
        MipsOpcode::MTLO
    } else if funct == 20 {
        MipsOpcode::DSLLV
    } else if funct == 22 {
        MipsOpcode::DSRLV
    } else if funct == 23 {
        MipsOpcode::DSRAV
    } else if funct == 24 {
        MipsOpcode::MULT
    } else if funct == 25 {
        MipsOpcode::MULTU
    } else if funct == 26 {
        MipsOpcode::DIV
    } else if funct == 27 {
        MipsOpcode::DIVU
    } else if funct == 28 {
        MipsOpcode::DMULT
    } else if funct == 29 {
        MipsOpcode::DMULTU
    } else if funct == 30 {
        MipsOpcode::DDIV
    } else if funct == 31 {
        MipsOpcode::DDIVU
    } else if funct == 32 {
        MipsOpcode::ADD
    } else if funct == 33 {
        MipsOpcode::ADDU
    } else if funct == 34 {
        MipsOpcode::SUB
    } else if funct == 35 {
        MipsOpcode::SUBU
    } else if funct == 36 {
        MipsOpcode::AND
    } else if funct == 37 {
        MipsOpcode::OR
    } else if funct == 38 {
        MipsOpcode::XOR
    } else if funct == 39 {
        MipsOpcode::NOR
    } else if funct == 42 {
        MipsOpcode::SLT
    } else if funct == 43 {
        MipsOpcode::SLTU
    } else if funct == 44 {
        MipsOpcode::DADD
    } else if funct == 45 {
        MipsOpcode::DADDU
    } else if funct == 46 {
        MipsOpcode::DSUB
    } else if funct == 47 {
        MipsOpcode::DSUBU
    } else if funct == 48 {
        MipsOpcode::TGE
    } else if funct == 49 {
        MipsOpcode::TGEU
    } else if funct == 50 {
        MipsOpcode::TLT
    } else if funct == 51 {
        MipsOpcode::TLTU
    } else if funct == 52 {
        MipsOpcode::TEQ
    } else if funct == 54 {
        MipsOpcode::TNE
    } else if funct == 56 {
        MipsOpcode::DSLL
    } else if funct == 58 {
        MipsOpcode::DSRL
    } else if funct == 59 {
        MipsOpcode::DSRA
    } else if funct == 60 {
        MipsOpcode::DSLL32
    } else if funct == 62 {
        MipsOpcode::DSRL32
    } else if funct == 63 {
        MipsOpcode::DSRA32
    } else {
        MipsOpcode::Unimplemented
    }
}

/// Dispatch on the `rt` field for the register-immediate branch bucket.
pub open spec fn decode_regimm(rt: u32) -> MipsOpcode {
    if rt == 0 {
        MipsOpcode::BRANCH(BranchInfo { cond: BranchCondition::LTZ, likely: false, link: false })
    } else if rt == 1 {
        MipsOpcode::BRANCH(BranchInfo { cond: BranchCondition::GEZ, likely: false, link: false })
    } else if rt == 2 {
        MipsOpcode::BRANCH(BranchInfo { cond: BranchCondition::LTZ, likely: true, link: false })
    } else if rt == 3 {
        MipsOpcode::BRANCH(BranchInfo { cond: BranchCondition::GEZ, likely: true, link: false })
    } else if rt == 16 {
        MipsOpcode::BRANCH(BranchInfo { cond: BranchCondition::LTZ, likely: false, link: true })
    } else if rt == 17 {
        MipsOpcode::BRANCH(BranchInfo { cond: BranchCondition::GEZ, likely: false, link: true })
    } else if rt == 18 {
        MipsOpcode::BRANCH(BranchInfo { cond: BranchCondition::LTZ, likely: true, link: true })
    } else if rt == 19 {
        MipsOpcode::BRANCH(BranchInfo { cond: BranchCondition::GEZ, likely: true, link: true })
    } else {
        MipsOpcode::Unimplemented
    }
}

/// Dispatch for the coprocessor-0 bucket: register transfers on the `rs`
/// field, privileged operations (co bit set) on the function code.
pub open spec fn decode_cp0(rs: u32, funct: u32) -> MipsOpcode {
    if rs >= 16 {
        if funct == 2 {
            MipsOpcode::TLBWI
        } else {
            MipsOpcode::Unimplemented
        }
    } else {
        if rs == 0 {
            MipsOpcode::MFC0
        } else if rs == 1 {
            MipsOpcode::DMFC0
        } else if rs == 2 {
            MipsOpcode::CFC0
        } else if rs == 3 {
            MipsOpcode::DCFC0
        } else if rs == 4 {
            MipsOpcode::MTC0
        } else if rs == 5 {
            MipsOpcode::DMTC0
        } else if rs == 6 {
            MipsOpcode::CTC0
        } else if rs == 7 {
            MipsOpcode::DCTC0
        } else {
            MipsOpcode::Unimplemented
        }
    }
}

/// Dispatch on the `rs` field for the coprocessor-1 register-transfer bucket.
pub open spec fn decode_cp1(rs: u32) -> MipsOpcode {
    if rs == 0 {
        MipsOpcode::MFC1
    } else if rs == 1 {
        MipsOpcode::DMFC1
    } else if rs == 2 {
        MipsOpcode::CFC1
    } else if rs == 3 {
        MipsOpcode::DCFC1
    } else if rs == 4 {
        MipsOpcode::MTC1
    } else if rs == 5 {
        MipsOpcode::DMTC1
    } else if rs == 6 {
        MipsOpcode::CTC1
    } else if rs == 7 {
        MipsOpcode::DCTC1
    } else {
        MipsOpcode::Unimplemented
    }
}

/// Dispatch on the primary opcode for every bucket without secondary coding.
pub open spec fn decode_primary(op: u32) -> MipsOpcode {
    if op == 2 {
        MipsOpcode::J
    } else if op == 3 {
        MipsOpcode::JAL
    } else if op == 4 {
        MipsOpcode::BRANCH(BranchInfo { cond: BranchCondition::EQ, likely: false, link: false })
    } else if op == 5 {
        MipsOpcode::BRANCH(BranchInfo { cond: BranchCondition::NE, likely: false, link: false })
    } else if op == 6 {
        MipsOpcode::BRANCH(BranchInfo { cond: BranchCondition::LEZ, likely: false, link: false })
    } else if op == 7 {
        MipsOpcode::BRANCH(BranchInfo { cond: BranchCondition::GTZ, likely: false, link: false })
    } else if op == 8 {
        MipsOpcode::ADDI
    } else if op == 9 {
        MipsOpcode::ADDIU
    } else if op == 10 {
        MipsOpcode::SLTI
    } else if op == 11 {
        MipsOpcode::SLTIU
    } else if op == 12 {
        MipsOpcode::ANDI
    } else if op == 13 {
        MipsOpcode::ORI
    } else if op == 14 {
        MipsOpcode::XORI
    } else if op == 15 {
        MipsOpcode::LUI
    } else if op == 20 {
        MipsOpcode::BRANCH(BranchInfo { cond: BranchCondition::EQ, likely: true, link: false })
    } else if op == 21 {
        MipsOpcode::BRANCH(BranchInfo { cond: BranchCondition::NE, likely: true, link: false })
    } else if op == 22 {
        MipsOpcode::BRANCH(BranchInfo { cond: BranchCondition::LEZ, likely: true, link: false })
    } else if op == 23 {
        MipsOpcode::BRANCH(BranchInfo { cond: BranchCondition::GTZ, likely: true, link: false })
    } else if op == 24 {
        MipsOpcode::DADDI
    } else if op == 25 {
        MipsOpcode::DADDIU
    } else if op == 26 {
        MipsOpcode::LDL
    } else if op == 27 {
        MipsOpcode::LDR
    } else if op == 31 {
        MipsOpcode::RDHWR
    } else if op == 32 {
        MipsOpcode::LB
    } else if op == 33 {
        MipsOpcode::LH
    } else if op == 34 {
        MipsOpcode::LWL
    } else if op == 35 {
        MipsOpcode::LW
    } else if op == 36 {
        MipsOpcode::LBU
    } else if op == 37 {
        MipsOpcode::LHU
    } else if op == 38 {
        MipsOpcode::LWR
    } else if op == 39 {
        MipsOpcode::LWU
    } else if op == 40 {
        MipsOpcode::SB
    } else if op == 41 {
        MipsOpcode::SH
    } else if op == 42 {
        MipsOpcode::SWL
    } else if op == 43 {
        MipsOpcode::SW
    } else if op == 44 {
        MipsOpcode::SDL
    } else if op == 45 {
        MipsOpcode::SDR
    } else if op == 46 {
        MipsOpcode::SWR
    } else if op == 47 {
        MipsOpcode::CACHE
    } else if op == 48 {
        MipsOpcode::LL
    } else if op == 49 {
        MipsOpcode::LWC1
    } else if op == 52 {
        MipsOpcode::LLD
    } else if op == 53 {
        MipsOpcode::LDC1
    } else if op == 55 {
        MipsOpcode::LD
    } else if op == 56 {
        MipsOpcode::SC
    } else if op == 57 {
        MipsOpcode::SWC1
    } else if op == 60 {
        MipsOpcode::SCD
    } else if op == 61 {
        MipsOpcode::SDC1
    } else if op == 63 {
        MipsOpcode::SD
    } else {
        MipsOpcode::Unimplemented
    }
}

/// What `decode` returns: the all-zero word is the canonical no-operation;
/// otherwise the primary opcode selects the bucket.
pub open spec fn decode_op(w: u32) -> MipsOpcode {
    if w == 0 {
        MipsOpcode::NOP
    } else {
        let op = w >> 26;
        if op == 0 {
            decode_special(w & 0x3F)
        } else if op == 1 {
            decode_regimm((w >> 16) & 0x1F)
        } else if op == 16 {
            decode_cp0((w >> 21) & 0x1F, w & 0x3F)
        } else if op == 17 {
            decode_cp1((w >> 21) & 0x1F)
        } else {
            decode_primary(op)
        }
    }
}

/// Classify one instruction word.  Decoding is total and deterministic: the
/// result equals [`decode_op`], a pure function of the word alone, for every
/// 32-bit pattern.
pub fn decode(w: u32) -> (r: MipsOpcode)
    ensures
        r == decode_op(w),
{
    if w == 0 {
        MipsOpcode::NOP
    } else {
        let op = w >> 26;
        if op == 0 {
            decode_special_x(w & 0x3F)
        } else if op == 1 {
            decode_regimm_x((w >> 16) & 0x1F)
        } else if op == 16 {
            decode_cp0_x((w >> 21) & 0x1F, w & 0x3F)
        } else if op == 17 {
            decode_cp1_x((w >> 21) & 0x1F)
        } else {
            decode_primary_x(op)
        }
    }
}

fn decode_special_x(funct: u32) -> (r: MipsOpcode)
    ensures
        r == decode_special(funct),
{
    if funct == 0 {
        MipsOpcode::SLL
    } else if funct == 2 {
        MipsOpcode::SRL
    } else if funct == 3 {
        MipsOpcode::SRA
    } else if funct == 4 {
        MipsOpcode::SLLV
    } else if funct == 6 {
        MipsOpcode::SRLV
    } else if funct == 7 {
        MipsOpcode::SRAV
    } else if funct == 8 {
        MipsOpcode::JR
    } else if funct == 9 {
        MipsOpcode::JALR
    } else if funct == 12 {
        MipsOpcode::SYSCALL
    } else if funct == 15 {
        MipsOpcode::SYNC
    } else if funct == 16 {
        MipsOpcode::MFHI
    } else if funct == 17 {
        MipsOpcode::MTHI
    } else if funct == 18 {
        MipsOpcode::MFLO
    } else if funct == 19 {
        MipsOpcode::MTLO
    } else if funct == 20 {
        MipsOpcode::DSLLV
    } else if funct == 22 {
        MipsOpcode::DSRLV
    } else if funct == 23 {
        MipsOpcode::DSRAV
    } else if funct == 24 {
        MipsOpcode::MULT
    } else if funct == 25 {
        MipsOpcode::MULTU
    } else if funct == 26 {
        MipsOpcode::DIV
    } else if funct == 27 {
        MipsOpcode::DIVU
    } else if funct == 28 {
        MipsOpcode::DMULT
    } else if funct == 29 {
        MipsOpcode::DMULTU
    } else if funct == 30 {
        MipsOpcode::DDIV
    } else if funct == 31 {
        MipsOpcode::DDIVU
    } else if funct == 32 {
        MipsOpcode::ADD
    } else if funct == 33 {
        MipsOpcode::ADDU
    } else if funct == 34 {
        MipsOpcode::SUB
    } else if funct == 35 {
        MipsOpcode::SUBU
    } else if funct == 36 {
        MipsOpcode::AND
    } else if funct == 37 {
        MipsOpcode::OR
    } else if funct == 38 {
        MipsOpcode::XOR
    } else if funct == 39 {
        MipsOpcode::NOR
    } else if funct == 42 {
        MipsOpcode::SLT
    } else if funct == 43 {
        MipsOpcode::SLTU
    } else if funct == 44 {
        MipsOpcode::DADD
    } else if funct == 45 {
        MipsOpcode::DADDU
    } else if funct == 46 {
        MipsOpcode::DSUB
    } else if funct == 47 {
        MipsOpcode::DSUBU
    } else if funct == 48 {
        MipsOpcode::TGE
    } else if funct == 49 {
        MipsOpcode::TGEU
    } else if funct == 50 {
        MipsOpcode::TLT
    } else if funct == 51 {
        MipsOpcode::TLTU
    } else if funct == 52 {
        MipsOpcode::TEQ
    } else if funct == 54 {
        MipsOpcode::TNE
    } else if funct == 56 {
        MipsOpcode::DSLL
    } else if funct == 58 {
        MipsOpcode::DSRL
    } else if funct == 59 {
        MipsOpcode::DSRA
    } else if funct == 60 {
        MipsOpcode::DSLL32
    } else if funct == 62 {
        MipsOpcode::DSRL32
    } else if funct == 63 {
        MipsOpcode::DSRA32
    } else {
        MipsOpcode::Unimplemented
    }
}

fn decode_regimm_x(rt: u32) -> (r: MipsOpcode)
    ensures
        r == decode_regimm(rt),
{
    if rt == 0 {
        MipsOpcode::BRANCH(BranchInfo { cond: BranchCondition::LTZ, likely: false, link: false })
    } else if rt == 1 {
        MipsOpcode::BRANCH(BranchInfo { cond: BranchCondition::GEZ, likely: false, link: false })
    } else if rt == 2 {
        MipsOpcode::BRANCH(BranchInfo { cond: BranchCondition::LTZ, likely: true, link: false })
    } else if rt == 3 {
        MipsOpcode::BRANCH(BranchInfo { cond: BranchCondition::GEZ, likely: true, link: false })
    } else if rt == 16 {
        MipsOpcode::BRANCH(BranchInfo { cond: BranchCondition::LTZ, likely: false, link: true })
    } else if rt == 17 {
        MipsOpcode::BRANCH(BranchInfo { cond: BranchCondition::GEZ, likely: false, link: true })
    } else if rt == 18 {
        MipsOpcode::BRANCH(BranchInfo { cond: BranchCondition::LTZ, likely: true, link: true })
    } else if rt == 19 {
        MipsOpcode::BRANCH(BranchInfo { cond: BranchCondition::GEZ, likely: true, link: true })
    } else {
        MipsOpcode::Unimplemented
    }
}

fn decode_cp0_x(rs: u32, funct: u32) -> (r: MipsOpcode)
    ensures
        r == decode_cp0(rs, funct),
{
    if rs >= 16 {
        if funct == 2 {
            MipsOpcode::TLBWI
        } else {
            MipsOpcode::Unimplemented
        }
    } else {
        if rs == 0 {
            MipsOpcode::MFC0
        } else if rs == 1 {
            MipsOpcode::DMFC0
        } else if rs == 2 {
            MipsOpcode::CFC0
        } else if rs == 3 {
            MipsOpcode::DCFC0
        } else if rs == 4 {
            MipsOpcode::MTC0
        } else if rs == 5 {
            MipsOpcode::DMTC0
        } else if rs == 6 {
            MipsOpcode::CTC0
        } else if rs == 7 {
            MipsOpcode::DCTC0
        } else {
            MipsOpcode::Unimplemented
        }
    }
}

fn decode_cp1_x(rs: u32) -> (r: MipsOpcode)
    ensures
        r == decode_cp1(rs),
{
    if rs == 0 {
        MipsOpcode::MFC1
    } else if rs == 1 {
        MipsOpcode::DMFC1
    } else if rs == 2 {
        MipsOpcode::CFC1
    } else if rs == 3 {
        MipsOpcode::DCFC1
    } else if rs == 4 {
        MipsOpcode::MTC1
    } else if rs == 5 {
        MipsOpcode::DMTC1
    } else if rs == 6 {
        MipsOpcode::CTC1
    } else if rs == 7 {
        MipsOpcode::DCTC1
    } else {
        MipsOpcode::Unimplemented
    }
}

fn decode_primary_x(op: u32) -> (r: MipsOpcode)
    ensures
        r == decode_primary(op),
{
    if op == 2 {
        MipsOpcode::J
    } else if op == 3 {
        MipsOpcode::JAL
    } else if op == 4 {
        MipsOpcode::BRANCH(BranchInfo { cond: BranchCondition::EQ, likely: false, link: false })
    } else if op == 5 {
        MipsOpcode::BRANCH(BranchInfo { cond: BranchCondition::NE, likely: false, link: false })
    } else if op == 6 {
        MipsOpcode::BRANCH(BranchInfo { cond: BranchCondition::LEZ, likely: false, link: false })
    } else if op == 7 {
        MipsOpcode::BRANCH(BranchInfo { cond: BranchCondition::GTZ, likely: false, link: false })
    } else if op == 8 {
        MipsOpcode::ADDI
    } else if op == 9 {
        MipsOpcode::ADDIU
    } else if op == 10 {
        MipsOpcode::SLTI
    } else if op == 11 {
        MipsOpcode::SLTIU
    } else if op == 12 {
        MipsOpcode::ANDI
    } else if op == 13 {
        MipsOpcode::ORI
    } else if op == 14 {
        MipsOpcode::XORI
    } else if op == 15 {
        MipsOpcode::LUI
    } else if op == 20 {
        MipsOpcode::BRANCH(BranchInfo { cond: BranchCondition::EQ, likely: true, link: false })
    } else if op == 21 {
        MipsOpcode::BRANCH(BranchInfo { cond: BranchCondition::NE, likely: true, link: false })
    } else if op == 22 {
        MipsOpcode::BRANCH(BranchInfo { cond: BranchCondition::LEZ, likely: true, link: false })
    } else if op == 23 {
        MipsOpcode::BRANCH(BranchInfo { cond: BranchCondition::GTZ, likely: true, link: false })
    } else if op == 24 {
        MipsOpcode::DADDI
    } else if op == 25 {
        MipsOpcode::DADDIU
    } else if op == 26 {
        MipsOpcode::LDL
    } else if op == 27 {
        MipsOpcode::LDR
    } else if op == 31 {
        MipsOpcode::RDHWR
    } else if op == 32 {
        MipsOpcode::LB
    } else if op == 33 {
        MipsOpcode::LH
    } else if op == 34 {
        MipsOpcode::LWL
    } else if op == 35 {
        MipsOpcode::LW
    } else if op == 36 {
        MipsOpcode::LBU
    } else if op == 37 {
        MipsOpcode::LHU
    } else if op == 38 {
        MipsOpcode::LWR
    } else if op == 39 {
        MipsOpcode::LWU
    } else if op == 40 {
        MipsOpcode::SB
    } else if op == 41 {
        MipsOpcode::SH
    } else if op == 42 {
        MipsOpcode::SWL
    } else if op == 43 {
        MipsOpcode::SW
    } else if op == 44 {
        MipsOpcode::SDL
    } else if op == 45 {
        MipsOpcode::SDR
    } else if op == 46 {
        MipsOpcode::SWR
    } else if op == 47 {
        MipsOpcode::CACHE
    } else if op == 48 {
        MipsOpcode::LL
    } else if op == 49 {
        MipsOpcode::LWC1
    } else if op == 52 {
        MipsOpcode::LLD
    } else if op == 53 {
        MipsOpcode::LDC1
    } else if op == 55 {
        MipsOpcode::LD
    } else if op == 56 {
        MipsOpcode::SC
    } else if op == 57 {
        MipsOpcode::SWC1
    } else if op == 60 {
        MipsOpcode::SCD
    } else if op == 61 {
        MipsOpcode::SDC1
    } else if op == 63 {
        MipsOpcode::SD
    } else {
        MipsOpcode::Unimplemented
    }
}

/// One decoded instruction: the raw word with its accessors, the guest
/// virtual and physical addresses it was fetched from, and its opcode
/// classification.  Immutable once produced.
#[derive(Clone, Copy, PartialEq, Eq, Structural, Debug)]
pub struct ParsedMipsInstruction {
    pub vaddr: u64,
    pub paddr: u32,
    pub instr: MipsInstructionBitfield,
    pub op: MipsOpcode,
}

/// Virtual address of the `i`-th instruction of a run starting at `va`:
/// each word is four bytes, wrapping at the 64-bit boundary.
pub open spec fn vaddr_at(va: u64, i: int) -> u64
    decreases i,
{
    if i <= 0 {
        va
    } else {
        vstd::wrapping::u64_specs::wrapping_add(vaddr_at(va, i - 1), 4)
    }
}

/// Physical address of the `i`-th instruction, wrapping at 32 bits.
pub open spec fn paddr_at(pa: u32, i: int) -> u32
    decreases i,
{
    if i <= 0 {
        pa
    } else {
        vstd::wrapping::u32_specs::wrapping_add(paddr_at(pa, i - 1), 4)
    }
}

/// The decoded form of the `i`-th word of `code`.
pub open spec fn parsed_at(code: Seq<u32>, va: u64, pa: u32, i: int) -> ParsedMipsInstruction {
    ParsedMipsInstruction {
        vaddr: vaddr_at(va, i),
        paddr: paddr_at(pa, i),
        instr: MipsInstructionBitfield(code[i]),
        op: decode_op(code[i]),
    }
}

/// Decode a run of consecutively addressed instruction words.  The result has
/// one entry per word, in program order, carrying the word, its addresses and
/// its classification.
pub fn parse(code: &[u32], virtual_address: u64, physical_address: u32) -> (r: Vec<
    ParsedMipsInstruction,
>)
    ensures
        r@.len() == code@.len(),
        forall|i: int|
            0 <= i < code@.len() ==> r@[i] == parsed_at(
                code@,
                virtual_address,
                physical_address,
                i,
            ),
{
    let mut r: Vec<ParsedMipsInstruction> = Vec::new();
    let mut va: u64 = virtual_address;
    let mut pa: u32 = physical_address;
    let n = code.len();
    for i in 0..n
        invariant
            n == code@.len(),
            r@.len() == i,
            va == vaddr_at(virtual_address, i as int),
            pa == paddr_at(physical_address, i as int),
            forall|j: int|
                0 <= j < i ==> r@[j] == parsed_at(code@, virtual_address, physical_address, j),
    {
        let w = code[i];
        r.push(ParsedMipsInstruction {
            vaddr: va,
            paddr: pa,
            instr: MipsInstructionBitfield(w),
            op: decode(w),
        });
        va = va.wrapping_add(4);
        pa = pa.wrapping_add(4);
    }
    r
}

} // verus!
