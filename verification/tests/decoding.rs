use mips_jit::decoder::decode;
use mips_jit::decoder::parse;
use mips_jit::decoder::BranchCondition;
use mips_jit::decoder::BranchInfo;
use mips_jit::decoder::MipsInstructionBitfield;
use mips_jit::decoder::MipsOpcode;

fn itype(op: u32, rs: u32, rt: u32, imm: u32) -> u32 {
    (op << 26) | (rs << 21) | (rt << 16) | (imm & 0xFFFF)
}

fn rtype(rs: u32, rt: u32, rd: u32, sa: u32, funct: u32) -> u32 {
    (rs << 21) | (rt << 16) | (rd << 11) | (sa << 6) | funct
}

#[test]
fn fields_match_documented_bit_ranges() {
    let w = MipsInstructionBitfield(0x3C01_1234);
    assert_eq!(w.raw(), 0x3C01_1234);
    assert_eq!(w.rs(), 0);
    assert_eq!(w.rt(), 1);
    assert_eq!(w.imm(), 0x1234);
    let r = MipsInstructionBitfield(rtype(3, 7, 9, 16, 0x20));
    assert_eq!(r.rs(), 3);
    assert_eq!(r.rt(), 7);
    assert_eq!(r.rd(), 9);
    assert_eq!(r.sa(), 16);
    let j = MipsInstructionBitfield((2 << 26) | 0x03FF_FFFF);
    assert_eq!(j.j_target(), 0x03FF_FFFF);
}

#[test]
fn decode_classifies_known_opcodes() {
    assert_eq!(decode(0), MipsOpcode::NOP);
    assert_eq!(decode(itype(15, 0, 1, 0x1234)), MipsOpcode::LUI);
    assert_eq!(decode(itype(13, 1, 1, 0x5678)), MipsOpcode::ORI);
    assert_eq!(decode(rtype(1, 2, 3, 0, 0x20)), MipsOpcode::ADD);
    assert_eq!(decode(rtype(1, 2, 0, 0, 0x1A)), MipsOpcode::DIV);
    assert_eq!(decode((16 << 26) | (4 << 21) | (1 << 16) | (12 << 11)), MipsOpcode::MTC0);
    assert_eq!(decode((17 << 26) | (2 << 21) | (1 << 16) | (31 << 11)), MipsOpcode::CFC1);
    assert_eq!(decode((16 << 26) | (16 << 21) | 2), MipsOpcode::TLBWI);
}

#[test]
fn decode_folds_branches() {
    assert_eq!(
        decode(itype(4, 0, 0, 2)),
        MipsOpcode::BRANCH(BranchInfo { cond: BranchCondition::EQ, likely: false, link: false })
    );
    assert_eq!(
        decode(itype(21, 1, 0, 2)),
        MipsOpcode::BRANCH(BranchInfo { cond: BranchCondition::NE, likely: true, link: false })
    );
    assert_eq!(
        decode(itype(7, 1, 0, 2)),
        MipsOpcode::BRANCH(BranchInfo { cond: BranchCondition::GTZ, likely: false, link: false })
    );
    // REGIMM: BGEZAL is a linking, non-likely branch on >= zero.
    assert_eq!(
        decode(itype(1, 3, 17, 2)),
        MipsOpcode::BRANCH(BranchInfo { cond: BranchCondition::GEZ, likely: false, link: true })
    );
    // REGIMM: BLTZALL is a linking likely branch on < zero.
    assert_eq!(
        decode(itype(1, 3, 18, 2)),
        MipsOpcode::BRANCH(BranchInfo { cond: BranchCondition::LTZ, likely: true, link: true })
    );
}

#[test]
fn decode_is_total_with_explicit_marker() {
    // CP2 has no lowering; an out-of-table REGIMM code and an out-of-table
    // special function code decode to the marker instead of misparsing.
    assert_eq!(decode(18 << 26), MipsOpcode::Unimplemented);
    assert_eq!(decode(itype(1, 0, 5, 0)), MipsOpcode::Unimplemented);
    assert_eq!(decode(rtype(0, 0, 0, 0, 1) | (1 << 21)), MipsOpcode::Unimplemented);
}

#[test]
fn decode_is_deterministic() {
    let words = [0u32, 0x3C01_1234, 0xDEAD_BEEF, 0x1000_0002, 0xFFFF_FFFF];
    for w in words {
        assert_eq!(decode(w), decode(w));
    }
}

#[test]
fn parse_assigns_consecutive_addresses() {
    let code = [0x3C01_1234u32, 0x3421_5678u32, 0u32];
    let parsed = parse(&code, 0x8000_0000, 0x0010_0000);
    assert_eq!(parsed.len(), 3);
    assert_eq!(parsed[0].vaddr, 0x8000_0000);
    assert_eq!(parsed[1].vaddr, 0x8000_0004);
    assert_eq!(parsed[2].vaddr, 0x8000_0008);
    assert_eq!(parsed[0].paddr, 0x0010_0000);
    assert_eq!(parsed[2].paddr, 0x0010_0008);
    assert_eq!(parsed[1].instr.raw(), 0x3421_5678);
    assert_eq!(parsed[0].op, MipsOpcode::LUI);
    assert_eq!(parsed[2].op, MipsOpcode::NOP);
}

#[test]
fn parse_wraps_addresses() {
    let code = [0u32, 0u32];
    let parsed = parse(&code, u64::MAX - 3, u32::MAX - 3);
    assert_eq!(parsed[1].vaddr, 0);
    assert_eq!(parsed[1].paddr, 0);
}
