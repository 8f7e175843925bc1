use mips_jit::decoder::parse;
use mips_jit::eval::eval_func;
use mips_jit::ir::IrFunction;
use mips_jit::ir::IrValue;
use mips_jit::ir::Terminator;
use mips_jit::layout::STATE_SLOTS;
use mips_jit::translate::to_ir;
use mips_jit::translate::TranslateError;

fn itype(op: u32, rs: u32, rt: u32, imm: u32) -> u32 {
    (op << 26) | (rs << 21) | (rt << 16) | (imm & 0xFFFF)
}

fn rtype(rs: u32, rt: u32, rd: u32, sa: u32, funct: u32) -> u32 {
    (rs << 21) | (rt << 16) | (rd << 11) | (sa << 6) | funct
}

fn cp0(rs: u32, rt: u32, rd: u32) -> u32 {
    (16 << 26) | (rs << 21) | (rt << 16) | (rd << 11)
}

const BASE: u64 = 0x8000_0000;

fn translate(code: &[u32]) -> IrFunction {
    to_ir(parse(code, BASE, 0x0010_0000)).expect("every opcode in this test has a lowering rule")
}

fn sentinel_mem() -> Vec<u64> {
    (0..STATE_SLOTS as u64).map(|i| 1000 + i).collect()
}

fn run(code: &[u32], mem: Vec<u64>) -> (Vec<u64>, u64, u64, Option<u64>) {
    let f = translate(code);
    let (st, ret) = eval_func(&f, mem).expect("the translated block stays in the pure subset");
    (st.mem, st.resched_calls, st.status_calls, ret)
}

// Guest-state slot indices (byte offset / 8).
const PC: usize = 32;
const NEXT_PC: usize = 33;
const HI: usize = 34;
const LO: usize = 35;
const COUNT: usize = 40;
const STATUS: usize = 43;
const FCR31: usize = 48;

#[test]
fn lui_ori_stores_combined_constant_and_nothing_else() {
    // LUI r1, 0x1234 ; ORI r1, r1, 0x5678
    let code = [0x3C01_1234, 0x3421_5678];
    let initial = vec![0u64; STATE_SLOTS];
    let (mem, resched, status, ret) = run(&code, initial.clone());
    let mut expected = initial;
    expected[1] = 0x0000_0000_1234_5678;
    assert_eq!(mem, expected);
    assert_eq!(ret, Some(2));
    assert_eq!(resched, 0);
    assert_eq!(status, 0);
}

#[test]
fn beq_on_register_zero_commits_taken_target() {
    // BEQ r0, r0, +8 ; NOP — always taken; the only observable effect is the
    // pc/next_pc commit of the taken target.
    let code = [itype(4, 0, 0, 2), 0];
    let initial = sentinel_mem();
    let (mem, _, _, ret) = run(&code, initial.clone());
    let mut expected = initial;
    expected[PC] = BASE + 12;
    expected[NEXT_PC] = BASE + 16;
    assert_eq!(mem, expected);
    assert_eq!(ret, Some(2));
}

#[test]
fn division_by_zero_sets_architectural_results() {
    // DIV r1, r2 with dividend 5 and divisor 0: LO becomes -1 (dividend sign
    // bit clear), HI the sign-extended dividend.
    let code = [rtype(1, 2, 0, 0, 0x1A)];
    let mut initial = vec![0u64; STATE_SLOTS];
    initial[1] = 0x0000_0005;
    let (mem, _, _, ret) = run(&code, initial);
    assert_eq!(mem[LO], u64::MAX);
    assert_eq!(mem[HI], 5);
    assert_eq!(ret, Some(1));
}

#[test]
fn division_by_zero_negative_dividend_sets_lo_one() {
    let code = [rtype(1, 2, 0, 0, 0x1A)];
    let mut initial = vec![0u64; STATE_SLOTS];
    initial[1] = 0xFFFF_FFFF_FFFF_FFFB;  // -5
    let (mem, _, _, _) = run(&code, initial);
    assert_eq!(mem[LO], 1);
    assert_eq!(mem[HI], 0xFFFF_FFFF_FFFF_FFFB);
}

#[test]
fn mtc0_status_applies_writable_mask() {
    // MTC0 r1, status: only bits of the writable mask come from the value.
    let code = [cp0(4, 1, 12)];
    let mut initial = vec![0u64; STATE_SLOTS];
    initial[1] = 0xFFFF_FFFF;
    initial[STATUS] = 0x1234_5678;
    let (mem, resched, status_calls, _) = run(&code, initial);
    assert_eq!(mem[STATUS], (0x1234_5678 & !0xFF57_FFFFu64) | (0xFFFF_FFFF & 0xFF57_FFFFu64));
    assert_eq!(mem[STATUS], 0xFF77_FFFF);
    assert_eq!(status_calls, 1);
    assert_eq!(resched, 0);
}

#[test]
fn mtc0_count_stores_doubled_value_and_reschedules_once() {
    // MTC0 r1, count stores v << 1 (modulo the 32-bit field) and triggers
    // exactly one reschedule call.
    let code = [cp0(4, 1, 9)];
    let mut initial = vec![0u64; STATE_SLOTS];
    initial[1] = 3;
    let (mem, resched, status_calls, _) = run(&code, initial);
    assert_eq!(mem[COUNT], 6);
    assert_eq!(resched, 1);
    assert_eq!(status_calls, 0);
    // The shift wraps at the field width.
    let code2 = [cp0(4, 1, 9)];
    let mut initial2 = vec![0u64; STATE_SLOTS];
    initial2[1] = 0x8000_0001;
    let (mem2, resched2, _, _) = run(&code2, initial2);
    assert_eq!(mem2[COUNT], 2);
    assert_eq!(resched2, 1);
}

#[test]
fn likely_branch_not_taken_returns_early_and_skips_delay_slot() {
    // BNEL r0, r0, +8 is never taken; the delay slot (LUI r1) must not
    // execute and the block returns with the count through the branch alone.
    let code = [itype(21, 0, 0, 2), 0x3C01_1234];
    let initial = sentinel_mem();
    let (mem, _, _, ret) = run(&code, initial.clone());
    let mut expected = initial;
    expected[PC] = BASE + 8;
    expected[NEXT_PC] = BASE + 12;
    assert_eq!(mem, expected);
    assert_eq!(mem[1], 1001);  // the delay-slot write never happened
    assert_eq!(ret, Some(1));
}

#[test]
fn normal_branch_not_taken_still_executes_delay_slot() {
    // BNE r0, r0, +8 is never taken, but its delay slot (LUI r1) executes on
    // the not-taken path as well.
    let code = [itype(5, 0, 0, 2), 0x3C01_1234];
    let initial = vec![0u64; STATE_SLOTS];
    let (mem, _, _, ret) = run(&code, initial);
    assert_eq!(mem[1], 0x1234_0000);
    assert_eq!(mem[PC], BASE + 8);
    assert_eq!(mem[NEXT_PC], BASE + 12);
    assert_eq!(ret, Some(2));
}

#[test]
fn branch_weaves_two_sealed_successors_onto_one_continuation() {
    // The woven graph of a non-likely branch: both successors jump into the
    // continuation block, where the delay slot is lowered.
    let f = translate(&[itype(4, 0, 0, 2), 0]);
    assert_eq!(f.blocks.len(), 4);
    assert_eq!(f.blocks[1].term, Some(Terminator::Jump(3)));
    assert_eq!(f.blocks[2].term, Some(Terminator::Jump(3)));
    assert_eq!(f.blocks[1].ops.len(), 3);
    assert_eq!(f.blocks[2].ops.len(), 3);
    assert_ne!(f.blocks[1].ops, f.blocks[2].ops);
}

#[test]
fn likely_branch_seals_not_taken_with_early_return() {
    let f = translate(&[itype(20, 0, 0, 2), 0]);
    assert_eq!(f.blocks[1].term, Some(Terminator::Jump(3)));
    assert_eq!(f.blocks[2].term, Some(Terminator::Ret(Some(IrValue::Const(1)))));
}

#[test]
fn jal_writes_link_register_past_delay_slot() {
    // JAL to 0x8000_0100 from BASE: the link register takes BASE + 8.
    let code = [(3 << 26) | 0x40, 0];
    let initial = vec![0u64; STATE_SLOTS];
    let (mem, _, _, ret) = run(&code, initial);
    assert_eq!(mem[31], BASE + 8);
    assert_eq!(mem[PC], 0x8000_0100);
    assert_eq!(mem[NEXT_PC], 0x8000_0104);
    assert_eq!(ret, Some(2));
}

#[test]
fn jr_commits_register_target() {
    let code = [rtype(1, 0, 0, 0, 8)];
    let mut initial = vec![0u64; STATE_SLOTS];
    initial[1] = 0xFFFF_FFFF_8765_4320;
    let (mem, _, _, _) = run(&code, initial);
    assert_eq!(mem[PC], 0xFFFF_FFFF_8765_4320);
    assert_eq!(mem[NEXT_PC], 0xFFFF_FFFF_8765_4324);
}

#[test]
fn addiu_sign_extends_word_result() {
    // ADDIU r1, r0, -1 leaves the full 64-bit sign extension of 0xFFFFFFFF.
    let code = [itype(9, 0, 1, 0xFFFF)];
    let (mem, _, _, _) = run(&code, vec![0u64; STATE_SLOTS]);
    assert_eq!(mem[1], u64::MAX);
}

#[test]
fn sll_shifts_word_and_sign_extends() {
    // SLL r2, r1, 16 of 0x8000 gives 0x80000000, sign-extended.
    let code = [rtype(0, 1, 2, 16, 0)];
    let mut initial = vec![0u64; STATE_SLOTS];
    initial[1] = 0x8000;
    let (mem, _, _, _) = run(&code, initial);
    assert_eq!(mem[2], 0xFFFF_FFFF_8000_0000);
}

#[test]
fn sra_shifts_whole_register_then_sign_extends_low_word() {
    // SRA r2, r1, 4: the full 64-bit value shifts right, then the low word
    // is sign-extended.
    let code = [rtype(0, 1, 2, 4, 3)];
    let mut initial = vec![0u64; STATE_SLOTS];
    initial[1] = 0x0000_0001_8000_0000;
    let (mem, _, _, _) = run(&code, initial);
    assert_eq!(mem[2], 0x0000_0000_1800_0000);
}

#[test]
fn slt_and_sltu_compare_signed_and_unsigned() {
    // SLT r3, r1, r2 with r1 = -1 and r2 = 1.
    let code = [rtype(1, 2, 3, 0, 0x2A), rtype(1, 2, 4, 0, 0x2B)];
    let mut initial = vec![0u64; STATE_SLOTS];
    initial[1] = u64::MAX;
    initial[2] = 1;
    let (mem, _, _, _) = run(&code, initial);
    assert_eq!(mem[3], 1);  // signed: -1 < 1
    assert_eq!(mem[4], 0);  // unsigned: MAX > 1
}

#[test]
fn mfc0_reads_status_sign_extended() {
    let code = [cp0(0, 1, 12)];
    let mut initial = vec![0u64; STATE_SLOTS];
    initial[STATUS] = 0x8000_0000;
    let (mem, _, _, _) = run(&code, initial);
    assert_eq!(mem[1], 0xFFFF_FFFF_8000_0000);
}

#[test]
fn ctc1_masks_control_register_31() {
    // CTC1 r1, fcr31 keeps only the defined control bits.
    let code = [(17 << 26) | (6 << 21) | (1 << 16) | (31 << 11)];
    let mut initial = vec![0u64; STATE_SLOTS];
    initial[1] = 0xFFFF_FFFF;
    let (mem, _, _, _) = run(&code, initial);
    assert_eq!(mem[FCR31], 0x0183_FFFF);
}

#[test]
fn ctc1_to_read_only_register_zero_is_dropped() {
    let code = [(17 << 26) | (6 << 21) | (1 << 16)];
    let initial = sentinel_mem();
    let (mem, _, _, _) = run(&code, initial.clone());
    let mut expected = initial;
    expected[1] = 1001;  // r1 was loaded and flushed back unchanged
    assert_eq!(mem, expected);
}

#[test]
fn unimplemented_opcode_is_reported_with_position_and_word() {
    // LD has no lowering rule yet; the error names the first offender.
    let ld = itype(55, 1, 2, 0);
    let parsed = parse(&[0, ld, ld], BASE, 0);
    match to_ir(parsed) {
        Err(TranslateError::UnimplementedOpcode { index, word }) => {
            assert_eq!(index, 1);
            assert_eq!(word, ld);
        },
        Ok(_) => panic!("an LD must not translate"),
    }
}

#[test]
fn bus_access_leaves_the_pure_subset() {
    // A load goes through the native resolver; the evaluator reports that it
    // cannot follow.
    let code = [itype(35, 1, 2, 0)];
    let f = translate(&code);
    assert!(eval_func(&f, vec![0u64; STATE_SLOTS]).is_none());
}

#[test]
fn translated_function_is_sealed_and_forward_edged() {
    let code = [itype(4, 0, 0, 2), 0, 0x3C01_1234];
    let f = translate(&code);
    for (i, b) in f.blocks.iter().enumerate() {
        match b.term {
            Some(Terminator::Jump(t)) => assert!(i < t && t < f.blocks.len()),
            Some(Terminator::Branch(_, t, e)) => {
                assert!(i < t && t < f.blocks.len());
                assert!(i < e && e < f.blocks.len());
            },
            Some(Terminator::Ret(_)) => {},
            None => panic!("every block of a finished function is sealed"),
        }
        for id in &b.ops {
            assert!(*id < f.arena.len());
        }
    }
}

#[test]
fn empty_run_translates_to_flush_and_return() {
    let f = to_ir(Vec::new()).expect("an empty run translates");
    assert_eq!(f.blocks.len(), 1);
    assert_eq!(f.blocks[0].term, Some(Terminator::Ret(Some(IrValue::Const(0)))));
    let (st, ret) = eval_func(&f, vec![0u64; STATE_SLOTS]).expect("pure");
    assert_eq!(ret, Some(0));
    assert_eq!(st.mem, vec![0u64; STATE_SLOTS]);
}
