use mips_jit::decoder::parse;
use mips_jit::eval::eval_func;
use mips_jit::layout::STATE_SLOTS;
use mips_jit::translate::to_ir;

fn itype(op: u32, rs: u32, rt: u32, imm: u32) -> u32 {
    (op << 26) | (rs << 21) | (rt << 16) | (imm & 0xFFFF)
}

fn rtype(rs: u32, rt: u32, rd: u32, sa: u32, funct: u32) -> u32 {
    (rs << 21) | (rt << 16) | (rd << 11) | (sa << 6) | funct
}

fn run(code: &[u32], mem: Vec<u64>) -> (Vec<u64>, Option<u64>) {
    let parsed = parse(code, 0x8000_0000, 0);
    let f = to_ir(parsed).expect("supported");
    let (st, ret) = eval_func(&f, mem).expect("pure");
    (st.mem, ret)
}

#[test]
fn andi_zero_extends_the_immediate() {
    let code = [itype(12, 2, 1, 0xF0F0)];
    let mut initial = vec![0u64; STATE_SLOTS];
    initial[2] = 0xFFFF_FFFF_FFFF_0F0F;
    let (mem, _) = run(&code, initial);
    assert_eq!(mem[1], 0x0000);
}

#[test]
fn ori_and_xori_operate_on_the_full_register() {
    let code = [itype(13, 2, 1, 0x00FF), itype(14, 2, 3, 0xFFFF)];
    let mut initial = vec![0u64; STATE_SLOTS];
    initial[2] = 0x8000_0000_0000_FF00;
    let (mem, _) = run(&code, initial);
    assert_eq!(mem[1], 0x8000_0000_0000_FFFF);
    assert_eq!(mem[3], 0x8000_0000_0000_00FF);
}

#[test]
fn add_wraps_at_word_width_and_sign_extends() {
    // ADD r3, r1, r2 with 0x7FFFFFFF + 1: the word result wraps to
    // 0x80000000 and is sign-extended (overflow traps are not modelled).
    let code = [rtype(1, 2, 3, 0, 0x20)];
    let mut initial = vec![0u64; STATE_SLOTS];
    initial[1] = 0x7FFF_FFFF;
    initial[2] = 1;
    let (mem, _) = run(&code, initial);
    assert_eq!(mem[3], 0xFFFF_FFFF_8000_0000);
}

#[test]
fn sub_word_form() {
    let code = [rtype(1, 2, 3, 0, 0x22)];
    let mut initial = vec![0u64; STATE_SLOTS];
    initial[1] = 3;
    initial[2] = 5;
    let (mem, _) = run(&code, initial);
    assert_eq!(mem[3], 0xFFFF_FFFF_FFFF_FFFE);
}

#[test]
fn daddi_operates_on_the_full_doubleword() {
    let code = [itype(24, 1, 2, 0xFFFF)];
    let mut initial = vec![0u64; STATE_SLOTS];
    initial[1] = 0x1_0000_0000;
    let (mem, _) = run(&code, initial);
    assert_eq!(mem[2], 0x0_FFFF_FFFF);
}

#[test]
fn sltiu_compares_against_sign_extended_immediate() {
    // SLTIU r2, r1, -1: the immediate sign-extends to u64::MAX, so almost
    // everything is below it.
    let code = [itype(11, 1, 2, 0xFFFF)];
    let mut initial = vec![0u64; STATE_SLOTS];
    initial[1] = 7;
    let (mem, _) = run(&code, initial);
    assert_eq!(mem[2], 1);
}

#[test]
fn srl_is_a_logical_word_shift() {
    let code = [rtype(0, 1, 2, 4, 2)];
    let mut initial = vec![0u64; STATE_SLOTS];
    initial[1] = 0x8000_0000;
    let (mem, _) = run(&code, initial);
    assert_eq!(mem[2], 0x0800_0000);
}

#[test]
fn sllv_masks_the_variable_shift_amount() {
    // SLLV r3, r2, r1 with r1 = 33: only the low five bits count, so the
    // word shifts by one.
    let code = [rtype(1, 2, 3, 0, 4)];
    let mut initial = vec![0u64; STATE_SLOTS];
    initial[1] = 33;
    initial[2] = 0x0000_4001;
    let (mem, _) = run(&code, initial);
    assert_eq!(mem[3], 0x0000_8002);
}

#[test]
fn srlv_shifts_the_word_logically() {
    let code = [rtype(1, 2, 3, 0, 6)];
    let mut initial = vec![0u64; STATE_SLOTS];
    initial[1] = 1;
    initial[2] = 0xFFFF_FFFF;
    let (mem, _) = run(&code, initial);
    assert_eq!(mem[3], 0x7FFF_FFFF);
}

#[test]
fn jalr_writes_the_named_link_register() {
    // JALR r5, r1: the target comes from r1, the return address lands in r5.
    let code = [rtype(1, 0, 5, 0, 9), 0];
    let mut initial = vec![0u64; STATE_SLOTS];
    initial[1] = 0x9000_0000;
    let (mem, ret) = run(&code, initial);
    assert_eq!(mem[32], 0x9000_0000);
    assert_eq!(mem[33], 0x9000_0004);
    assert_eq!(mem[5], 0x8000_0008);
    assert_eq!(ret, Some(2));
}

#[test]
fn cache_and_tlbwi_are_no_ops() {
    let code = [itype(47, 0, 0, 0), (16 << 26) | (16 << 21) | 2];
    let initial: Vec<u64> = (0..STATE_SLOTS as u64).map(|i| 2000 + i).collect();
    let (mem, ret) = run(&code, initial.clone());
    assert_eq!(mem, initial);
    assert_eq!(ret, Some(2));
}

#[test]
fn and_or_xor_register_forms() {
    let code = [rtype(1, 2, 3, 0, 0x24), rtype(1, 2, 4, 0, 0x25), rtype(1, 2, 6, 0, 0x26)];
    let mut initial = vec![0u64; STATE_SLOTS];
    initial[1] = 0xFF00_FF00_FF00_FF00;
    initial[2] = 0x0F0F_0F0F_0F0F_0F0F;
    let (mem, _) = run(&code, initial);
    assert_eq!(mem[3], 0x0F00_0F00_0F00_0F00);
    assert_eq!(mem[4], 0xFF0F_FF0F_FF0F_FF0F);
    assert_eq!(mem[6], 0xF00F_F00F_F00F_F00F);
}

#[test]
fn mult_produces_signed_split_product() {
    // MULT r1, r2 ; MFLO r3 ; MFHI r4 with -3 * 5 = -15.
    let code = [rtype(1, 2, 0, 0, 0x18), rtype(0, 0, 3, 0, 0x12), rtype(0, 0, 4, 0, 0x10)];
    let mut initial = vec![0u64; STATE_SLOTS];
    initial[1] = 0xFFFF_FFFF_FFFF_FFFD;
    initial[2] = 5;
    let (mem, _) = run(&code, initial);
    assert_eq!(mem[3], 0xFFFF_FFFF_FFFF_FFF1);
    assert_eq!(mem[4], u64::MAX);
}

#[test]
fn multu_produces_unsigned_split_product() {
    // MULTU of 0xFFFFFFFF × 0xFFFFFFFF = 0xFFFFFFFE_00000001.
    let code = [rtype(1, 2, 0, 0, 0x19), rtype(0, 0, 3, 0, 0x12), rtype(0, 0, 4, 0, 0x10)];
    let mut initial = vec![0u64; STATE_SLOTS];
    initial[1] = 0xFFFF_FFFF;
    initial[2] = 0xFFFF_FFFF;
    let (mem, _) = run(&code, initial);
    assert_eq!(mem[3], 1);
    assert_eq!(mem[4], 0xFFFF_FFFF_FFFF_FFFE);
}

#[test]
fn div_truncates_toward_zero_with_dividend_sign_remainder() {
    // DIV r1, r2 with 7 / -2: quotient -3, remainder 1 (sign of dividend).
    let code = [rtype(1, 2, 0, 0, 0x1A)];
    let mut initial = vec![0u64; STATE_SLOTS];
    initial[1] = 7;
    initial[2] = 0xFFFF_FFFF_FFFF_FFFE;
    let (mem, _) = run(&code, initial);
    assert_eq!(mem[35], 0xFFFF_FFFF_FFFF_FFFD);  // LO = -3
    assert_eq!(mem[34], 1);  // HI = 1
}

#[test]
fn div_overflow_wraps_architecturally() {
    // The smallest word divided by -1 wraps back to itself; no fault.
    let code = [rtype(1, 2, 0, 0, 0x1A)];
    let mut initial = vec![0u64; STATE_SLOTS];
    initial[1] = 0xFFFF_FFFF_8000_0000;
    initial[2] = u64::MAX;
    let (mem, _) = run(&code, initial);
    assert_eq!(mem[35], 0xFFFF_FFFF_8000_0000);
    assert_eq!(mem[34], 0);
}
