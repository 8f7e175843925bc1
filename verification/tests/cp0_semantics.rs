use mips_jit::decoder::parse;
use mips_jit::eval::eval_func;
use mips_jit::layout::STATE_SLOTS;
use mips_jit::translate::to_ir;

fn cp0(rs: u32, rt: u32, rd: u32) -> u32 {
    (16 << 26) | (rs << 21) | (rt << 16) | (rd << 11)
}

fn run(code: &[u32], mem: Vec<u64>) -> (Vec<u64>, u64, u64) {
    let parsed = parse(code, 0x8000_0000, 0);
    let f = to_ir(parsed).expect("supported");
    let (st, _) = eval_func(&f, mem).expect("pure");
    (st.mem, st.resched_calls, st.status_calls)
}

// Guest-state slot indices (byte offset / 8).
const ENTRY_LO0: usize = 37;
const PAGE_MASK: usize = 39;
const ENTRY_HI: usize = 41;
const CAUSE: usize = 44;
const TAG_LO: usize = 45;
const INDEX: usize = 36;

#[test]
fn mtc0_compare_clears_pending_timer_interrupt_and_reschedules() {
    // MTC0 r1, compare lowers bit 15 of cause and reschedules exactly once.
    let code = [cp0(4, 1, 11)];
    let mut initial = vec![0u64; STATE_SLOTS];
    initial[CAUSE] = 0xFFFF_FFFF;
    let (mem, resched, status) = run(&code, initial);
    assert_eq!(mem[CAUSE], 0xFFFF_7FFF);
    assert_eq!(resched, 1);
    assert_eq!(status, 0);
}

#[test]
fn mtc0_cause_updates_software_interrupt_bits_only() {
    let code = [cp0(4, 1, 13)];
    let mut initial = vec![0u64; STATE_SLOTS];
    initial[1] = 0xFFFF_FFFF;
    initial[CAUSE] = 0x8000_0045;
    let (mem, resched, _) = run(&code, initial);
    assert_eq!(mem[CAUSE], 0x8000_0345);
    assert_eq!(resched, 0);
}

#[test]
fn mtc0_entry_hi_applies_mask_to_sign_extended_value() {
    let code = [cp0(4, 1, 10)];
    let mut initial = vec![0u64; STATE_SLOTS];
    initial[1] = 0xFFFF_FFFF;
    let (mem, _, _) = run(&code, initial);
    assert_eq!(mem[ENTRY_HI], 0xC000_00FF_FFFF_E0FF);
}

#[test]
fn mtc0_page_mask_keeps_writable_bits() {
    let code = [cp0(4, 1, 5)];
    let mut initial = vec![0u64; STATE_SLOTS];
    initial[1] = 0xFFFF_FFFF;
    let (mem, _, _) = run(&code, initial);
    assert_eq!(mem[PAGE_MASK], 0x01FF_E000);
}

#[test]
fn mtc0_pass_through_registers_store_the_low_word() {
    // tag-lo, entry-lo0 and index store the value unmasked (32-bit field).
    let code = [cp0(4, 1, 28), cp0(4, 1, 2), cp0(4, 1, 0)];
    let mut initial = vec![0u64; STATE_SLOTS];
    initial[1] = 0xABCD_1234_5678_9ABC;
    let (mem, _, _) = run(&code, initial);
    assert_eq!(mem[TAG_LO], 0x5678_9ABC);
    assert_eq!(mem[ENTRY_LO0], 0x5678_9ABC);
    assert_eq!(mem[INDEX], 0x5678_9ABC);
}

#[test]
fn mfc0_entry_hi_reads_sign_extended_word() {
    let code = [cp0(0, 1, 10)];
    let mut initial = vec![0u64; STATE_SLOTS];
    initial[ENTRY_HI] = 0xC000_00FF_8000_0000;
    let (mem, _, _) = run(&code, initial);
    // Only the low 32 bits are loaded, sign-extended.
    assert_eq!(mem[1], 0xFFFF_FFFF_8000_0000);
}

#[test]
fn cfc1_reads_control_register_31() {
    let code = [(17 << 26) | (2 << 21) | (1 << 16) | (31 << 11)];
    let mut initial = vec![0u64; STATE_SLOTS];
    initial[48] = 0x0183_0000;
    let (mem, _, _) = run(&code, initial);
    assert_eq!(mem[1], 0x0183_0000);
}
