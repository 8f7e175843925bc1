use mips_jit::ir::IrFunction;
use mips_jit::ir::IrInstruction;
use mips_jit::ir::IrSize;
use mips_jit::ir::IrValue;
use mips_jit::layout::MULT_HI_OFFSET;
use mips_jit::regcache::GuestRegisterManager;

fn one_block_function() -> (IrFunction, usize) {
    let mut f = IrFunction::new();
    let b = f.new_block();
    (f, b)
}

#[test]
fn second_read_emits_no_load() {
    let (mut f, b) = one_block_function();
    let mut cache = GuestRegisterManager::new();
    let first = cache.get_gpr(&mut f, b, 5);
    assert_eq!(f.arena.len(), 1);
    assert_eq!(f.arena[0], IrInstruction::GetPtr(40, IrSize::U64));
    let second = cache.get_gpr(&mut f, b, 5);
    assert_eq!(f.arena.len(), 1);
    assert_eq!(first, second);
}

#[test]
fn two_writes_flush_once_with_last_value() {
    let (mut f, b) = one_block_function();
    let mut cache = GuestRegisterManager::new();
    cache.set_gpr(3, IrValue::Const(5));
    cache.set_gpr(3, IrValue::Const(7));
    cache.flush_all(&mut f, b);
    let stores: Vec<&IrInstruction> = f
        .arena
        .iter()
        .filter(|op| matches!(op, IrInstruction::SetPtr(24, _, _)))
        .collect();
    assert_eq!(stores.len(), 1);
    assert_eq!(*stores[0], IrInstruction::SetPtr(24, IrSize::U64, IrValue::Const(7)));
}

#[test]
fn register_zero_reads_constant_and_discards_writes() {
    let (mut f, b) = one_block_function();
    let mut cache = GuestRegisterManager::new();
    let zero = cache.get_gpr(&mut f, b, 0);
    assert_eq!(zero, IrValue::Const(0));
    assert_eq!(f.arena.len(), 0);
    cache.set_gpr(0, IrValue::Const(9));
    cache.flush_all(&mut f, b);
    assert_eq!(f.arena.len(), 0);
}

#[test]
fn hi_slot_is_lazily_loaded_once() {
    let (mut f, b) = one_block_function();
    let mut cache = GuestRegisterManager::new();
    let first = cache.get_hi(&mut f, b);
    assert_eq!(f.arena.len(), 1);
    assert_eq!(f.arena[0], IrInstruction::GetPtr(MULT_HI_OFFSET, IrSize::U64));
    let second = cache.get_hi(&mut f, b);
    assert_eq!(f.arena.len(), 1);
    assert_eq!(first, second);
}

#[test]
fn flush_clears_the_cache() {
    let (mut f, b) = one_block_function();
    let mut cache = GuestRegisterManager::new();
    cache.set_gpr(4, IrValue::Const(11));
    cache.set_lo(IrValue::Const(12));
    cache.flush_all(&mut f, b);
    assert_eq!(f.arena.len(), 2);
    // A second flush has nothing left to write.
    cache.flush_all(&mut f, b);
    assert_eq!(f.arena.len(), 2);
}
