//! Byte offsets of the guest CPU-state fields.
//!
//! The translator accesses every guest-state field exclusively by a fixed
//! byte offset from a single base pointer.  Each field occupies its own
//! 8-byte slot here, so an offset divided by eight is the slot index used by
//! the evaluator's memory model.

use vstd::prelude::*;

verus! {

/// First general-purpose register slot; register `r` lives at
/// `GPR_OFFSET + 8 * r` (32 registers of 64 bits each).
pub const GPR_OFFSET: u64 = 0;

/// Program counter committed by a control transfer.
pub const PC_OFFSET: u64 = 256;

/// The following instruction's address, priming the delay-slot fetch.
pub const NEXT_PC_OFFSET: u64 = 264;

/// High half of the multiply/divide result pair.
pub const MULT_HI_OFFSET: u64 = 272;

/// Low half of the multiply/divide result pair.
pub const MULT_LO_OFFSET: u64 = 280;

pub const CP0_INDEX_OFFSET: u64 = 288;

pub const CP0_ENTRY_LO0_OFFSET: u64 = 296;

pub const CP0_ENTRY_LO1_OFFSET: u64 = 304;

pub const CP0_PAGE_MASK_OFFSET: u64 = 312;

pub const CP0_COUNT_OFFSET: u64 = 320;

pub const CP0_ENTRY_HI_OFFSET: u64 = 328;

pub const CP0_COMPARE_OFFSET: u64 = 336;

pub const CP0_STATUS_OFFSET: u64 = 344;

pub const CP0_CAUSE_OFFSET: u64 = 352;

pub const CP0_TAG_LO_OFFSET: u64 = 360;

pub const CP0_TAG_HI_OFFSET: u64 = 368;

/// Floating-point control register 0 (read-only implementation revision).
pub const FCR0_OFFSET: u64 = 376;

/// Floating-point control/status register 31.
pub const FCR31_OFFSET: u64 = 384;

/// Number of 8-byte slots in the guest-state model.
pub const STATE_SLOTS: usize = 49;

/// Offset of general-purpose register `r`.
pub open spec fn gpr_offset(r: int) -> int {
    GPR_OFFSET + 8 * r
}

/// Executable form of [`gpr_offset`].
pub fn gpr_offset_of(r: u8) -> (o: u64)
    requires
        r < 32,
    ensures
        o == gpr_offset(r as int),
{
    GPR_OFFSET + 8 * (r as u64)
}

} // verus!
