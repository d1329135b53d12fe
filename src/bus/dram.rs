use vstd::prelude::*;

verus! {

/// First address of DRAM.
pub const ADDR: u64 = 0x8000_0000;

/// Size of the DRAM window.
pub const SIZE: u64 = crate::dram::DRAM_SIZE;

/// Last address of the DRAM window (inclusive).
pub const END: u64 = ADDR + SIZE;

} // verus!
