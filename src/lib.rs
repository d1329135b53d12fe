pub mod bus;
pub mod cpu;
pub mod csr;
pub mod dev;
pub mod dram;
pub mod emu;
pub mod inst;
pub mod snapshot;
pub mod trap;
pub mod utils;

pub use bus::Bus;
pub use cpu::{Cpu, Mode, Xregs, POINTER_TO_DTB, REG_COUNT};
pub use csr::State;
pub use dram::{Dram, DRAM_SIZE};
pub use emu::Emu;
pub use trap::{Exception, Trap};
