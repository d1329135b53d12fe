use vstd::prelude::*;
use crate::cpu::{cycle_spec, Cpu, Mode, reset_xregs};
use crate::trap::Exception;

verus! {

/// An emulated machine: one hart and the memory behind its bus.
#[derive(Debug)]
pub struct Emu {
    pub cpu: Cpu,
}

impl Emu {
    /// A machine at reset with `ram` bytes of zeroed DRAM.
    pub fn new(ram: usize) -> (r: Emu)
        ensures
            r.cpu.pc == 0,
            r.cpu.mode == Mode::Machine,
            r.cpu.xregs@ == reset_xregs(),
            r.cpu.state@ == crate::csr::reset_regs(),
            r.cpu.bus.dram@ == Seq::new(ram as nat, |i: int| 0u8),
    {
        Emu { cpu: Cpu::new(ram) }
    }

    /// Copies `dram` to the start of memory.
    pub fn with_dram(&mut self, dram: &[u8]) -> (r: &mut Self)
        requires
            dram@.len() <= old(self).cpu.bus.dram@.len(),
        ensures
            r.cpu.bus.dram@ == dram@ + old(self).cpu.bus.dram@.subrange(
                dram@.len() as int,
                old(self).cpu.bus.dram@.len() as int,
            ),
            r.cpu.pc == old(self).cpu.pc,
            r.cpu.mode == old(self).cpu.mode,
            r.cpu.xregs == old(self).cpu.xregs,
            r.cpu.state == old(self).cpu.state,
            r.cpu.bus.vga == old(self).cpu.bus.vga,
            *final(self) == *final(r),
    {
        self.cpu.bus.dram.init(dram);
        self
    }

    pub fn with_pc(&mut self, pc: u64) -> (r: &mut Self)
        ensures
            *r == (Emu { cpu: Cpu { pc, ..old(self).cpu } }),
            *final(self) == *final(r),
    {
        self.cpu.pc = pc;
        self
    }

    /// Runs one cycle of the hart.
    pub fn cycle(&mut self) -> (r: Result<u64, Exception>)
        ensures
            (r, final(self).cpu@) == cycle_spec(old(self).cpu@),
            final(self).cpu.xregs@[0] == 0,
    {
        self.cpu.execute()
    }
}

} // verus!
