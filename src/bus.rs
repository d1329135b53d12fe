use vstd::prelude::*;
use crate::dev::vga::Vga;
use crate::dram::{low_bits, mem_load, mem_store, size_bytes, lemma_le_round_trip, Dram};
use crate::trap::Exception;

pub mod dram;
pub mod vga;

verus! {

/// Whether `addr` falls in the framebuffer window.
pub open spec fn in_vga(addr: u64) -> bool {
    vga::ADDR <= addr <= vga::END
}

/// Whether `addr` falls in the DRAM window.
pub open spec fn in_dram(addr: u64) -> bool {
    dram::ADDR <= addr <= dram::END
}

/// What a load of `size` bits at the physical address `addr` gives.
pub open spec fn bus_load(fb: Seq<u8>, mem: Seq<u8>, addr: u64, size: u8) -> Result<
    u64,
    Exception,
> {
    if in_vga(addr) {
        mem_load(fb, (addr - vga::ADDR) as u64, size)
    } else if in_dram(addr) {
        mem_load(mem, (addr - dram::ADDR) as u64, size)
    } else {
        Err(Exception::LoadAccessFault)
    }
}

/// What a store of `size` bits of `value` at the physical address `addr` does to the
/// framebuffer and DRAM bytes.
pub open spec fn bus_store(fb: Seq<u8>, mem: Seq<u8>, addr: u64, value: u64, size: u8) -> Result<
    (Seq<u8>, Seq<u8>),
    Exception,
> {
    if in_vga(addr) {
        match mem_store(fb, (addr - vga::ADDR) as u64, value, size) {
            Ok(s) => Ok((s, mem)),
            Err(e) => Err(e),
        }
    } else if in_dram(addr) {
        match mem_store(mem, (addr - dram::ADDR) as u64, value, size) {
            Ok(s) => Ok((fb, s)),
            Err(e) => Err(e),
        }
    } else {
        Err(Exception::StoreAMOAccessFault)
    }
}

/// A store to DRAM followed by a load of the same size at the same address gives back the
/// low `size` bits of the stored value.
pub proof fn lemma_dram_store_then_load(
    fb: Seq<u8>,
    mem: Seq<u8>,
    addr: u64,
    value: u64,
    size: u8,
)
    requires
        size_bytes(size) != 0,
        in_dram(addr),
        addr - dram::ADDR + size_bytes(size) <= mem.len(),
    ensures
        bus_store(fb, mem, addr, value, size) is Ok,
        bus_load(
            bus_store(fb, mem, addr, value, size)->Ok_0.0,
            bus_store(fb, mem, addr, value, size)->Ok_0.1,
            addr,
            size,
        ) == Ok::<u64, Exception>(low_bits(value, size as nat)),
{
    let a = (addr - dram::ADDR) as u64;
    lemma_le_round_trip(mem, a as int, value, size_bytes(size));
}

/// The system bus: dispatches physical addresses to the devices behind it.
#[derive(Debug)]
pub struct Bus {
    pub vga: Vga,
    pub dram: Dram,
}

impl Bus {
    /// A bus with a blank framebuffer and `cap` bytes of zeroed DRAM.
    pub fn new(cap: usize) -> (r: Bus)
        ensures
            r.vga.buf@ == Seq::new(Vga::SIZE as nat, |i: int| 0u8),
            r.dram@ == Seq::new(cap as nat, |i: int| 0u8),
    {
        Bus { vga: Vga::new(), dram: Dram::with_capacity(cap) }
    }

    pub fn load(&self, addr: u64, size: u8) -> (r: Result<u64, Exception>)
        ensures
            r == bus_load(self.vga.buf@, self.dram@, addr, size),
    {
        if vga::ADDR <= addr && addr <= vga::END {
            self.vga.load(addr - vga::ADDR, size)
        } else if dram::ADDR <= addr && addr <= dram::END {
            self.dram.load(addr - dram::ADDR, size)
        } else {
            Err(Exception::LoadAccessFault)
        }
    }

    pub fn store(&mut self, addr: u64, value: u64, size: u8) -> (r: Result<(), Exception>)
        ensures
            match bus_store(old(self).vga.buf@, old(self).dram@, addr, value, size) {
                Ok((fb, mem)) => r == Ok::<(), Exception>(()) && final(self).vga.buf@ == fb
                    && final(self).dram@ == mem,
                Err(e) => r == Err::<(), Exception>(e) && final(self).vga.buf@ == old(
                    self,
                ).vga.buf@ && final(self).dram@ == old(self).dram@,
            },
    {
        if vga::ADDR <= addr && addr <= vga::END {
            self.vga.store(addr - vga::ADDR, value, size)
        } else if dram::ADDR <= addr && addr <= dram::END {
            self.dram.store(addr - dram::ADDR, value, size)
        } else {
            Err(Exception::StoreAMOAccessFault)
        }
    }
}

} // verus!
