use vstd::prelude::*;
use crate::dram::{mem_load, mem_store, Dram};
use crate::trap::Exception;

verus! {

pub const VGA_WIDTH: u64 = 224;

pub const VGA_HEIGHT: u64 = 126;

/// A memory-mapped framebuffer of three bytes per pixel.
#[derive(Debug)]
pub struct Vga {
    pub buf: Dram,
}

impl Vga {
    pub const SIZE: u64 = 3 * VGA_WIDTH * VGA_HEIGHT;

    pub fn new() -> (r: Vga)
        ensures
            r.buf@ == Seq::new(Self::SIZE as nat, |i: int| 0u8),
    {
        Vga { buf: Dram::with_capacity(Self::SIZE as usize) }
    }

    pub fn load(&self, addr: u64, size: u8) -> (r: Result<u64, Exception>)
        ensures
            r == mem_load(self.buf@, addr, size),
    {
        self.buf.load(addr, size)
    }

    pub fn store(&mut self, addr: u64, value: u64, size: u8) -> (r: Result<(), Exception>)
        ensures
            match mem_store(old(self).buf@, addr, value, size) {
                Ok(s) => r == Ok::<(), Exception>(()) && final(self).buf@ == s,
                Err(e) => r == Err::<(), Exception>(e) && final(self).buf@ == old(self).buf@,
            },
    {
        self.buf.store(addr, value, size)
    }
}

} // verus!
