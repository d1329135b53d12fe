use vstd::prelude::*;
use crate::trap::Exception;

verus! {

/// Size in bytes of the physical address window reserved for DRAM.
pub const DRAM_SIZE: u64 = 1024 * 1024 * 1024;

/// Access sizes, in bits.
pub const BYTE: u8 = 8;

pub const HALF: u8 = 16;

pub const WORD: u8 = 32;

pub const DWORD: u8 = 64;

/// The number of bytes of an access of `size` bits, or 0 for an unsupported size.
pub open spec fn size_bytes(size: u8) -> nat {
    if size == BYTE {
        1
    } else if size == HALF {
        2
    } else if size == WORD {
        4
    } else if size == DWORD {
        8
    } else {
        0
    }
}

/// The little-endian value of the `n` bytes of `s` that start at `a`.
pub open spec fn le_value(s: Seq<u8>, a: int, n: nat) -> u64
    decreases n,
{
    if n == 0 {
        0
    } else {
        (le_value(s, a + 1, (n - 1) as nat) << 8u64) | (s[a] as u64)
    }
}

/// Byte `i` of `v`, counting from the least significant.
pub open spec fn byte_of(v: u64, i: nat) -> u8 {
    ((v >> ((8 * i) as u64)) & 0xff) as u8
}

/// `s` with the low `n` bytes of `v` written little-endian at `a`.
pub open spec fn write_le(s: Seq<u8>, a: int, v: u64, n: nat) -> Seq<u8> {
    Seq::new(s.len(), |i: int| if a <= i < a + n { byte_of(v, (i - a) as nat) } else { s[i] })
}

/// The low `bits` bits of `v`.
pub open spec fn low_bits(v: u64, bits: nat) -> u64 {
    if bits >= 64 {
        v
    } else {
        v & ((1u64 << (bits as u64)) - 1) as u64
    }
}

/// What a load of `size` bits at `addr` gives on the bytes `s`.
pub open spec fn mem_load(s: Seq<u8>, addr: u64, size: u8) -> Result<u64, Exception> {
    if size_bytes(size) == 0 {
        Err(Exception::StoreAMOAccessFault)
    } else if addr + size_bytes(size) > s.len() {
        Err(Exception::LoadAccessFault)
    } else {
        Ok(le_value(s, addr as int, size_bytes(size)))
    }
}

/// What a store of `size` bits of `value` at `addr` does to the bytes `s`.
pub open spec fn mem_store(s: Seq<u8>, addr: u64, value: u64, size: u8) -> Result<
    Seq<u8>,
    Exception,
> {
    if size_bytes(size) == 0 || addr + size_bytes(size) > s.len() {
        Err(Exception::StoreAMOAccessFault)
    } else {
        Ok(write_le(s, addr as int, value, size_bytes(size)))
    }
}

/// Storing a value and loading it back with the same size gives its low `size` bits.
pub proof fn lemma_le_round_trip(s: Seq<u8>, a: int, v: u64, n: nat)
    requires
        n == 1 || n == 2 || n == 4 || n == 8,
        0 <= a,
        a + n <= s.len(),
    ensures
        le_value(write_le(s, a, v, n), a, n) == low_bits(v, 8 * n),
{
    let w = write_le(s, a, v, n);
    reveal_with_fuel(le_value, 9);
    let b0 = w[a] as u64;
    assert(b0 == ((v >> 0u64) & 0xff) as u8 as u64);
    if n == 1 {
        assert((0u64 << 8u64) | b0 == v & ((1u64 << 8u64) - 1) as u64) by (bit_vector)
            requires
                b0 == ((v >> 0u64) & 0xff) as u8 as u64,
        ;
    } else if n == 2 {
        let b1 = w[a + 1] as u64;
        assert(b1 == ((v >> 8u64) & 0xff) as u8 as u64);
        assert((((0u64 << 8u64) | b1) << 8u64) | b0 == v & ((1u64 << 16u64) - 1) as u64)
            by (bit_vector)
            requires
                b0 == ((v >> 0u64) & 0xff) as u8 as u64,
                b1 == ((v >> 8u64) & 0xff) as u8 as u64,
        ;
    } else if n == 4 {
        let b1 = w[a + 1] as u64;
        let b2 = w[a + 2] as u64;
        let b3 = w[a + 3] as u64;
        assert(b1 == ((v >> 8u64) & 0xff) as u8 as u64);
        assert(b2 == ((v >> 16u64) & 0xff) as u8 as u64);
        assert(b3 == ((v >> 24u64) & 0xff) as u8 as u64);
        assert((((((((0u64 << 8u64) | b3) << 8u64) | b2) << 8u64) | b1) << 8u64) | b0 == v & ((
        1u64 << 32u64) - 1) as u64) by (bit_vector)
            requires
                b0 == ((v >> 0u64) & 0xff) as u8 as u64,
                b1 == ((v >> 8u64) & 0xff) as u8 as u64,
                b2 == ((v >> 16u64) & 0xff) as u8 as u64,
                b3 == ((v >> 24u64) & 0xff) as u8 as u64,
        ;
    } else {
        let b1 = w[a + 1] as u64;
        let b2 = w[a + 2] as u64;
        let b3 = w[a + 3] as u64;
        let b4 = w[a + 4] as u64;
        let b5 = w[a + 5] as u64;
        let b6 = w[a + 6] as u64;
        let b7 = w[a + 7] as u64;
        assert(b1 == ((v >> 8u64) & 0xff) as u8 as u64);
        assert(b2 == ((v >> 16u64) & 0xff) as u8 as u64);
        assert(b3 == ((v >> 24u64) & 0xff) as u8 as u64);
        assert(b4 == ((v >> 32u64) & 0xff) as u8 as u64);
        assert(b5 == ((v >> 40u64) & 0xff) as u8 as u64);
        assert(b6 == ((v >> 48u64) & 0xff) as u8 as u64);
        assert(b7 == ((v >> 56u64) & 0xff) as u8 as u64);
        assert((((((((((((((((0u64 << 8u64) | b7) << 8u64) | b6) << 8u64) | b5) << 8u64) | b4)
            << 8u64) | b3) << 8u64) | b2) << 8u64) | b1) << 8u64) | b0 == v) by (bit_vector)
            requires
                b0 == ((v >> 0u64) & 0xff) as u8 as u64,
                b1 == ((v >> 8u64) & 0xff) as u8 as u64,
                b2 == ((v >> 16u64) & 0xff) as u8 as u64,
                b3 == ((v >> 24u64) & 0xff) as u8 as u64,
                b4 == ((v >> 32u64) & 0xff) as u8 as u64,
                b5 == ((v >> 40u64) & 0xff) as u8 as u64,
                b6 == ((v >> 48u64) & 0xff) as u8 as u64,
                b7 == ((v >> 56u64) & 0xff) as u8 as u64,
        ;
    }
}

/// The low byte of `x`.
pub fn ub(x: u64) -> (r: u8)
    ensures
        r == (x & 0xff) as u8,
{
    (x & 0xff) as u8
}

/// Byte-addressable memory.
#[derive(Debug)]
pub struct Dram {
    dram: Vec<u8>,
}

impl View for Dram {
    type V = Seq<u8>;

    closed spec fn view(&self) -> Seq<u8> {
        self.dram@
    }
}

impl Dram {
    /// Memory that fills the whole DRAM window, zeroed.
    pub fn new() -> (r: Dram)
        ensures
            r@ == Seq::new(DRAM_SIZE as nat, |i: int| 0u8),
    {
        Dram::with_capacity(DRAM_SIZE as usize)
    }

    /// Zeroed memory of `cap` bytes.
    pub fn with_capacity(cap: usize) -> (r: Dram)
        ensures
            r@ == Seq::new(cap as nat, |i: int| 0u8),
    {
        let dram = vec![0u8; cap];
        assert(dram@ =~= Seq::new(cap as nat, |i: int| 0u8));
        Dram { dram }
    }

    /// The bytes of the memory.
    pub fn as_slice(&self) -> (r: &[u8])
        ensures
            r@ == self@,
    {
        self.dram.as_slice()
    }

    /// Copies `slice` to the start of the memory; the size of the memory does not change.
    pub fn init(&mut self, slice: &[u8])
        requires
            slice@.len() <= old(self)@.len(),
        ensures
            final(self)@ == slice@ + old(self)@.subrange(slice@.len() as int, old(self)@.len() as int),
    {
        let ghost old_s = self@;
        let mut i: usize = 0;
        while i < slice.len()
            invariant
                i <= slice@.len() <= old_s.len(),
                self.dram@.len() == old_s.len(),
                forall|j: int| 0 <= j < i ==> self.dram@[j] == slice@[j],
                forall|j: int| i <= j < old_s.len() ==> self.dram@[j] == old_s[j],
            decreases slice@.len() - i,
        {
            self.dram.set(i, slice[i]);
            i += 1;
        }
        assert(self@ =~= slice@ + old_s.subrange(slice@.len() as int, old_s.len() as int));
    }

    pub fn load(&self, addr: u64, size: u8) -> (r: Result<u64, Exception>)
        ensures
            r == mem_load(self@, addr, size),
    {
        let n: usize = if size == BYTE {
            1
        } else if size == HALF {
            2
        } else if size == WORD {
            4
        } else if size == DWORD {
            8
        } else {
            return Err(Exception::StoreAMOAccessFault);
        };
        if addr > self.dram.len() as u64 || (self.dram.len() as u64) - addr < n as u64 {
            return Err(Exception::LoadAccessFault);
        }
        Ok(
            if size == BYTE {
                self.load8(addr)
            } else if size == HALF {
                self.load16(addr)
            } else if size == WORD {
                self.load32(addr)
            } else {
                self.load64(addr)
            },
        )
    }

    pub fn store(&mut self, addr: u64, value: u64, size: u8) -> (r: Result<(), Exception>)
        ensures
            match mem_store(old(self)@, addr, value, size) {
                Ok(s) => r == Ok::<(), Exception>(()) && final(self)@ == s,
                Err(e) => r == Err::<(), Exception>(e) && final(self)@ == old(self)@,
            },
    {
        let n: usize = if size == BYTE {
            1
        } else if size == HALF {
            2
        } else if size == WORD {
            4
        } else if size == DWORD {
            8
        } else {
            return Err(Exception::StoreAMOAccessFault);
        };
        if addr > self.dram.len() as u64 || (self.dram.len() as u64) - addr < n as u64 {
            return Err(Exception::StoreAMOAccessFault);
        }
        if size == BYTE {
            self.store8(addr, value);
        } else if size == HALF {
            self.store16(addr, value);
        } else if size == WORD {
            self.store32(addr, value);
        } else {
            self.store64(addr, value);
        }
        Ok(())
    }

    /// The little-endian value of `n` bytes at `addr`.
    fn load_le(&self, addr: u64, n: usize) -> (r: u64)
        requires
            n <= 8,
            addr + n <= self@.len(),
        ensures
            r == le_value(self@, addr as int, n as nat),
    {
        let len = self.dram.len();
        let a = addr as usize;
        let mut v: u64 = 0;
        let mut i: usize = n;
        while i > 0
            invariant
                i <= n <= 8,
                a == addr,
                a + n <= self.dram@.len(),
                self.dram@.len() == len,
                v == le_value(self.dram@, a + i, (n - i) as nat),
            decreases i,
        {
            i -= 1;
            v = (v << 8u64) | (self.dram[a + i] as u64);
        }
        v
    }

    /// Writes the low `n` bytes of `val` little-endian at `addr`.
    fn store_le(&mut self, addr: u64, val: u64, n: usize)
        requires
            n <= 8,
            addr + n <= old(self)@.len(),
        ensures
            final(self)@ == write_le(old(self)@, addr as int, val, n as nat),
    {
        let ghost old_s = self@;
        let len = self.dram.len();
        let a = addr as usize;
        let mut i: usize = 0;
        while i < n
            invariant
                i <= n <= 8,
                a == addr,
                a + n <= old_s.len(),
                old_s.len() == len,
                self.dram@ == Seq::new(
                    old_s.len(),
                    |j: int| if a <= j < a + i { byte_of(val, (j - a) as nat) } else { old_s[j] },
                ),
            decreases n - i,
        {
            let b = ub(val >> ((8 * i) as u64));
            self.dram.set(a + i, b);
            i += 1;
            assert(self.dram@ =~= Seq::new(
                old_s.len(),
                |j: int| if a <= j < a + i { byte_of(val, (j - a) as nat) } else { old_s[j] },
            ));
        }
        assert(self@ =~= write_le(old_s, addr as int, val, n as nat));
    }

    fn load8(&self, addr: u64) -> (r: u64)
        requires
            addr + 1 <= self@.len(),
        ensures
            r == le_value(self@, addr as int, 1),
    {
        self.load_le(addr, 1)
    }

    fn load16(&self, addr: u64) -> (r: u64)
        requires
            addr + 2 <= self@.len(),
        ensures
            r == le_value(self@, addr as int, 2),
    {
        self.load_le(addr, 2)
    }

    fn load32(&self, addr: u64) -> (r: u64)
        requires
            addr + 4 <= self@.len(),
        ensures
            r == le_value(self@, addr as int, 4),
    {
        self.load_le(addr, 4)
    }

    fn load64(&self, addr: u64) -> (r: u64)
        requires
            addr + 8 <= self@.len(),
        ensures
            r == le_value(self@, addr as int, 8),
    {
        self.load_le(addr, 8)
    }

    fn store8(&mut self, addr: u64, val: u64)
        requires
            addr + 1 <= old(self)@.len(),
        ensures
            final(self)@ == write_le(old(self)@, addr as int, val, 1),
    {
        self.store_le(addr, val, 1)
    }

    fn store16(&mut self, addr: u64, val: u64)
        requires
            addr + 2 <= old(self)@.len(),
        ensures
            final(self)@ == write_le(old(self)@, addr as int, val, 2),
    {
        self.store_le(addr, val, 2)
    }

    fn store32(&mut self, addr: u64, val: u64)
        requires
            addr + 4 <= old(self)@.len(),
        ensures
            final(self)@ == write_le(old(self)@, addr as int, val, 4),
    {
        self.store_le(addr, val, 4)
    }

    fn store64(&mut self, addr: u64, val: u64)
        requires
            addr + 8 <= old(self)@.len(),
        ensures
            final(self)@ == write_le(old(self)@, addr as int, val, 8),
    {
        self.store_le(addr, val, 8)
    }
}

} // verus!
