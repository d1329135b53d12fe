use vstd::prelude::*;

pub mod x;

verus! {

/// A 12-bit CSR address.
pub type Addr = u16;

/// A half-open range of bit positions `(start, end)`.
pub type Range = (usize, usize);

pub const MXLEN: usize = 64;

pub const REGISTERS: usize = 4096;

/// Timer for the RDTIME instruction.
pub const TIME: Addr = 0xc01;

/// Supervisor status register.
pub const SSTATUS: Addr = 0x100;

/// Supervisor exception delegation.
pub const SEDELEG: Addr = 0x102;

/// Supervisor interrupt delegation.
pub const SIDELEG: Addr = 0x103;

/// Supervisor interrupt-enable.
pub const SIE: Addr = 0x104;

/// Supervisor trap-handler base address.
pub const STVEC: Addr = 0x105;

/// Supervisor exception program counter.
pub const SEPC: Addr = 0x141;

/// Supervisor trap cause.
pub const SCAUSE: Addr = 0x142;

/// Supervisor bad address or instruction.
pub const STVAL: Addr = 0x143;

/// Supervisor interrupt pending.
pub const SIP: Addr = 0x144;

/// Machine status register.
pub const MSTATUS: Addr = 0x300;

/// ISA and extensions.
pub const MISA: Addr = 0x301;

/// Machine exception delegation.
pub const MEDELEG: Addr = 0x302;

/// Machine interrupt delegation.
pub const MIDELEG: Addr = 0x303;

/// Machine interrupt-enable.
pub const MIE: Addr = 0x304;

/// Machine trap-handler base address.
pub const MTVEC: Addr = 0x305;

/// Machine exception program counter.
pub const MEPC: Addr = 0x341;

/// Machine trap cause.
pub const MCAUSE: Addr = 0x342;

/// Machine bad address or instruction.
pub const MTVAL: Addr = 0x343;

/// Machine interrupt pending.
pub const MIP: Addr = 0x344;

/// Supervisor software interrupt.
pub const SSIP_BIT: u64 = 1 << 1;

/// Machine software interrupt.
pub const MSIP_BIT: u64 = 1 << 3;

/// Supervisor timer interrupt.
pub const STIP_BIT: u64 = 1 << 5;

/// Machine timer interrupt.
pub const MTIP_BIT: u64 = 1 << 7;

/// Supervisor external interrupt.
pub const SEIP_BIT: u64 = 1 << 9;

/// Machine external interrupt.
pub const MEIP_BIT: u64 = 1 << 11;

/// The `mstatus` bits visible through `sstatus`: SIE, SPIE and SPP.
pub const SSTATUS_MASK: u64 = (1 << 1) | (1 << 5) | (1 << 8);

/// `misa` at reset: XLEN = 64 with the extensions A, C, D, F, I, M, S and U.
pub const MISA_RESET: u64 = (2 << 62) | (1 << 20) | (1 << 18) | (1 << 12) | (1 << 8) | (1 << 5)
    | (1 << 3) | (1 << 2) | 1;

/// A bit range that lies within a 64-bit register and is not empty.
pub open spec fn valid_range(r: Range) -> bool {
    r.0 < r.1 <= MXLEN
}

/// The mask that selects the bits of `r`.
pub open spec fn field_mask(r: Range) -> u64 {
    (u64::MAX >> ((64 - (r.1 - r.0)) as u64)) << (r.0 as u64)
}

/// The largest value that fits in the bits of `r`.
pub open spec fn field_max(r: Range) -> u64 {
    u64::MAX >> ((64 - (r.1 - r.0)) as u64)
}

/// The bits of `v` in `r`, moved down to bit 0.
pub open spec fn get_bits(v: u64, r: Range) -> u64 {
    let high: u64 = if r.1 < 64 { u64::MAX << (r.1 as u64) } else { 0 };
    (v & !high) >> (r.0 as u64)
}

/// `v` with the bits of `r` replaced by `val`.
pub open spec fn put_bits(v: u64, r: Range, val: u64) -> u64 {
    (v & !field_mask(r)) | (val << (r.0 as u64))
}

/// Addresses whose storage is a filtered view of a machine-mode register.
pub open spec fn is_shadow(addr: Addr) -> bool {
    addr == SSTATUS || addr == SIE || addr == SIP
}

/// What a read of the CSR at `addr` returns.
pub open spec fn csr_read(regs: Seq<u64>, addr: Addr) -> u64 {
    if addr == SSTATUS {
        regs[MSTATUS as int] & SSTATUS_MASK
    } else if addr == SIE {
        regs[MIE as int] & regs[MIDELEG as int]
    } else if addr == SIP {
        regs[MIP as int] & regs[MIDELEG as int]
    } else {
        regs[addr as int]
    }
}

/// The register file after a write of `val` to the CSR at `addr`.
pub open spec fn csr_write(regs: Seq<u64>, addr: Addr, val: u64) -> Seq<u64> {
    if addr == SSTATUS {
        regs.update(
            MSTATUS as int,
            (regs[MSTATUS as int] & !SSTATUS_MASK) | (val & SSTATUS_MASK),
        )
    } else if addr == SIE {
        let d = regs[MIDELEG as int];
        regs.update(MIE as int, (regs[MIE as int] & !d) | (val & d))
    } else if addr == SIP {
        let m = SSIP_BIT & regs[MIDELEG as int];
        regs.update(MIP as int, (regs[MIP as int] & !m) | (val & m))
    } else {
        regs.update(addr as int, val)
    }
}

/// The register file after the bits `r` of the CSR at `addr` are set to `val`.
pub open spec fn csr_write_bits(regs: Seq<u64>, addr: Addr, r: Range, val: u64) -> Seq<u64> {
    csr_write(regs, addr, put_bits(csr_read(regs, addr), r, val))
}

/// The register file at reset: all zero but `misa`.
pub open spec fn reset_regs() -> Seq<u64> {
    Seq::new(REGISTERS as nat, |i: int| if i == MISA as int { MISA_RESET } else { 0 })
}

/// A write followed by a read of the same CSR: a shadowed supervisor register reads back as
/// its machine-mode register filtered by the view's mask, and any other register reads back
/// the value written.
pub proof fn lemma_store_then_load(regs: Seq<u64>, addr: Addr, val: u64)
    requires
        regs.len() == REGISTERS,
        addr < REGISTERS,
    ensures
        ({
            let w = csr_write(regs, addr, val);
            &&& addr == SSTATUS ==> csr_read(w, addr) == w[MSTATUS as int] & SSTATUS_MASK
                && csr_read(w, addr) == val & SSTATUS_MASK
            &&& addr == SIE ==> csr_read(w, addr) == w[MIE as int] & w[MIDELEG as int]
                && csr_read(w, addr) == val & regs[MIDELEG as int]
            &&& addr == SIP ==> csr_read(w, addr) == w[MIP as int] & w[MIDELEG as int]
            &&& !is_shadow(addr) ==> csr_read(w, addr) == val
        }),
{
    let w = csr_write(regs, addr, val);
    if addr == SSTATUS {
        let m = regs[MSTATUS as int];
        assert(((m & !SSTATUS_MASK) | (val & SSTATUS_MASK)) & SSTATUS_MASK == val & SSTATUS_MASK)
            by (bit_vector);
    } else if addr == SIE {
        let m = regs[MIE as int];
        let d = regs[MIDELEG as int];
        assert(((m & !d) | (val & d)) & d == val & d) by (bit_vector);
    }
}

/// Writing a value that fits into a bit field of a CSR that is not a shadowed view, then
/// reading that field, gives the value back; the CSR's other bits are unchanged.
pub proof fn lemma_store_bits_then_load_bits(regs: Seq<u64>, addr: Addr, r: Range, val: u64)
    requires
        regs.len() == REGISTERS,
        addr < REGISTERS,
        !is_shadow(addr),
        valid_range(r),
        val <= field_max(r),
    ensures
        ({
            let w = csr_write_bits(regs, addr, r, val);
            &&& get_bits(csr_read(w, addr), r) == val
            &&& csr_read(w, addr) & !field_mask(r) == csr_read(regs, addr) & !field_mask(r)
        }),
{
    let v = csr_read(regs, addr);
    let s = r.0 as u64;
    let e = r.1 as u64;
    let k = (64 - (r.1 - r.0)) as u64;
    let m = field_mask(r);
    let h: u64 = if e < 64 { u64::MAX << e } else { 0 };
    assert(m == (u64::MAX >> k) << s);
    assert(get_bits(put_bits(v, r, val), r) == (((v & !m) | (val << s)) & !h) >> s);
    if e < 64 {
        assert((((v & !m) | (val << s)) & !h) >> s == val && ((v & !m) | (val << s)) & !m == v
            & !m) by (bit_vector)
            requires
                s < e,
                e < 64,
                k + e - s == 64,
                m == (u64::MAX >> k) << s,
                h == u64::MAX << e,
                val <= u64::MAX >> k,
        ;
    } else {
        assert((((v & !m) | (val << s)) & !h) >> s == val && ((v & !m) | (val << s)) & !m == v
            & !m) by (bit_vector)
            requires
                s < 64,
                k == s,
                m == (u64::MAX >> k) << s,
                h == 0,
                val <= u64::MAX >> k,
        ;
    }
}

/// Computes the mask that selects the bits of `range`.
pub fn mask(range: Range) -> (r: u64)
    requires
        valid_range(range),
    ensures
        r == field_mask(range),
{
    let (start, end) = range;
    let len = end - start;
    (u64::MAX >> ((64 - len) as u64)) << (start as u64)
}

/// The control and status registers of a hart.
#[derive(Debug)]
pub struct State {
    pub regs: [u64; REGISTERS],
}

impl View for State {
    type V = Seq<u64>;

    open spec fn view(&self) -> Seq<u64> {
        self.regs@
    }
}

impl State {
    pub fn new() -> (r: State)
        ensures
            r@ == reset_regs(),
    {
        let mut regs = [0u64; REGISTERS];
        regs[MISA as usize] = MISA_RESET;
        let r = State { regs };
        assert(r@ =~= reset_regs());
        r
    }

    /// Advances the `time` counter by one, wrapping around.
    pub fn cycle_time(&mut self)
        ensures
            final(self)@ == old(self)@.update(
                TIME as int,
                old(self)@[TIME as int].wrapping_add(1),
            ),
    {
        self.regs[TIME as usize] = self.regs[TIME as usize].wrapping_add(1);
    }

    pub fn load(&self, addr: Addr) -> (r: u64)
        requires
            addr < REGISTERS,
        ensures
            r == csr_read(self@, addr),
    {
        if addr == SSTATUS {
            self.regs[MSTATUS as usize] & SSTATUS_MASK
        } else if addr == SIE {
            self.regs[MIE as usize] & self.regs[MIDELEG as usize]
        } else if addr == SIP {
            self.regs[MIP as usize] & self.regs[MIDELEG as usize]
        } else {
            self.regs[addr as usize]
        }
    }

    pub fn store(&mut self, addr: Addr, val: u64)
        requires
            addr < REGISTERS,
        ensures
            final(self)@ == csr_write(old(self)@, addr, val),
    {
        if addr == SSTATUS {
            let m = (self.regs[MSTATUS as usize] & !SSTATUS_MASK) | (val & SSTATUS_MASK);
            self.regs[MSTATUS as usize] = m;
        } else if addr == SIE {
            let d = self.regs[MIDELEG as usize];
            let m = (self.regs[MIE as usize] & !d) | (val & d);
            self.regs[MIE as usize] = m;
        } else if addr == SIP {
            let mask = SSIP_BIT & self.regs[MIDELEG as usize];
            let m = (self.regs[MIP as usize] & !mask) | (val & mask);
            self.regs[MIP as usize] = m;
        } else {
            self.regs[addr as usize] = val;
        }
    }

    /// Writes `val` into the bits `range` of the CSR at `addr`, keeping its other bits.
    pub fn store_bits(&mut self, addr: Addr, range: Range, val: u64)
        requires
            addr < REGISTERS,
            valid_range(range),
        ensures
            final(self)@ == csr_write_bits(old(self)@, addr, range, val),
    {
        let m = mask(range);
        let cur = self.load(addr);
        self.store(addr, (cur & !m) | (val << (range.0 as u64)));
    }

    /// Reads the bits `range` of the CSR at `addr`, moved down to bit 0.
    pub fn load_bits(&self, addr: Addr, range: Range) -> (r: u64)
        requires
            addr < REGISTERS,
            valid_range(range),
        ensures
            r == get_bits(csr_read(self@, addr), range),
    {
        let (start, end) = range;
        let high: u64 = if end != MXLEN {
            u64::MAX << (end as u64)
        } else {
            0
        };
        (self.load(addr) & !high) >> (start as u64)
    }

    pub fn load_sstatus(&self, range: Range) -> (r: u64)
        requires
            valid_range(range),
        ensures
            r == get_bits(csr_read(self@, SSTATUS), range),
    {
        self.load_bits(SSTATUS, range)
    }

    pub fn load_mstatus(&self, range: Range) -> (r: u64)
        requires
            valid_range(range),
        ensures
            r == get_bits(csr_read(self@, MSTATUS), range),
    {
        self.load_bits(MSTATUS, range)
    }

    pub fn store_sstatus(&mut self, range: Range, val: u64)
        requires
            valid_range(range),
        ensures
            final(self)@ == csr_write_bits(old(self)@, SSTATUS, range, val),
    {
        self.store_bits(SSTATUS, range, val);
    }

    pub fn store_mstatus(&mut self, range: Range, val: u64)
        requires
            valid_range(range),
        ensures
            final(self)@ == csr_write_bits(old(self)@, MSTATUS, range, val),
    {
        self.store_bits(MSTATUS, range, val);
    }
}

} // verus!
