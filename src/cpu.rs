use vstd::prelude::*;
use crate::bus::{self, bus_load, bus_store, Bus};
use crate::csr::{
    csr_read, csr_write, csr_write_bits, field_mask, get_bits, put_bits, x, State, MCAUSE,
    MEDELEG, MEPC, MSTATUS, MTVAL, MTVEC, TIME,
};
use crate::dram::{HALF, WORD};
use crate::trap::{cause_of, epc_of, mtval_of, trap_of, Exception, Trap};

verus! {

pub const REG_COUNT: usize = 32;

/// Address of the device tree blob handed to the guest in `x11`.
pub const POINTER_TO_DTB: u64 = 0x1020;

/// The kind of access an address is translated for; it decides which page fault applies.
#[derive(Debug, Clone, Copy, PartialEq, Eq, Structural)]
pub enum AccessType {
    /// An instruction fetch.
    Instruction,
    /// A load.
    Load,
    /// A store or atomic memory operation.
    Store,
}

/// Privilege modes.
#[derive(Debug, Clone, Copy, PartialEq, Eq, Structural)]
pub enum Mode {
    User,
    Supervisor,
    Machine,
    Debug,
}

/// The architectural encoding of a mode.
pub open spec fn mode_bits(m: Mode) -> u64 {
    match m {
        Mode::User => 0b00,
        Mode::Supervisor => 0b01,
        Mode::Machine => 0b11,
        Mode::Debug => 0b100,
    }
}

/// Whether a trap taken in mode `m` with cause `cause` is delegated to supervisor mode.
pub open spec fn is_delegated(m: Mode, regs: Seq<u64>, cause: u64) -> bool {
    (m == Mode::User || m == Mode::Supervisor) && (regs[MEDELEG as int] >> cause) & 1 == 1
}

impl Mode {
    pub fn bits(&self) -> (r: u64)
        ensures
            r == mode_bits(*self),
    {
        match self {
            Mode::User => 0b00,
            Mode::Supervisor => 0b01,
            Mode::Machine => 0b11,
            Mode::Debug => 0b100,
        }
    }
}

/// The integer register file; `x0` always reads as zero.
#[derive(Debug, Clone, Copy)]
pub struct Xregs {
    xregs: [u64; REG_COUNT],
}

/// The registers `x` after `v` is written to register `i`; writes to `x0` are dropped.
pub open spec fn write_reg(x: Seq<u64>, i: u64, v: u64) -> Seq<u64> {
    if i == 0 {
        x
    } else {
        x.update(i as int, v)
    }
}

/// The registers at reset: the stack pointer at the end of DRAM and `x11` at the device tree.
pub open spec fn reset_xregs() -> Seq<u64> {
    Seq::new(
        REG_COUNT as nat,
        |i: int|
            if i == 2 {
                bus::dram::END
            } else if i == 11 {
                POINTER_TO_DTB
            } else {
                0
            },
    )
}

impl View for Xregs {
    type V = Seq<u64>;

    closed spec fn view(&self) -> Seq<u64> {
        self.xregs@
    }
}

impl Xregs {
    #[verifier::type_invariant]
    spec fn inv(&self) -> bool {
        self.xregs[0] == 0
    }

    pub fn new() -> (r: Xregs)
        ensures
            r@ == reset_xregs(),
    {
        let mut xregs = [0u64; REG_COUNT];
        xregs[2] = bus::dram::END;
        xregs[11] = POINTER_TO_DTB;
        let r = Xregs { xregs };
        assert(r@ =~= reset_xregs());
        r
    }

    pub fn into_inner(self) -> (r: [u64; REG_COUNT])
        ensures
            r@ == self@,
    {
        self.xregs
    }

    pub fn load(&self, index: u64) -> (r: u64)
        requires
            index < REG_COUNT,
        ensures
            r == self@[index as int],
            self@.len() == REG_COUNT,
            self@[0] == 0,
    {
        proof {
            use_type_invariant(self);
        }
        self.xregs[index as usize]
    }

    pub fn store(&mut self, index: u64, value: u64)
        requires
            index < REG_COUNT,
        ensures
            final(self)@ == write_reg(old(self)@, index, value),
            final(self)@.len() == REG_COUNT,
            final(self)@[0] == 0,
    {
        proof {
            use_type_invariant(&*self);
        }
        if index != 0 {
            self.xregs[index as usize] = value;
        }
    }
}

/// `base` with each pair `(i, v)` of `regs` written to register `i`, in order.
pub open spec fn with_overrides(base: Seq<u64>, regs: Seq<(usize, u64)>) -> Seq<u64>
    decreases regs.len(),
{
    if regs.len() == 0 {
        base
    } else {
        with_overrides(base, regs.drop_last()).update(regs.last().0 as int, regs.last().1)
    }
}

/// The register values at reset with the given registers replaced; a handy expected state for
/// a program run.
pub fn xregs<const N: usize>(regs: [(usize, u64); N]) -> (r: [u64; REG_COUNT])
    requires
        forall|i: int| 0 <= i < N ==> (#[trigger] regs@[i]).0 < REG_COUNT,
    ensures
        r@ == with_overrides(reset_xregs(), regs@),
{
    let mut xregs = Xregs::new().into_inner();
    let mut i: usize = 0;
    while i < N
        invariant
            i <= N,
            regs@.len() == N,
            forall|j: int| 0 <= j < N ==> (#[trigger] regs@[j]).0 < REG_COUNT,
            xregs@ == with_overrides(reset_xregs(), regs@.subrange(0, i as int)),
        decreases N - i,
    {
        let (k, v) = regs[i];
        assert(regs@.subrange(0, i + 1).drop_last() =~= regs@.subrange(0, i as int));
        xregs[k] = v;
        i += 1;
    }
    assert(regs@.subrange(0, N as int) =~= regs@);
    xregs
}

/// The state of a hart, as the contracts see it.
pub struct Hart {
    pub pc: u64,
    pub mode: Mode,
    pub x: Seq<u64>,
    pub csr: Seq<u64>,
    pub fb: Seq<u8>,
    pub mem: Seq<u8>,
}

/// A single hart with its registers and the bus it owns.
#[derive(Debug)]
pub struct Cpu {
    pub pc: u64,
    pub mode: Mode,
    pub xregs: Xregs,
    pub state: State,
    pub bus: Bus,
}

impl View for Cpu {
    type V = Hart;

    open spec fn view(&self) -> Hart {
        Hart {
            pc: self.pc,
            mode: self.mode,
            x: self.xregs@,
            csr: self.state@,
            fb: self.bus.vga.buf@,
            mem: self.bus.dram@,
        }
    }
}

/// What an instruction fetch of `size` bits at `pc` gives.
pub open spec fn fetch_spec(h: Hart, size: u8) -> Result<u64, Exception> {
    if size != HALF && size != WORD {
        Err(Exception::InstAccessFault)
    } else {
        match bus_load(h.fb, h.mem, h.pc, size) {
            Ok(v) => Ok(v),
            Err(_) => Err(Exception::InstAccessFault),
        }
    }
}

/// The CSRs after a trap for `ex`, raised at `pc` in mode `prev`, is taken in machine mode.
pub open spec fn trap_csrs(regs: Seq<u64>, ex: Exception, pc: u64, prev: Mode) -> Seq<u64> {
    let epc = epc_of(ex, pc);
    let r1 = csr_write(regs, MEPC, epc & !1u64);
    let r2 = csr_write(r1, MCAUSE, cause_of(ex));
    let r3 = csr_write(r2, MTVAL, mtval_of(ex, epc));
    let r4 = csr_write_bits(r3, MSTATUS, x::MPIE, get_bits(csr_read(r3, MSTATUS), x::MIE));
    let r5 = csr_write_bits(r4, MSTATUS, x::MIE, 0);
    csr_write_bits(r5, MSTATUS, x::MPP, mode_bits(prev))
}

/// The hart after a trap for `ex` is taken in machine mode.
pub open spec fn trap_spec(h: Hart, ex: Exception) -> Hart {
    Hart {
        pc: h.csr[MTVEC as int] & !1u64,
        mode: Mode::Machine,
        csr: trap_csrs(h.csr, ex, h.pc, h.mode),
        ..h
    }
}

/// The hart with its `time` counter advanced by one.
pub open spec fn tick(h: Hart) -> Hart {
    Hart { csr: h.csr.update(TIME as int, h.csr[TIME as int].wrapping_add(1)), ..h }
}

/// One cycle: advance `time`, fetch a word at `pc`, execute it and move to the next
/// instruction. On an exception the result carries it and `pc` stays on the instruction.
pub open spec fn cycle_spec(h: Hart) -> (Result<u64, Exception>, Hart) {
    let h1 = tick(h);
    match fetch_spec(h1, WORD) {
        Err(e) => (Err(e), h1),
        Ok(inst) => {
            let (r, h2) = crate::inst::step(h1, inst);
            match r {
                Err(e) => (Err(e), h2),
                Ok(_) => (Ok(inst), Hart { pc: h2.pc.wrapping_add(4), ..h2 }),
            }
        },
    }
}

/// On trap entry `mstatus` saves MIE into MPIE, clears MIE and records the previous mode in
/// MPP.
proof fn lemma_mstatus_on_trap(m: u64, p: u64)
    requires
        p <= 3,
    ensures
        ({
            let m4 = put_bits(m, x::MPIE, get_bits(m, x::MIE));
            let m5 = put_bits(m4, x::MIE, 0);
            let m6 = put_bits(m5, x::MPP, p);
            &&& get_bits(m6, x::MIE) == 0
            &&& get_bits(m6, x::MPIE) == get_bits(m, x::MIE)
            &&& get_bits(m6, x::MPP) == p
        }),
{
    assert(field_mask(x::MIE) == (u64::MAX >> 63u64) << 3u64);
    assert(field_mask(x::MPIE) == (u64::MAX >> 63u64) << 7u64);
    assert(field_mask(x::MPP) == (u64::MAX >> 62u64) << 11u64);
    let e = get_bits(m, x::MIE);
    assert(e == (m & !(u64::MAX << 4u64)) >> 3u64);
    let m4 = put_bits(m, x::MPIE, e);
    let m5 = put_bits(m4, x::MIE, 0);
    let m6 = put_bits(m5, x::MPP, p);
    assert(m4 == (m & !((u64::MAX >> 63u64) << 7u64)) | (e << 7u64));
    assert(m5 == (m4 & !((u64::MAX >> 63u64) << 3u64)) | (0u64 << 3u64));
    assert(m6 == (m5 & !((u64::MAX >> 62u64) << 11u64)) | (p << 11u64));
    assert(get_bits(m6, x::MIE) == (m6 & !(u64::MAX << 4u64)) >> 3u64);
    assert(get_bits(m6, x::MPIE) == (m6 & !(u64::MAX << 8u64)) >> 7u64);
    assert(get_bits(m6, x::MPP) == (m6 & !(u64::MAX << 13u64)) >> 11u64);
    assert((m6 & !(u64::MAX << 4u64)) >> 3u64 == 0 && (m6 & !(u64::MAX << 8u64)) >> 7u64 == e && (
    m6 & !(u64::MAX << 13u64)) >> 11u64 == p) by (bit_vector)
        requires
            p <= 3,
            e == (m & !(u64::MAX << 4u64)) >> 3u64,
            m4 == (m & !((u64::MAX >> 63u64) << 7u64)) | (e << 7u64),
            m5 == (m4 & !((u64::MAX >> 63u64) << 3u64)) | (0u64 << 3u64),
            m6 == (m5 & !((u64::MAX >> 62u64) << 11u64)) | (p << 11u64),
    ;
}

impl Cpu {
    /// A hart in machine mode at address 0, with `cap` bytes of DRAM.
    pub fn new(cap: usize) -> (r: Cpu)
        ensures
            r.pc == 0,
            r.mode == Mode::Machine,
            r.xregs@ == reset_xregs(),
            r.state@ == crate::csr::reset_regs(),
            r.bus.vga.buf@ == Seq::new(crate::dev::vga::Vga::SIZE as nat, |i: int| 0u8),
            r.bus.dram@ == Seq::new(cap as nat, |i: int| 0u8),
    {
        Cpu {
            pc: 0,
            mode: Mode::Machine,
            xregs: Xregs::new(),
            state: State::new(),
            bus: Bus::new(cap),
        }
    }

    /// Translates a virtual address; without paging this is the identity.
    fn translate(&self, addr: u64, _access: AccessType) -> (r: Result<u64, Exception>)
        ensures
            r == Ok::<u64, Exception>(addr),
    {
        Ok(addr)
    }

    /// Takes the trap for `ex` in machine mode and classifies it for the host.
    pub fn catch_exception(&mut self, ex: Exception) -> (r: Trap)
        requires
            old(self).mode != Mode::Debug,
            !is_delegated(old(self).mode, old(self).state@, cause_of(ex)),
        ensures
            r == trap_of(ex),
            final(self)@ == trap_spec(old(self)@, ex),
            final(self).mode == Mode::Machine,
            final(self).pc == old(self).state@[MTVEC as int] & !1u64,
            csr_read(final(self).state@, MEPC) == epc_of(ex, old(self).pc) & !1u64,
            csr_read(final(self).state@, MCAUSE) == cause_of(ex),
            csr_read(final(self).state@, MTVAL) == mtval_of(ex, epc_of(ex, old(self).pc)),
            get_bits(csr_read(final(self).state@, MSTATUS), x::MIE) == 0,
            get_bits(csr_read(final(self).state@, MSTATUS), x::MPIE) == get_bits(
                csr_read(old(self).state@, MSTATUS),
                x::MIE,
            ),
            get_bits(csr_read(final(self).state@, MSTATUS), x::MPP) == mode_bits(old(self).mode),
    {
        let pc = ex.epc(self.pc);
        let cause = ex.cause();
        let prev = self.mode;
        self.mode = Mode::Machine;
        self.pc = self.state.load(MTVEC) & !1u64;
        self.state.store(MEPC, pc & !1u64);
        self.state.store(MCAUSE, cause);
        self.state.store(MTVAL, ex.mtval(pc));
        let ghost r3 = self.state@;
        let mie = self.state.load_mstatus(x::MIE);
        self.state.store_mstatus(x::MPIE, mie);
        self.state.store_mstatus(x::MIE, 0);
        self.state.store_mstatus(x::MPP, prev.bits());
        assert(csr_read(self.state@, MEPC) == csr_read(r3, MEPC));
        assert(csr_read(self.state@, MCAUSE) == csr_read(r3, MCAUSE));
        assert(csr_read(self.state@, MTVAL) == csr_read(r3, MTVAL));
        proof {
            lemma_mstatus_on_trap(csr_read(r3, MSTATUS), mode_bits(prev));
        }
        Trap::from_ex(ex)
    }

    pub(crate) fn store(&mut self, v_addr: u64, value: u64, size: u8) -> (r: Result<
        (),
        Exception,
    >)
        ensures
            final(self).pc == old(self).pc,
            final(self).mode == old(self).mode,
            final(self).xregs == old(self).xregs,
            final(self).state == old(self).state,
            match bus_store(old(self).bus.vga.buf@, old(self).bus.dram@, v_addr, value, size) {
                Ok((fb, mem)) => r == Ok::<(), Exception>(()) && final(self).bus.vga.buf@ == fb
                    && final(self).bus.dram@ == mem,
                Err(e) => r == Err::<(), Exception>(e) && final(self).bus.vga.buf@ == old(
                    self,
                ).bus.vga.buf@ && final(self).bus.dram@ == old(self).bus.dram@,
            },
    {
        let p_addr = self.translate(v_addr, AccessType::Store)?;
        self.bus.store(p_addr, value, size)
    }

    /// Fetches `size` bits at `pc`; any failure is reported as an instruction access fault.
    pub fn fetch(&self, size: u8) -> (r: Result<u64, Exception>)
        ensures
            r == fetch_spec(self@, size),
    {
        if size != HALF && size != WORD {
            return Err(Exception::InstAccessFault);
        }
        let p_pc = self.translate(self.pc, AccessType::Instruction)?;
        match self.bus.load(p_pc, size) {
            Ok(value) => Ok(value),
            Err(_) => Err(Exception::InstAccessFault),
        }
    }

    /// Runs one cycle: fetches, decodes and executes the instruction at `pc`.
    pub fn execute(&mut self) -> (r: Result<u64, Exception>)
        ensures
            (r, final(self)@) == cycle_spec(old(self)@),
            final(self).xregs@[0] == 0,
    {
        self.state.cycle_time();
        let inst = match self.fetch(WORD) {
            Ok(i) => i,
            Err(e) => {
                proof {
                    use_type_invariant(&self.xregs);
                }
                return Err(e);
            },
        };
        match self.execute_general(inst) {
            Ok(()) => {},
            Err(e) => {
                proof {
                    use_type_invariant(&self.xregs);
                }
                return Err(e);
            },
        }
        self.pc = self.pc.wrapping_add(4);
        proof {
            use_type_invariant(&self.xregs);
        }
        Ok(inst)
    }
}

} // verus!
