use vstd::prelude::*;
use crate::cpu::{mode_bits, Cpu, Hart, Mode, REG_COUNT};

verus! {

/// A register file as it crosses the persistence boundary: the first `len` registers are
/// meaningful.
pub struct RegPlace<T> {
    pub regs: [T; REG_COUNT],
    pub len: u8,
}

/// The memory part of a snapshot.
pub struct BusRepr {
    pub dram: Vec<u8>,
}

/// A snapshot of a hart: program counter, encoded mode, integer registers and DRAM without
/// its trailing zero bytes.
pub struct CpuRepr {
    pub pc: u64,
    pub mode: u32,
    pub xregs: RegPlace<u64>,
    pub bus: BusRepr,
}

/// A snapshot of a whole machine.
pub struct EmuRepr {
    pub cpu: CpuRepr,
}

/// The contents of a snapshot.
pub struct Snapshot {
    pub pc: u64,
    pub mode: u32,
    pub regs: Seq<u64>,
    pub len: u8,
    pub dram: Seq<u8>,
}

impl View for CpuRepr {
    type V = Snapshot;

    open spec fn view(&self) -> Snapshot {
        Snapshot {
            pc: self.pc,
            mode: self.mode,
            regs: self.xregs.regs@,
            len: self.xregs.len,
            dram: self.bus.dram@,
        }
    }
}

/// The length of `s` without its trailing zero bytes.
pub open spec fn trimmed_len(s: Seq<u8>) -> nat
    decreases s.len(),
{
    if s.len() == 0 {
        0
    } else if s.last() != 0 {
        s.len()
    } else {
        trimmed_len(s.drop_last())
    }
}

/// `s` without its trailing zero bytes.
pub open spec fn trim_zeros(s: Seq<u8>) -> Seq<u8> {
    s.subrange(0, trimmed_len(s) as int)
}

/// The mode a snapshot's encoded mode stands for.
pub open spec fn mode_of_bits(b: u32) -> Mode {
    if b == 0 {
        Mode::User
    } else if b == 1 {
        Mode::Supervisor
    } else if b == 3 {
        Mode::Machine
    } else {
        Mode::Debug
    }
}

/// Whether `b` encodes a mode that may cross the persistence boundary.
pub open spec fn valid_mode_bits(b: u32) -> bool {
    b == 0 || b == 1 || b == 3
}

/// The snapshot taken of the hart `h`.
pub open spec fn snapshot_of(h: Hart) -> Snapshot {
    Snapshot {
        pc: h.pc,
        mode: mode_bits(h.mode) as u32,
        regs: h.x,
        len: REG_COUNT as u8,
        dram: trim_zeros(h.mem),
    }
}

/// The hart `h` after the snapshot `s` is mapped onto it.
pub open spec fn restore(h: Hart, s: Snapshot) -> Hart {
    Hart {
        pc: s.pc,
        mode: mode_of_bits(s.mode),
        x: Seq::new(h.x.len(), |i: int| if 0 < i < s.len { s.regs[i] } else { h.x[i] }),
        mem: s.dram + h.mem.subrange(s.dram.len() as int, h.mem.len() as int),
        ..h
    }
}

/// The trimmed length is a prefix length, and only zero bytes follow it.
pub proof fn lemma_trimmed_len(s: Seq<u8>)
    ensures
        trimmed_len(s) <= s.len(),
        trimmed_len(s) == 0 || s[trimmed_len(s) - 1] != 0,
        forall|j: int| trimmed_len(s) <= j < s.len() ==> s[j] == 0,
    decreases s.len(),
{
    if s.len() != 0 && s.last() == 0 {
        lemma_trimmed_len(s.drop_last());
        assert(forall|j: int| 0 <= j < s.len() - 1 ==> s.drop_last()[j] == s[j]);
    }
}

/// Taking a snapshot of a hart and mapping it onto another hart gives the second hart the
/// first one's program counter, mode and integer registers, and the first one's DRAM up to
/// its last nonzero byte. When the second hart's DRAM is zeroed and has the same size, the
/// whole DRAM is carried over.
pub proof fn lemma_snapshot_round_trip(c: Hart, d: Hart)
    requires
        c.mode != Mode::Debug,
        c.x.len() == REG_COUNT,
        c.x[0] == 0,
        d.x.len() == REG_COUNT,
        d.x[0] == 0,
        trimmed_len(c.mem) <= d.mem.len(),
    ensures
        ({
            let r = restore(d, snapshot_of(c));
            &&& r.pc == c.pc
            &&& r.mode == c.mode
            &&& r.x == c.x
            &&& r.mem.subrange(0, trimmed_len(c.mem) as int) == trim_zeros(c.mem)
            &&& (d.mem.len() == c.mem.len() && (forall|j: int| 0 <= j < d.mem.len() ==> d.mem[j]
                == 0)) ==> r.mem == c.mem
        }),
{
    lemma_trimmed_len(c.mem);
    let r = restore(d, snapshot_of(c));
    assert(r.x =~= c.x);
    let k = trimmed_len(c.mem) as int;
    assert(r.mem.subrange(0, k) =~= trim_zeros(c.mem));
    if d.mem.len() == c.mem.len() && (forall|j: int| 0 <= j < d.mem.len() ==> d.mem[j] == 0) {
        assert(r.mem =~= c.mem);
    }
}

impl CpuRepr {
    /// Maps the snapshot onto `cpu`: its pc, mode, the first `len` registers (but `x0`) and
    /// the start of DRAM are replaced.
    pub fn map_to(self, cpu: &mut Cpu)
        requires
            valid_mode_bits(self.mode),
            self.xregs.len <= REG_COUNT,
            self.bus.dram@.len() <= old(cpu).bus.dram@.len(),
        ensures
            final(cpu)@ == restore(old(cpu)@, self@),
    {
        let ghost h = cpu@;
        cpu.pc = self.pc;
        let n = self.xregs.len as usize;
        let ghost regs = self.xregs.regs@;
        assert(h.x =~= Seq::new(h.x.len(), |j: int| if 0 < j < 0 { regs[j] } else { h.x[j] }));
        let mut i: usize = 0;
        while i < n
            invariant
                i <= n <= REG_COUNT,
                n == self.xregs.len,
                regs == self.xregs.regs@,
                i > 0 ==> cpu.xregs@.len() == REG_COUNT,
                cpu.xregs@ == Seq::new(
                    h.x.len(),
                    |j: int| if 0 < j < i { regs[j] } else { h.x[j] },
                ),
                cpu.pc == self.pc,
                cpu.mode == h.mode,
                cpu.state@ == h.csr,
                cpu.bus.vga.buf@ == h.fb,
                cpu.bus.dram@ == h.mem,
            decreases n - i,
        {
            cpu.xregs.store(i as u64, self.xregs.regs[i]);
            i += 1;
            assert(cpu.xregs@ =~= Seq::new(
                h.x.len(),
                |j: int| if 0 < j < i { regs[j] } else { h.x[j] },
            ));
        }
        cpu.mode = if self.mode == 0 {
            Mode::User
        } else if self.mode == 1 {
            Mode::Supervisor
        } else {
            Mode::Machine
        };
        cpu.bus.dram.init(self.bus.dram.as_slice());
    }

    /// Takes a snapshot of `cpu`.
    pub fn from_cpu(cpu: &Cpu) -> (r: CpuRepr)
        requires
            cpu.mode != Mode::Debug,
        ensures
            r@ == snapshot_of(cpu@),
    {
        let s = cpu.bus.dram.as_slice();
        let mut k: usize = s.len();
        assert(s@.subrange(0, k as int) =~= s@);
        while k > 0 && s[k - 1] == 0
            invariant
                k <= s@.len(),
                trimmed_len(s@) == trimmed_len(s@.subrange(0, k as int)),
            decreases k,
        {
            assert(s@.subrange(0, k as int).drop_last() =~= s@.subrange(0, k - 1));
            k -= 1;
        }
        assert(s@.subrange(0, k as int) =~= s@.subrange(0, k as int).subrange(0, k as int));
        let mut dram: Vec<u8> = Vec::with_capacity(k);
        let mut i: usize = 0;
        while i < k
            invariant
                i <= k <= s@.len(),
                dram@ == s@.subrange(0, i as int),
            decreases k - i,
        {
            dram.push(s[i]);
            i += 1;
            assert(dram@ =~= s@.subrange(0, i as int));
        }
        proof {
            assert(trimmed_len(s@.subrange(0, k as int)) == k);
        }
        let mode = cpu.mode.bits() as u32;
        CpuRepr {
            pc: cpu.pc,
            mode,
            xregs: RegPlace { regs: cpu.xregs.into_inner(), len: REG_COUNT as u8 },
            bus: BusRepr { dram },
        }
    }
}

} // verus!
