use vstd::prelude::*;
use crate::bus::bus_store;
use crate::cpu::{write_reg, Cpu, Hart, Mode};
use crate::csr::{csr_read, csr_write, Addr};
use crate::dram::{BYTE, DWORD, HALF, WORD};
use crate::trap::Exception;
use crate::utils::{imm_spec, ones, slice_spec, total_width, Bits};

verus! {

/// `inst[6:0]`.
pub open spec fn opcode(inst: u64) -> u64 {
    inst & 0x7f
}

/// `inst[11:7]`.
pub open spec fn rd(inst: u64) -> u64 {
    (inst & 0xf80) >> 7
}

/// `inst[14:12]`.
pub open spec fn funct3(inst: u64) -> u64 {
    (inst & 0x7000) >> 12
}

/// `inst[19:15]`.
pub open spec fn rs1(inst: u64) -> u64 {
    (inst & 0xf8000) >> 15
}

/// `inst[24:20]`.
pub open spec fn rs2(inst: u64) -> u64 {
    (inst & 0x1f00000) >> 20
}

/// `inst[31:25]`.
pub open spec fn funct7(inst: u64) -> u64 {
    (inst & 0xfe000000) >> 25
}

/// The shift amount of a shift instruction: the low six bits of the immediate.
pub open spec fn shamt(inst: u64) -> u64 {
    (inst >> 20) & 0x3f
}

/// The CSR an instruction names.
pub open spec fn csr_addr(inst: u64) -> u64 {
    (inst >> 20) & 0xfff
}

/// `v`, a field of `bits` bits, sign-extended to 64 bits.
pub open spec fn sext(v: u64, bits: u64) -> u64 {
    if (v >> ((bits - 1) as u64)) & 1 == 1 {
        v | (u64::MAX << bits)
    } else {
        v
    }
}

/// The I-type immediate `inst[31:20]`.
pub open spec fn imm_i(inst: u64) -> u64 {
    sext((inst >> 20) & 0xfff, 12)
}

/// The S-type immediate `{inst[31:25], inst[11:7]}`.
pub open spec fn imm_s(inst: u64) -> u64 {
    sext(((inst >> 20) & 0xfe0) | ((inst >> 7) & 0x1f), 12)
}

/// The B-type immediate `{inst[31], inst[7], inst[30:25], inst[11:8], 0}`.
pub open spec fn imm_b(inst: u64) -> u64 {
    sext(
        ((inst >> 19) & 0x1000) | ((inst << 4u64) & 0x800) | ((inst >> 20) & 0x7e0) | ((inst >> 7)
            & 0x1e),
        13,
    )
}

/// The J-type immediate `{inst[31], inst[19:12], inst[20], inst[30:21], 0}`.
pub open spec fn imm_j(inst: u64) -> u64 {
    sext(
        ((inst >> 11) & 0x100000) | (inst & 0xff000) | ((inst >> 9) & 0x800) | ((inst >> 20)
            & 0x7fe),
        21,
    )
}

/// The S-type immediate is the concatenation of `inst[31:25]` and `inst[11:7]`, sign-extended.
pub proof fn lemma_imm_s_is_slice(inst: u64)
    ensures
        slice_spec(inst, seq![(31u32, 25u32), (11u32, 7u32)]) == ((inst >> 20) & 0xfe0) | ((inst
            >> 7) & 0x1f),
        imm_s(inst) == sext(slice_spec(inst, seq![(31u32, 25u32), (11u32, 7u32)]), 12),
{
    let rs: Seq<Bits> = seq![(31u32, 25u32), (11u32, 7u32)];
    assert(rs.drop_first() =~= seq![(11u32, 7u32)]);
    assert(rs.drop_first().drop_first() =~= Seq::<Bits>::empty());
    reveal_with_fuel(slice_spec, 3);
    reveal_with_fuel(total_width, 3);
    assert(ones(7) == u64::MAX >> 57u64);
    assert(ones(5) == u64::MAX >> 59u64);
    let p = slice_spec(inst, rs);
    assert(p == (((inst >> 25u32) & (u64::MAX >> 57u64)) << 5u64) | ((((inst >> 7u32) & (u64::MAX
        >> 59u64)) << 0u64) | 0u64));
    assert(((inst >> 20) & 0xfe0) | ((inst >> 7) & 0x1f) == (((inst >> 25u32) & (u64::MAX
        >> 57u64)) << 5u64) | ((((inst >> 7u32) & (u64::MAX >> 59u64)) << 0u64) | 0u64))
        by (bit_vector);
}

/// The B-type immediate is `inst[31:25]` and `inst[11:7]` concatenated, then scattered to the
/// bits 12, 10:5, 4:1 and 11, and sign-extended.
pub proof fn lemma_imm_b_is_slice_imm(inst: u64)
    ensures
        imm_b(inst) == sext(
            imm_spec(
                slice_spec(inst, seq![(31u32, 25u32), (11u32, 7u32)]),
                seq![(12u32, 12u32), (10u32, 5u32), (4u32, 1u32), (11u32, 11u32)],
            ),
            13,
        ),
{
    lemma_imm_s_is_slice(inst);
    let p = slice_spec(inst, seq![(31u32, 25u32), (11u32, 7u32)]);
    let ts: Seq<Bits> = seq![(12u32, 12u32), (10u32, 5u32), (4u32, 1u32), (11u32, 11u32)];
    let t1 = ts.drop_first();
    let t2 = t1.drop_first();
    let t3 = t2.drop_first();
    assert(t1 =~= seq![(10u32, 5u32), (4u32, 1u32), (11u32, 11u32)]);
    assert(t2 =~= seq![(4u32, 1u32), (11u32, 11u32)]);
    assert(t3 =~= seq![(11u32, 11u32)]);
    assert(t3.drop_first() =~= Seq::<Bits>::empty());
    reveal_with_fuel(imm_spec, 5);
    reveal_with_fuel(total_width, 5);
    assert(ones(1) == u64::MAX >> 63u64);
    assert(ones(6) == u64::MAX >> 58u64);
    assert(ones(4) == u64::MAX >> 60u64);
    let q = ((inst >> 20) & 0xfe0) | ((inst >> 7) & 0x1f);
    assert(p == q);
    assert(imm_spec(p, ts) == (((q >> 11u64) & (u64::MAX >> 63u64)) << 12u32) | ((((q >> 5u64) & (
    u64::MAX >> 58u64)) << 5u32) | ((((q >> 1u64) & (u64::MAX >> 60u64)) << 1u32) | ((((q
        >> 0u64) & (u64::MAX >> 63u64)) << 11u32) | 0u64))));
    assert(((inst >> 19) & 0x1000) | ((inst << 4u64) & 0x800) | ((inst >> 20) & 0x7e0) | ((inst
        >> 7) & 0x1e) == (((q >> 11u64) & (u64::MAX >> 63u64)) << 12u32) | ((((q >> 5u64) & (
    u64::MAX >> 58u64)) << 5u32) | ((((q >> 1u64) & (u64::MAX >> 60u64)) << 1u32) | ((((q
        >> 0u64) & (u64::MAX >> 63u64)) << 11u32) | 0u64)))) by (bit_vector)
        requires
            q == ((inst >> 20) & 0xfe0) | ((inst >> 7) & 0x1f),
    ;
}

/// The J-type immediate is `inst[31:12]` scattered to the bits 20, 10:1, 11 and 19:12, and
/// sign-extended.
pub proof fn lemma_imm_j_is_imm(inst: u64)
    ensures
        imm_j(inst) == sext(
            imm_spec(
                inst >> 12u64,
                seq![(20u32, 20u32), (10u32, 1u32), (11u32, 11u32), (19u32, 12u32)],
            ),
            21,
        ),
{
    let ts: Seq<Bits> = seq![(20u32, 20u32), (10u32, 1u32), (11u32, 11u32), (19u32, 12u32)];
    let t1 = ts.drop_first();
    let t2 = t1.drop_first();
    let t3 = t2.drop_first();
    assert(t1 =~= seq![(10u32, 1u32), (11u32, 11u32), (19u32, 12u32)]);
    assert(t2 =~= seq![(11u32, 11u32), (19u32, 12u32)]);
    assert(t3 =~= seq![(19u32, 12u32)]);
    assert(t3.drop_first() =~= Seq::<Bits>::empty());
    reveal_with_fuel(imm_spec, 5);
    reveal_with_fuel(total_width, 5);
    assert(ones(1) == u64::MAX >> 63u64);
    assert(ones(10) == u64::MAX >> 54u64);
    assert(ones(8) == u64::MAX >> 56u64);
    let q = inst >> 12u64;
    assert(imm_spec(q, ts) == (((q >> 19u64) & (u64::MAX >> 63u64)) << 20u32) | ((((q >> 9u64) & (
    u64::MAX >> 54u64)) << 1u32) | ((((q >> 8u64) & (u64::MAX >> 63u64)) << 11u32) | ((((q
        >> 0u64) & (u64::MAX >> 56u64)) << 12u32) | 0u64))));
    assert(((inst >> 11) & 0x100000) | (inst & 0xff000) | ((inst >> 9) & 0x800) | ((inst >> 20)
        & 0x7fe) == (((q >> 19u64) & (u64::MAX >> 63u64)) << 20u32) | ((((q >> 9u64) & (u64::MAX
        >> 54u64)) << 1u32) | ((((q >> 8u64) & (u64::MAX >> 63u64)) << 11u32) | ((((q >> 0u64) & (
    u64::MAX >> 56u64)) << 12u32) | 0u64)))) by (bit_vector)
        requires
            q == inst >> 12u64,
    ;
}

/// The value an OP-IMM instruction computes from `a`, or `None` if it is not defined.
pub open spec fn op_imm_value(inst: u64, a: u64) -> Option<u64> {
    let f3 = funct3(inst);
    let imm = imm_i(inst);
    let sh = shamt(inst);
    if f3 == 0 {
        Some(a.wrapping_add(imm))
    } else if f3 == 1 {
        Some(a << sh)
    } else if f3 == 2 {
        Some(if (a as i64) < (imm as i64) { 1 } else { 0 })
    } else if f3 == 3 {
        Some(if a < imm { 1 } else { 0 })
    } else if f3 == 4 {
        Some(a ^ imm)
    } else if f3 == 5 {
        if funct7(inst) >> 1u64 == 0 {
            Some(a >> sh)
        } else if funct7(inst) >> 1u64 == 0x10 {
            Some(((a as i64) >> sh) as u64)
        } else {
            None
        }
    } else if f3 == 6 {
        Some(a | imm)
    } else if f3 == 7 {
        Some(a & imm)
    } else {
        None
    }
}

/// Whether a branch with `funct3 == f3` on operands `a` and `b` is taken, or `None` if the
/// condition is not defined.
pub open spec fn branch_taken(f3: u64, a: u64, b: u64) -> Option<bool> {
    if f3 == 0 {
        Some(a == b)
    } else if f3 == 1 {
        Some(a != b)
    } else if f3 == 4 {
        Some((a as i64) < (b as i64))
    } else if f3 == 5 {
        Some((a as i64) >= (b as i64))
    } else if f3 == 6 {
        Some(a < b)
    } else if f3 == 7 {
        Some(a >= b)
    } else {
        None
    }
}

/// The access size, in bits, of a store with `funct3 == f3`, or 0 if it is not defined.
pub open spec fn store_size(f3: u64) -> u8 {
    if f3 == 0 {
        BYTE
    } else if f3 == 1 {
        HALF
    } else if f3 == 2 {
        WORD
    } else if f3 == 3 {
        DWORD
    } else {
        0
    }
}

/// The new value of the CSR for a CSR instruction with `funct3 == f3`, given the CSR's old
/// value `t`, the source register `r1` and the 5-bit immediate `imm`.
pub open spec fn csr_op_value(f3: u64, t: u64, r1: u64, imm: u64) -> u64 {
    if f3 == 1 {
        r1
    } else if f3 == 2 {
        t | r1
    } else if f3 == 3 {
        t & !r1
    } else if f3 == 5 {
        imm
    } else if f3 == 6 {
        t | imm
    } else {
        t & !imm
    }
}

/// The exception an `ecall` raises in mode `m`.
pub open spec fn ecall_exception(m: Mode, inst: u64) -> Exception {
    match m {
        Mode::User => Exception::ECallUser,
        Mode::Supervisor => Exception::ECallSuper,
        Mode::Machine => Exception::ECallMachine,
        Mode::Debug => Exception::IllegalInst(inst),
    }
}

/// The outcome of an instruction that is not defined: nothing changes.
pub open spec fn illegal(h: Hart, inst: u64) -> (Result<(), Exception>, Hart) {
    (Err(Exception::IllegalInst(inst)), h)
}

/// OP-IMM: an ALU operation of a register and the I-type immediate.
pub open spec fn step_op_imm(h: Hart, inst: u64) -> (Result<(), Exception>, Hart) {
    match op_imm_value(inst, h.x[rs1(inst) as int]) {
        Some(v) => (Ok(()), Hart { x: write_reg(h.x, rd(inst), v), ..h }),
        None => illegal(h, inst),
    }
}

/// STORE: writes the low bytes of `rs2` at `rs1` plus the S-type immediate.
pub open spec fn step_store(h: Hart, inst: u64) -> (Result<(), Exception>, Hart) {
    let size = store_size(funct3(inst));
    let addr = h.x[rs1(inst) as int].wrapping_add(imm_s(inst));
    if size == 0 {
        illegal(h, inst)
    } else {
        match bus_store(h.fb, h.mem, addr, h.x[rs2(inst) as int], size) {
            Ok((fb, mem)) => (Ok(()), Hart { fb, mem, ..h }),
            Err(e) => (Err(e), h),
        }
    }
}

/// OP: `add`, the only register-register operation.
pub open spec fn step_op(h: Hart, inst: u64) -> (Result<(), Exception>, Hart) {
    if funct3(inst) == 0 && funct7(inst) == 0 {
        let v = h.x[rs1(inst) as int].wrapping_add(h.x[rs2(inst) as int]);
        (Ok(()), Hart { x: write_reg(h.x, rd(inst), v), ..h })
    } else {
        illegal(h, inst)
    }
}

/// BRANCH: compares two registers and, when taken, moves `pc` by the B-type immediate.
pub open spec fn step_branch(h: Hart, inst: u64) -> (Result<(), Exception>, Hart) {
    match branch_taken(funct3(inst), h.x[rs1(inst) as int], h.x[rs2(inst) as int]) {
        Some(true) => (Ok(()), Hart { pc: h.pc.wrapping_add(imm_b(inst)).wrapping_sub(4), ..h }),
        Some(false) => (Ok(()), h),
        None => illegal(h, inst),
    }
}

/// JALR: links `pc + 4` and jumps to `rs1` plus the I-type immediate, bit 0 cleared.
pub open spec fn step_jalr(h: Hart, inst: u64) -> (Result<(), Exception>, Hart) {
    let target = h.x[rs1(inst) as int].wrapping_add(imm_i(inst)) & !1u64;
    (
        Ok(()),
        Hart {
            pc: target.wrapping_sub(4),
            x: write_reg(h.x, rd(inst), h.pc.wrapping_add(4)),
            ..h
        },
    )
}

/// JAL: links `pc + 4` and jumps by the J-type immediate.
pub open spec fn step_jal(h: Hart, inst: u64) -> (Result<(), Exception>, Hart) {
    (
        Ok(()),
        Hart {
            pc: h.pc.wrapping_add(imm_j(inst)).wrapping_sub(4),
            x: write_reg(h.x, rd(inst), h.pc.wrapping_add(4)),
            ..h
        },
    )
}

/// SYSTEM: environment calls, breakpoints and the CSR read-modify-write instructions.
pub open spec fn step_system(h: Hart, inst: u64) -> (Result<(), Exception>, Hart) {
    let f3 = funct3(inst);
    if f3 == 0 {
        if rs2(inst) == 0 && funct7(inst) == 0 {
            (Err(ecall_exception(h.mode, inst)), h)
        } else if rs2(inst) == 1 && funct7(inst) == 0 {
            (Err(Exception::Breakpoint), h)
        } else {
            illegal(h, inst)
        }
    } else if f3 == 4 {
        illegal(h, inst)
    } else {
        let c = csr_addr(inst) as Addr;
        let t = csr_read(h.csr, c);
        let v = csr_op_value(f3, t, h.x[rs1(inst) as int], rs1(inst));
        (Ok(()), Hart { csr: csr_write(h.csr, c, v), x: write_reg(h.x, rd(inst), t), ..h })
    }
}

/// Executes `inst` on the hart `h`, whose `pc` is the instruction's address. Control
/// transfers leave `pc` four bytes before their target, as the caller then adds four.
pub open spec fn step(h: Hart, inst: u64) -> (Result<(), Exception>, Hart) {
    let op = opcode(inst);
    if op == 0x13 {
        step_op_imm(h, inst)
    } else if op == 0x23 {
        step_store(h, inst)
    } else if op == 0x33 {
        step_op(h, inst)
    } else if op == 0x63 {
        step_branch(h, inst)
    } else if op == 0x67 {
        step_jalr(h, inst)
    } else if op == 0x6f {
        step_jal(h, inst)
    } else if op == 0x73 {
        step_system(h, inst)
    } else {
        illegal(h, inst)
    }
}

/// The fields of an instruction word, with the register numbers known to be in range.
fn fields(inst: u64) -> (r: (u64, u64, u64, u64, u64, u64))
    ensures
        r == (opcode(inst), rd(inst), funct3(inst), rs1(inst), rs2(inst), funct7(inst)),
        r.1 < 32 && r.2 < 8 && r.3 < 32 && r.4 < 32,
{
    assert((inst & 0xf80) >> 7 < 32 && (inst & 0x7000) >> 12 < 8 && (inst & 0xf8000) >> 15 < 32
        && (inst & 0x1f00000) >> 20 < 32) by (bit_vector);
    (
        inst & 0x7f,
        (inst & 0xf80) >> 7,
        (inst & 0x7000) >> 12,
        (inst & 0xf8000) >> 15,
        (inst & 0x1f00000) >> 20,
        (inst & 0xfe000000) >> 25,
    )
}

fn sign_extend(v: u64, bits: u64) -> (r: u64)
    requires
        1 <= bits < 64,
    ensures
        r == sext(v, bits),
{
    if (v >> (bits - 1)) & 1 == 1 {
        v | (u64::MAX << bits)
    } else {
        v
    }
}

impl Cpu {
    fn exec_op_imm(&mut self, inst: u64) -> (r: Result<(), Exception>)
        requires
            opcode(inst) == 0x13,
        ensures
            (r, final(self)@) == step_op_imm(old(self)@, inst),
    {
        let (_, rd, funct3, rs1, _, funct7) = fields(inst);
        let imm = sign_extend((inst >> 20) & 0xfff, 12);
        let shift = (inst >> 20) & 0x3f;
        assert((inst >> 20) & 0x3f < 64) by (bit_vector);
        let a = self.xregs.load(rs1);
        let v = if funct3 == 0x0 {
            a.wrapping_add(imm)
        } else if funct3 == 0x1 {
            a << shift
        } else if funct3 == 0x2 {
            if (a as i64) < (imm as i64) {
                1
            } else {
                0
            }
        } else if funct3 == 0x3 {
            if a < imm {
                1
            } else {
                0
            }
        } else if funct3 == 0x4 {
            a ^ imm
        } else if funct3 == 0x5 {
            let funct6 = funct7 >> 1;
            if funct6 == 0x00 {
                a >> shift
            } else if funct6 == 0x10 {
                ((a as i64) >> shift) as u64
            } else {
                return Err(Exception::IllegalInst(inst));
            }
        } else if funct3 == 0x6 {
            a | imm
        } else {
            a & imm
        };
        self.xregs.store(rd, v);
        Ok(())
    }

    fn exec_store(&mut self, inst: u64) -> (r: Result<(), Exception>)
        requires
            opcode(inst) == 0x23,
        ensures
            (r, final(self)@) == step_store(old(self)@, inst),
    {
        let (_, _, funct3, rs1, rs2, _) = fields(inst);
        let imm = sign_extend(((inst >> 20) & 0xfe0) | ((inst >> 7) & 0x1f), 12);
        let addr = self.xregs.load(rs1).wrapping_add(imm);
        let size = if funct3 == 0x0 {
            BYTE
        } else if funct3 == 0x1 {
            HALF
        } else if funct3 == 0x2 {
            WORD
        } else if funct3 == 0x3 {
            DWORD
        } else {
            return Err(Exception::IllegalInst(inst));
        };
        let value = self.xregs.load(rs2);
        self.store(addr, value, size)
    }

    fn exec_op(&mut self, inst: u64) -> (r: Result<(), Exception>)
        requires
            opcode(inst) == 0x33,
        ensures
            (r, final(self)@) == step_op(old(self)@, inst),
    {
        let (_, rd, funct3, rs1, rs2, funct7) = fields(inst);
        if funct3 == 0x0 && funct7 == 0x00 {
            let v = self.xregs.load(rs1).wrapping_add(self.xregs.load(rs2));
            self.xregs.store(rd, v);
            Ok(())
        } else {
            Err(Exception::IllegalInst(inst))
        }
    }

    fn exec_branch(&mut self, inst: u64) -> (r: Result<(), Exception>)
        requires
            opcode(inst) == 0x63,
        ensures
            (r, final(self)@) == step_branch(old(self)@, inst),
    {
        let (_, _, funct3, rs1, rs2, _) = fields(inst);
        let imm = sign_extend(
            ((inst >> 19) & 0x1000) | ((inst << 4u64) & 0x800) | ((inst >> 20) & 0x7e0) | ((inst
                >> 7) & 0x1e),
            13,
        );
        let a = self.xregs.load(rs1);
        let b = self.xregs.load(rs2);
        let taken = if funct3 == 0x0 {
            a == b
        } else if funct3 == 0x1 {
            a != b
        } else if funct3 == 0x4 {
            (a as i64) < (b as i64)
        } else if funct3 == 0x5 {
            (a as i64) >= (b as i64)
        } else if funct3 == 0x6 {
            a < b
        } else if funct3 == 0x7 {
            a >= b
        } else {
            return Err(Exception::IllegalInst(inst));
        };
        if taken {
            self.pc = self.pc.wrapping_add(imm).wrapping_sub(4);
        }
        Ok(())
    }

    fn exec_jalr(&mut self, inst: u64) -> (r: Result<(), Exception>)
        requires
            opcode(inst) == 0x67,
        ensures
            (r, final(self)@) == step_jalr(old(self)@, inst),
    {
        let (_, rd, _, rs1, _, _) = fields(inst);
        let t = self.pc.wrapping_add(4);
        let imm = sign_extend((inst >> 20) & 0xfff, 12);
        let target = self.xregs.load(rs1).wrapping_add(imm) & !1u64;
        self.pc = target.wrapping_sub(4);
        self.xregs.store(rd, t);
        Ok(())
    }

    fn exec_jal(&mut self, inst: u64) -> (r: Result<(), Exception>)
        requires
            opcode(inst) == 0x6f,
        ensures
            (r, final(self)@) == step_jal(old(self)@, inst),
    {
        let (_, rd, _, _, _, _) = fields(inst);
        self.xregs.store(rd, self.pc.wrapping_add(4));
        let imm = sign_extend(
            ((inst >> 11) & 0x100000) | (inst & 0xff000) | ((inst >> 9) & 0x800) | ((inst >> 20)
                & 0x7fe),
            21,
        );
        self.pc = self.pc.wrapping_add(imm).wrapping_sub(4);
        Ok(())
    }

    fn exec_system(&mut self, inst: u64) -> (r: Result<(), Exception>)
        requires
            opcode(inst) == 0x73,
        ensures
            (r, final(self)@) == step_system(old(self)@, inst),
    {
        let (_, rd, funct3, rs1, rs2, funct7) = fields(inst);
        if funct3 == 0x0 {
            if rs2 == 0x0 && funct7 == 0x0 {
                Err(
                    match self.mode {
                        Mode::User => Exception::ECallUser,
                        Mode::Supervisor => Exception::ECallSuper,
                        Mode::Machine => Exception::ECallMachine,
                        Mode::Debug => Exception::IllegalInst(inst),
                    },
                )
            } else if rs2 == 0x1 && funct7 == 0x0 {
                Err(Exception::Breakpoint)
            } else {
                Err(Exception::IllegalInst(inst))
            }
        } else if funct3 == 0x4 {
            Err(Exception::IllegalInst(inst))
        } else {
            assert((inst >> 20) & 0xfff < 4096) by (bit_vector);
            let csr = ((inst >> 20) & 0xfff) as u16;
            let imm = rs1;
            let t = self.state.load(csr);
            let r1 = self.xregs.load(rs1);
            let v = if funct3 == 0x1 {
                r1
            } else if funct3 == 0x2 {
                t | r1
            } else if funct3 == 0x3 {
                t & !r1
            } else if funct3 == 0x5 {
                imm
            } else if funct3 == 0x6 {
                t | imm
            } else {
                t & !imm
            };
            self.state.store(csr, v);
            self.xregs.store(rd, t);
            Ok(())
        }
    }

    /// Decodes and executes `inst` at the current `pc`.
    pub(crate) fn execute_general(&mut self, inst: u64) -> (r: Result<(), Exception>)
        ensures
            (r, final(self)@) == step(old(self)@, inst),
    {
        let opcode = inst & 0x7f;
        if opcode == 0x13 {
            self.exec_op_imm(inst)
        } else if opcode == 0x23 {
            self.exec_store(inst)
        } else if opcode == 0x33 {
            self.exec_op(inst)
        } else if opcode == 0x63 {
            self.exec_branch(inst)
        } else if opcode == 0x67 {
            self.exec_jalr(inst)
        } else if opcode == 0x6f {
            self.exec_jal(inst)
        } else if opcode == 0x73 {
            self.exec_system(inst)
        } else {
            Err(Exception::IllegalInst(inst))
        }
    }
}

} // verus!
