use vrisc::bus::dram;
use vrisc::csr::{self, x};
use vrisc::snapshot::CpuRepr;
use vrisc::cpu::xregs;
use vrisc::{Cpu, Emu, Exception, Mode, Trap, Xregs, POINTER_TO_DTB, REG_COUNT};

fn image(words: &[u32]) -> Vec<u8> {
    words.iter().flat_map(|w| w.to_le_bytes()).collect()
}

fn run(emu: &mut Emu, data: &[u8]) -> Result<(), Exception> {
    emu.with_dram(data).with_pc(dram::ADDR);
    let end = dram::ADDR + data.len() as u64;
    while (dram::ADDR..end).contains(&emu.cpu.pc) {
        emu.cycle()?;
    }
    Ok(())
}

#[test]
fn addi_add_sequence() {
    let mut emu = Emu::new(1024 * 1024);
    let data = [
        0x93, 0x01, 0x50, 0x00, // addi x3, x0, 5
        0x13, 0x02, 0x60, 0x00, // addi x4, x0, 6
        0x33, 0x81, 0x41, 0x00, // add x2, x3, x4
    ];
    run(&mut emu, &data).unwrap();
    assert_eq!(emu.cpu.xregs.load(3), 5);
    assert_eq!(emu.cpu.xregs.load(4), 6);
    assert_eq!(emu.cpu.xregs.load(2), 11);
    assert_eq!(emu.cpu.pc, dram::ADDR + 12);
    assert_eq!(emu.cpu.state.load(csr::TIME), 3);
    assert_eq!(emu.cpu.xregs.into_inner(), xregs([(2, 11), (3, 5), (4, 6)]));
}

#[test]
fn expected_registers_start_from_reset() {
    let r = xregs([(2, 11), (5, 1), (5, 2)]);
    assert_eq!(r[2], 11);
    assert_eq!(r[5], 2);
    assert_eq!(r[11], POINTER_TO_DTB);
    assert_eq!(xregs([]), Xregs::new().into_inner());
}

#[test]
fn branch_taken_skips() {
    let mut emu = Emu::new(1024);
    // addi x1,x0,1; bne x1,x0,+8; addi x2,x0,42; addi x3,x0,7
    run(&mut emu, &image(&[0x00100093, 0x00009463, 0x02a00113, 0x00700193])).unwrap();
    assert_eq!(emu.cpu.xregs.load(1), 1);
    // skipped: x2 still holds its reset value
    assert_eq!(emu.cpu.xregs.load(2), dram::END);
    assert_eq!(emu.cpu.xregs.load(3), 7);
}

#[test]
fn backward_branch_loops() {
    let mut emu = Emu::new(1024);
    // addi x1,x0,3; addi x1,x1,-1; bne x1,x0,-4; addi x2,x0,42
    run(&mut emu, &image(&[0x00300093, 0xfff08093, 0xfe009ee3, 0x02a00113])).unwrap();
    assert_eq!(emu.cpu.xregs.load(1), 0);
    assert_eq!(emu.cpu.xregs.load(2), 42);
    assert_eq!(emu.cpu.state.load(csr::TIME), 8);
}

#[test]
fn jal_links_and_jumps() {
    let mut emu = Emu::new(1024);
    // jal x5,+8; addi x6,x0,1; addi x7,x0,2
    run(&mut emu, &image(&[0x008002ef, 0x00100313, 0x00200393])).unwrap();
    assert_eq!(emu.cpu.xregs.load(5), dram::ADDR + 4);
    assert_eq!(emu.cpu.xregs.load(6), 0);
    assert_eq!(emu.cpu.xregs.load(7), 2);
}

#[test]
fn jalr_clears_the_low_bit() {
    let mut emu = Emu::new(1024);
    emu.cpu.xregs.store(6, dram::ADDR + 9);
    // jalr x1, 3(x6): target = (ADDR + 12) & !1
    run(&mut emu, &image(&[0x003300e7, 0x00100113, 0x00200113, 0x00300193])).unwrap();
    assert_eq!(emu.cpu.xregs.load(1), dram::ADDR + 4);
    assert_eq!(emu.cpu.xregs.load(2), dram::END);
    assert_eq!(emu.cpu.xregs.load(3), 3);
}

#[test]
fn store_word_then_read_dram() {
    let mut emu = Emu::new(1024);
    emu.cpu.xregs.store(2, dram::ADDR + 0x100);
    // addi x1,x0,0x7b; sw x1,0(x2)
    run(&mut emu, &image(&[0x07b00093, 0x00112023])).unwrap();
    assert_eq!(&emu.cpu.bus.dram.as_slice()[0x100..0x104], &[0x7b, 0, 0, 0]);
}

#[test]
fn store_outside_memory_faults() {
    let mut emu = Emu::new(1024);
    // x2 starts at the end of the DRAM window, past this machine's memory
    assert_eq!(run(&mut emu, &image(&[0x00112023])), Err(Exception::StoreAMOAccessFault));
    assert_eq!(emu.cpu.pc, dram::ADDR);
}

#[test]
fn illegal_instruction_trap() {
    let mut emu = Emu::new(1024);
    emu.cpu.state.store(csr::MTVEC, 0x8000_0101);
    let r = run(&mut emu, &image(&[0xffffffff]));
    assert_eq!(r, Err(Exception::IllegalInst(0xffffffff)));
    assert_eq!(emu.cpu.pc, dram::ADDR);
    let t = emu.cpu.catch_exception(Exception::IllegalInst(0xffffffff));
    assert_eq!(t, Trap::Invisible);
    assert_eq!(emu.cpu.state.load(csr::MCAUSE), 2);
    assert_eq!(emu.cpu.state.load(csr::MTVAL), 0xffffffff);
    assert_eq!(emu.cpu.state.load(csr::MEPC), dram::ADDR + 4);
    assert_eq!(emu.cpu.pc, 0x8000_0100);
    assert_eq!(emu.cpu.mode, Mode::Machine);
}

#[test]
fn ecall_from_machine() {
    let mut emu = Emu::new(1024);
    emu.cpu.state.store_mstatus(x::MIE, 1);
    let r = run(&mut emu, &image(&[0x00000073]));
    assert_eq!(r, Err(Exception::ECallMachine));
    let t = emu.cpu.catch_exception(Exception::ECallMachine);
    assert_eq!(t, Trap::Requested);
    assert_eq!(emu.cpu.state.load(csr::MCAUSE), 11);
    assert_eq!(emu.cpu.state.load(csr::MEPC), dram::ADDR);
    assert_eq!(emu.cpu.state.load_mstatus(x::MPIE), 1);
    assert_eq!(emu.cpu.state.load_mstatus(x::MIE), 0);
    assert_eq!(emu.cpu.state.load_mstatus(x::MPP), 0b11);
}

#[test]
fn ecall_from_user_and_supervisor() {
    let mut emu = Emu::new(1024);
    emu.cpu.mode = Mode::User;
    assert_eq!(run(&mut emu, &image(&[0x00000073])), Err(Exception::ECallUser));
    emu.cpu.mode = Mode::Supervisor;
    assert_eq!(emu.cycle(), Err(Exception::ECallSuper));
    assert_eq!(emu.cpu.catch_exception(Exception::ECallSuper), Trap::Requested);
    assert_eq!(emu.cpu.state.load_mstatus(x::MPP), 0b01);
    assert_eq!(emu.cpu.mode, Mode::Machine);
}

#[test]
fn ebreak_raises_breakpoint() {
    let mut emu = Emu::new(1024);
    assert_eq!(run(&mut emu, &image(&[0x00100073])), Err(Exception::Breakpoint));
}

#[test]
fn csr_instructions() {
    let mut emu = Emu::new(1024);
    emu.cpu.xregs.store(1, 0b1010);
    // csrrw x2, mscratch(0x340), x1; csrrs x3, 0x340, x0; csrrci x4, 0x340, 2; csrrsi x5, 0x340, 5
    let prog = [0x34009173, 0x340021f3, 0x34017273, 0x3402e2f3];
    run(&mut emu, &image(&prog)).unwrap();
    assert_eq!(emu.cpu.xregs.load(2), 0);
    assert_eq!(emu.cpu.xregs.load(3), 0b1010);
    assert_eq!(emu.cpu.xregs.load(4), 0b1010);
    assert_eq!(emu.cpu.xregs.load(5), 0b1000);
    assert_eq!(emu.cpu.state.load(0x340), 0b1101);
}

#[test]
fn op_imm_variants() {
    let mut emu = Emu::new(1024);
    emu.cpu.xregs.store(1, 0xffff_ffff_ffff_fff0);
    let prog = [
        0xfff0a113, // slti x2, x1, -1
        0xfff0b193, // sltiu x3, x1, -1
        0x4040d213, // srai x4, x1, 4
        0x0040d293, // srli x5, x1, 4
        0x00409313, // slli x6, x1, 4
        0x0ff0c393, // xori x7, x1, 0xff
        0x00f0e413, // ori x8, x1, 0xf
        0x0f00f493, // andi x9, x1, 0xf0
    ];
    run(&mut emu, &image(&prog)).unwrap();
    assert_eq!(emu.cpu.xregs.load(2), 1);
    assert_eq!(emu.cpu.xregs.load(3), 1);
    assert_eq!(emu.cpu.xregs.load(4), u64::MAX);
    assert_eq!(emu.cpu.xregs.load(5), 0x0fff_ffff_ffff_ffff);
    assert_eq!(emu.cpu.xregs.load(6), 0xffff_ffff_ffff_ff00);
    assert_eq!(emu.cpu.xregs.load(7), 0xffff_ffff_ffff_ff0f);
    assert_eq!(emu.cpu.xregs.load(8), 0xffff_ffff_ffff_ffff);
    assert_eq!(emu.cpu.xregs.load(9), 0xf0);
}

#[test]
fn writes_to_x0_are_dropped() {
    let mut emu = Emu::new(1024);
    // addi x0, x0, 5; jal x0, +4
    run(&mut emu, &image(&[0x00500013, 0x0040006f])).unwrap();
    assert_eq!(emu.cpu.xregs.load(0), 0);
}

#[test]
fn fetch_faults() {
    let mut cpu = Cpu::new(16);
    cpu.pc = dram::ADDR;
    assert_eq!(cpu.fetch(8), Err(Exception::InstAccessFault));
    assert_eq!(cpu.fetch(32), Ok(0));
    cpu.pc = 0x10;
    assert_eq!(cpu.fetch(32), Err(Exception::InstAccessFault));
    cpu.pc = dram::ADDR + 14;
    assert_eq!(cpu.fetch(32), Err(Exception::InstAccessFault));
    assert_eq!(cpu.fetch(16), Ok(0));
}

#[test]
fn reset_registers() {
    let x = Xregs::new();
    assert_eq!(x.load(2), dram::END);
    assert_eq!(x.load(11), POINTER_TO_DTB);
    let regs = x.into_inner();
    assert_eq!(regs.len(), REG_COUNT);
    assert_eq!(regs.iter().filter(|&&r| r != 0).count(), 2);
    let cpu = Cpu::new(4);
    assert_eq!(cpu.pc, 0);
    assert_eq!(cpu.mode, Mode::Machine);
    assert_eq!(Mode::Machine.bits(), 3);
}

#[test]
fn snapshot_round_trip() {
    let mut a = Cpu::new(128);
    a.pc = 0x8000_0040;
    a.mode = Mode::Supervisor;
    for i in 0..REG_COUNT as u64 {
        a.xregs.store(i, i * 3 + 1);
    }
    a.bus.dram.init(&[1, 2, 0, 3, 0, 0]);
    let repr = CpuRepr::from_cpu(&a);
    assert_eq!(repr.bus.dram, vec![1, 2, 0, 3]);
    assert_eq!(repr.mode, 1);

    let mut b = Cpu::new(128);
    b.bus.dram.init(&[9; 128]);
    repr.map_to(&mut b);
    assert_eq!(a.pc, b.pc);
    assert_eq!(a.mode, b.mode);
    assert_eq!(a.xregs.into_inner(), b.xregs.into_inner());
    assert_eq!(&b.bus.dram.as_slice()[..6], &[1, 2, 0, 3, 9, 9]);

    let repr = CpuRepr::from_cpu(&a);
    let mut c = Cpu::new(128);
    repr.map_to(&mut c);
    assert_eq!(a.bus.dram.as_slice(), c.bus.dram.as_slice());
}

#[test]
fn undefined_encodings_are_illegal() {
    let words = [
        0x0410d113u32, // shift-right immediate with an unknown funct6
        0x402081b3,    // sub: only add is defined
        0x00002063,    // branch with funct3 = 2
        0x00004023,    // store with funct3 = 4
        0x00004073,    // system with funct3 = 4
        0x30200073,    // mret
        0x00002083,    // lw: loads are not defined
    ];
    for w in words {
        let mut emu = Emu::new(64);
        assert_eq!(run(&mut emu, &image(&[w])), Err(Exception::IllegalInst(w as u64)));
        assert_eq!(emu.cpu.pc, dram::ADDR);
    }
}
