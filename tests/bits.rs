use vrisc::utils::ImmBuilder;

#[test]
fn imm() {
    let inst: u64 = 0x420daa6f; // jal x20, 893984

    let a = (((inst & 0x80000000) as i32 as i64 >> 11) as u64)
        | (inst & 0xff000)
        | ((inst >> 9) & 0x800)
        | ((inst >> 20) & 0x7fe);

    let inst = inst >> 12;

    let b = ((inst & (0b11111111 << 0)) >> 0) << 12
        | ((inst & (1 << 8)) >> 8) << 11
        | ((inst & (0b1111111111 << 9)) >> 9) << 1
        | ((inst & (1 << 19)) >> 19) << 20;

    let c = vrisc::utils::imm(inst, &[(20, 20), (10, 1), (11, 11), (19, 12)]);

    assert_eq!(a, b);
    assert_eq!(b, c);

    let inst: u64 = 0x4c001963; // bne x0, x0, 1234
    // pack inst[11:7] into bits 4:0 and inst[31:25] into bits 11:5
    let inst = (inst & 0b11111 << 7) >> 7 | (inst & 0b1111111 << 25) >> 20;

    let x = vrisc::utils::imm(inst, &[(12, 12), (10, 5), (4, 1), (11, 11)]);
    println!("{:014b}", 1234);
    println!("{:014b}", x);
    assert_eq!(1234, x);
}

#[test]
fn slice() {
    let repr = |inst: u64| {
        vrisc::utils::imm(
            vrisc::utils::slice(inst, &[(31, 25), (11, 7)]),
            &[(12, 12), (10, 5), (4, 1), (11, 11)],
        )
    };
    assert_eq!(1234, repr(0x4c000963)); // beq x0, x0, 1234
    assert_eq!(2222, repr(0x0a0057e3)); // bge x0, x0, 2222
    assert_eq!(0, repr(0x00000063)); // beq x0, x0, 0

    let store = |inst: u64| vrisc::utils::slice(inst, &[(31, 25), (11, 7)]);
    assert_eq!(1234, store(0x4c000923)); // sb x0, 1234(x0)

    let auipc = |inst: u64| vrisc::utils::slice(inst, &[(31, 12)]);
    assert_eq!(0, auipc(0x297)); // auipc x5, 0
    assert_eq!(184185, auipc(0x2cf79017)); // auipc x0, 184185
}

#[test]
fn slice_whole_word_and_reversed_bounds() {
    assert_eq!(vrisc::utils::slice(0x0123_4567_89ab_cdef, &[(63, 0)]), 0x0123_4567_89ab_cdef);
    assert_eq!(vrisc::utils::slice(0xf0, &[(4, 7)]), 0xf);
    assert_eq!(vrisc::utils::slice(0xf0, &[]), 0);
}

#[test]
fn imm_scatters_low_bits_to_last_range() {
    assert_eq!(vrisc::utils::imm(0b1, &[(12, 12), (11, 11)]), 1 << 11);
    assert_eq!(vrisc::utils::imm(0b10, &[(12, 12), (11, 11)]), 1 << 12);
}

#[test]
fn imm_builder_applies_its_function() {
    let b = ImmBuilder(|x: u64| x << 1);
    assert_eq!(b.build(21u64), 42);
}
