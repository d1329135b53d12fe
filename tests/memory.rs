use vrisc::bus::{dram, vga};
use vrisc::dev::vga::Vga;
use vrisc::dram::ub;
use vrisc::{Bus, Dram, Exception};

#[test]
fn little_endian_word() {
    let mut bus = Bus::new(64);
    bus.store(dram::ADDR, 0x0123_4567, 32).unwrap();
    let bytes: Vec<u64> = (0..4).map(|i| bus.load(dram::ADDR + i, 8).unwrap()).collect();
    assert_eq!(bytes, vec![0x67, 0x45, 0x23, 0x01]);
    assert_eq!(&bus.dram.as_slice()[..4], &[0x67, 0x45, 0x23, 0x01]);
}

#[test]
fn store_then_load_each_size() {
    let v: u64 = 0xfedc_ba98_7654_3210;
    for (size, expect) in [(8u8, 0x10u64), (16, 0x3210), (32, 0x7654_3210), (64, v)] {
        let mut bus = Bus::new(32);
        bus.store(dram::ADDR + 8, v, size).unwrap();
        assert_eq!(bus.load(dram::ADDR + 8, size), Ok(expect));
    }
}

#[test]
fn dram_bad_size_is_store_fault() {
    let mut d = Dram::with_capacity(16);
    assert_eq!(d.load(0, 12), Err(Exception::StoreAMOAccessFault));
    assert_eq!(d.store(0, 1, 7), Err(Exception::StoreAMOAccessFault));
}

#[test]
fn dram_access_past_the_end_faults() {
    let mut d = Dram::with_capacity(16);
    assert_eq!(d.load(13, 32), Err(Exception::LoadAccessFault));
    assert_eq!(d.load(u64::MAX, 8), Err(Exception::LoadAccessFault));
    assert_eq!(d.store(9, 1, 64), Err(Exception::StoreAMOAccessFault));
    assert_eq!(d.load(8, 64), Ok(0));
    assert_eq!(d.as_slice(), &[0u8; 16]);
}

#[test]
fn dram_init_keeps_capacity() {
    let mut d = Dram::with_capacity(8);
    d.store(0, u64::MAX, 64).unwrap();
    d.init(&[1, 2, 3]);
    assert_eq!(d.as_slice(), &[1, 2, 3, 0xff, 0xff, 0xff, 0xff, 0xff]);
}

#[test]
fn unmapped_addresses_fault() {
    let mut bus = Bus::new(16);
    assert_eq!(bus.load(0x1000, 32), Err(Exception::LoadAccessFault));
    assert_eq!(bus.store(0x1000, 1, 32), Err(Exception::StoreAMOAccessFault));
    assert_eq!(bus.load(u64::MAX, 64), Err(Exception::LoadAccessFault));
}

#[test]
fn framebuffer_is_mapped() {
    let mut bus = Bus::new(16);
    bus.store(vga::ADDR + 3, 0xabcd, 16).unwrap();
    assert_eq!(bus.load(vga::ADDR + 3, 16), Ok(0xabcd));
    assert_eq!(bus.vga.buf.as_slice()[3], 0xcd);
    assert_eq!(Vga::SIZE, 3 * 224 * 126);
    let mut v = Vga::new();
    v.store(0, 7, 8).unwrap();
    assert_eq!(v.load(0, 8), Ok(7));
}

#[test]
fn low_byte() {
    assert_eq!(ub(0x1234), 0x34);
}

#[test]
fn full_window_memory() {
    let d = Dram::new();
    assert_eq!(d.as_slice().len() as u64, vrisc::DRAM_SIZE);
    assert_eq!(d.load(vrisc::DRAM_SIZE - 8, 64), Ok(0));
    assert_eq!(d.load(vrisc::DRAM_SIZE - 7, 64), Err(Exception::LoadAccessFault));
}
