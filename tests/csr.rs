use vrisc::csr::{self, mask, x, State};

#[test]
fn reset_state_advertises_misa() {
    let s = State::new();
    assert_eq!(s.load(csr::MISA), (2 << 62) | (1 << 20) | (1 << 18) | (1 << 12) | (1 << 8) | (1 << 5) | (1 << 3) | (1 << 2) | 1);
    assert_eq!(s.load(csr::MSTATUS), 0);
    assert_eq!(s.load(csr::TIME), 0);
}

#[test]
fn mask_of_fields() {
    assert_eq!(mask(x::SIE), 0b10);
    assert_eq!(mask(x::SPIE), 0b100000);
    assert_eq!(mask(x::MPP), 0b1100000000000);
    assert_eq!(mask((0, 64)), u64::MAX);
}

#[test]
fn store_then_load_plain_register() {
    let mut s = State::new();
    s.store(csr::MTVEC, 0x8000_1001);
    assert_eq!(s.load(csr::MTVEC), 0x8000_1001);
}

#[test]
fn sstatus_is_a_view_of_mstatus() {
    let mut s = State::new();
    s.store(csr::MSTATUS, 1 << 3);
    s.store(csr::SSTATUS, u64::MAX);
    assert_eq!(s.load(csr::SSTATUS), 0x122);
    assert_eq!(s.load(csr::SSTATUS), s.load(csr::MSTATUS) & 0x122);
    assert_eq!(s.load(csr::MSTATUS), 0x122 | (1 << 3));
}

#[test]
fn sie_is_filtered_by_mideleg() {
    let mut s = State::new();
    s.store(csr::MIDELEG, 0b1010);
    s.store(csr::MIE, 0b0101);
    s.store(csr::SIE, 0b1111);
    assert_eq!(s.load(csr::MIE), 0b1111);
    assert_eq!(s.load(csr::SIE), 0b1010);
    s.store(csr::SIE, 0);
    assert_eq!(s.load(csr::MIE), 0b0101);
}

#[test]
fn sip_writes_only_delegated_ssip() {
    let mut s = State::new();
    s.store(csr::SIP, u64::MAX);
    assert_eq!(s.load(csr::MIP), 0);
    s.store(csr::MIDELEG, u64::MAX);
    s.store(csr::SIP, u64::MAX);
    assert_eq!(s.load(csr::MIP), csr::SSIP_BIT);
    assert_eq!(s.load(csr::SIP), csr::SSIP_BIT);
}

#[test]
fn store_bits_then_load_bits() {
    let mut s = State::new();
    s.store(csr::MSTATUS, 0xffff_0000_0000_0008);
    s.store_mstatus(x::MPP, 0b11);
    assert_eq!(s.load_mstatus(x::MPP), 0b11);
    assert_eq!(s.load(csr::MSTATUS), 0xffff_0000_0000_1808);
    s.store_mstatus(x::MPP, 0b01);
    assert_eq!(s.load_mstatus(x::MPP), 0b01);
    assert_eq!(s.load_mstatus(x::MIE), 1);
    s.store_bits(csr::MEPC, (32, 64), 0xdead_beef);
    assert_eq!(s.load_bits(csr::MEPC, (32, 64)), 0xdead_beef);
    assert_eq!(s.load(csr::MEPC), 0xdead_beef_0000_0000);
}

#[test]
fn sstatus_fields_through_the_view() {
    let mut s = State::new();
    s.store_sstatus(x::SPP, 1);
    assert_eq!(s.load_sstatus(x::SPP), 1);
    assert_eq!(s.load_mstatus(x::SPP), 1);
    s.store_sstatus(x::MIE, 1);
    assert_eq!(s.load_mstatus(x::MIE), 0);
}

#[test]
fn cycle_time_wraps() {
    let mut s = State::new();
    s.cycle_time();
    assert_eq!(s.load(csr::TIME), 1);
    s.store(csr::TIME, u64::MAX);
    s.cycle_time();
    assert_eq!(s.load(csr::TIME), 0);
}
