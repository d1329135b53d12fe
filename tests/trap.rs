use vrisc::{Exception, Trap};

#[test]
fn causes_are_architectural() {
    let cases = [
        (Exception::InstAddrMisalign, 0),
        (Exception::InstAccessFault, 1),
        (Exception::IllegalInst(5), 2),
        (Exception::Breakpoint, 3),
        (Exception::LoadAddrMisalign, 4),
        (Exception::LoadAccessFault, 5),
        (Exception::StoreAMOAddrMisalign, 6),
        (Exception::StoreAMOAccessFault, 7),
        (Exception::ECallUser, 8),
        (Exception::ECallSuper, 9),
        (Exception::ECallMachine, 11),
        (Exception::InstPageFault(1), 12),
        (Exception::LoadPageFault(1), 13),
        (Exception::StoreAMOPageFault(1), 15),
    ];
    for (e, c) in cases {
        assert_eq!(e.cause(), c);
    }
}

#[test]
fn trap_classes() {
    assert_eq!(Trap::from_ex(Exception::ECallUser), Trap::Requested);
    assert_eq!(Trap::from_ex(Exception::Breakpoint), Trap::Requested);
    assert_eq!(Trap::from_ex(Exception::IllegalInst(0)), Trap::Invisible);
    assert_eq!(Trap::from_ex(Exception::LoadPageFault(0)), Trap::Invisible);
    assert_eq!(Trap::from_ex(Exception::InstAccessFault), Trap::Fatal);
    assert_eq!(Trap::from_ex(Exception::StoreAMOAddrMisalign), Trap::Fatal);
}

#[test]
fn epc_and_mtval() {
    assert_eq!(Exception::ECallMachine.epc(0x100), 0x100);
    assert_eq!(Exception::InstPageFault(9).epc(0x100), 0x100);
    assert_eq!(Exception::IllegalInst(9).epc(0x100), 0x104);
    assert_eq!(Exception::LoadAccessFault.epc(u64::MAX), 3);
    assert_eq!(Exception::IllegalInst(9).mtval(0x100), 9);
    assert_eq!(Exception::StoreAMOPageFault(0x77).mtval(0x100), 0x77);
    assert_eq!(Exception::LoadAccessFault.mtval(0x100), 0x100);
    assert_eq!(Exception::ECallUser.mtval(0x100), 0);
}
