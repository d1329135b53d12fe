use vstd::prelude::*;

verus! {

/// Synchronous exceptions raised while executing an instruction.
#[derive(Debug, Clone, Copy, PartialEq, Eq, Structural)]
pub enum Exception {
    InstAddrMisalign,
    InstAccessFault,
    IllegalInst(u64),
    Breakpoint,
    LoadAddrMisalign,
    LoadAccessFault,
    StoreAMOAddrMisalign,
    StoreAMOAccessFault,
    ECallUser,
    ECallSuper,
    ECallMachine,
    InstPageFault(u64),
    LoadPageFault(u64),
    StoreAMOPageFault(u64),
}

/// How the host should treat a trap once it has been delivered.
#[derive(Debug, Clone, Copy, PartialEq, Eq, Structural)]
pub enum Trap {
    Contained,
    Requested,
    Invisible,
    Fatal,
}

/// The architectural exception code recorded in `mcause`.
pub open spec fn cause_of(e: Exception) -> u64 {
    match e {
        Exception::InstAddrMisalign => 0,
        Exception::InstAccessFault => 1,
        Exception::IllegalInst(_) => 2,
        Exception::Breakpoint => 3,
        Exception::LoadAddrMisalign => 4,
        Exception::LoadAccessFault => 5,
        Exception::StoreAMOAddrMisalign => 6,
        Exception::StoreAMOAccessFault => 7,
        Exception::ECallUser => 8,
        Exception::ECallSuper => 9,
        Exception::ECallMachine => 11,
        Exception::InstPageFault(_) => 12,
        Exception::LoadPageFault(_) => 13,
        Exception::StoreAMOPageFault(_) => 15,
    }
}

/// Exceptions after which the faulting instruction is considered not retired.
pub open spec fn keeps_pc(e: Exception) -> bool {
    match e {
        Exception::Breakpoint | Exception::ECallUser | Exception::ECallSuper
        | Exception::ECallMachine | Exception::InstPageFault(_) | Exception::LoadPageFault(_)
        | Exception::StoreAMOPageFault(_) => true,
        _ => false,
    }
}

/// The exception program counter for a fault at `pc`.
pub open spec fn epc_of(e: Exception, pc: u64) -> u64 {
    if keeps_pc(e) {
        pc
    } else {
        pc.wrapping_add(4)
    }
}

/// The trap value (`mtval`) for a fault at `pc`.
pub open spec fn mtval_of(e: Exception, pc: u64) -> u64 {
    match e {
        Exception::InstAddrMisalign | Exception::InstAccessFault | Exception::Breakpoint
        | Exception::LoadAddrMisalign | Exception::LoadAccessFault
        | Exception::StoreAMOAddrMisalign | Exception::StoreAMOAccessFault => pc,
        Exception::InstPageFault(x) | Exception::LoadPageFault(x)
        | Exception::StoreAMOPageFault(x) | Exception::IllegalInst(x) => x,
        _ => 0,
    }
}

/// The class of trap an exception produces.
pub open spec fn trap_of(e: Exception) -> Trap {
    match e {
        Exception::Breakpoint | Exception::ECallUser | Exception::ECallSuper
        | Exception::ECallMachine => Trap::Requested,
        Exception::IllegalInst(_) | Exception::InstPageFault(_) | Exception::LoadPageFault(_)
        | Exception::StoreAMOPageFault(_) => Trap::Invisible,
        _ => Trap::Fatal,
    }
}

/// The class of a trap follows from the exception's cause code alone: calls and breakpoints
/// are requested, illegal instructions and page faults are invisible to the host, address
/// misalignments and access faults are fatal, and no exception is contained.
pub proof fn lemma_trap_class_by_cause(e: Exception)
    ensures
        trap_of(e) == Trap::Requested <==> (cause_of(e) == 3 || cause_of(e) == 8 || cause_of(e)
            == 9 || cause_of(e) == 11),
        trap_of(e) == Trap::Invisible <==> (cause_of(e) == 2 || cause_of(e) == 12 || cause_of(e)
            == 13 || cause_of(e) == 15),
        trap_of(e) == Trap::Fatal <==> (cause_of(e) == 0 || cause_of(e) == 1 || cause_of(e) == 4
            || cause_of(e) == 5 || cause_of(e) == 6 || cause_of(e) == 7),
        trap_of(e) != Trap::Contained,
{
}

impl Exception {
    pub fn epc(&self, pc: u64) -> (r: u64)
        ensures
            r == epc_of(*self, pc),
    {
        match self {
            Exception::Breakpoint | Exception::ECallUser | Exception::ECallSuper
            | Exception::ECallMachine | Exception::InstPageFault(_)
            | Exception::LoadPageFault(_) | Exception::StoreAMOPageFault(_) => pc,
            _ => pc.wrapping_add(4),
        }
    }

    pub fn cause(&self) -> (r: u64)
        ensures
            r == cause_of(*self),
    {
        match self {
            Exception::InstAddrMisalign => 0,
            Exception::InstAccessFault => 1,
            Exception::IllegalInst(_) => 2,
            Exception::Breakpoint => 3,
            Exception::LoadAddrMisalign => 4,
            Exception::LoadAccessFault => 5,
            Exception::StoreAMOAddrMisalign => 6,
            Exception::StoreAMOAccessFault => 7,
            Exception::ECallUser => 8,
            Exception::ECallSuper => 9,
            Exception::ECallMachine => 11,
            Exception::InstPageFault(_) => 12,
            Exception::LoadPageFault(_) => 13,
            Exception::StoreAMOPageFault(_) => 15,
        }
    }

    pub fn mtval(&self, pc: u64) -> (r: u64)
        ensures
            r == mtval_of(*self, pc),
    {
        match *self {
            Exception::InstAddrMisalign | Exception::InstAccessFault | Exception::Breakpoint
            | Exception::LoadAddrMisalign | Exception::LoadAccessFault
            | Exception::StoreAMOAddrMisalign | Exception::StoreAMOAccessFault => pc,
            Exception::InstPageFault(x) | Exception::LoadPageFault(x)
            | Exception::StoreAMOPageFault(x) | Exception::IllegalInst(x) => x,
            _ => 0,
        }
    }
}

impl Trap {
    pub fn from_ex(ex: Exception) -> (r: Trap)
        ensures
            r == trap_of(ex),
    {
        match ex {
            Exception::Breakpoint | Exception::ECallUser | Exception::ECallSuper
            | Exception::ECallMachine => Trap::Requested,
            Exception::IllegalInst(_) | Exception::InstPageFault(_)
            | Exception::LoadPageFault(_) | Exception::StoreAMOPageFault(_) => Trap::Invisible,
            Exception::InstAddrMisalign | Exception::InstAccessFault
            | Exception::LoadAddrMisalign | Exception::LoadAccessFault
            | Exception::StoreAMOAddrMisalign | Exception::StoreAMOAccessFault => Trap::Fatal,
        }
    }
}

} // verus!
