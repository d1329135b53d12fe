use vstd::prelude::*;
use crate::csr::Range;

verus! {

// Fields of `mstatus` (and of its supervisor view `sstatus`), as half-open bit ranges.

/// Supervisor interrupt enable.
pub const SIE: Range = (1, 2);

/// Previous supervisor interrupt enable.
pub const SPIE: Range = (5, 6);

/// Previous supervisor privilege.
pub const SPP: Range = (8, 9);

/// Machine interrupt enable.
pub const MIE: Range = (3, 4);

/// Previous machine interrupt enable.
pub const MPIE: Range = (7, 8);

/// Previous machine privilege.
pub const MPP: Range = (11, 13);

} // verus!
