//! Control and status registers (Zicsr) of the simulated hart.
use vstd::prelude::*;

verus! {

/// Machine trap-handler base address.
pub const MTVEC: u16 = 0x305;
/// Machine Scratch register for machine trap handlers.
pub const MSCRATCH: u16 = 0x340;
/// Machine Hardware Thread ID
pub const MHARTID: u16 = 0xf14;

/// Whether the CSR at address `a` is implemented.
pub open spec fn csr_known(a: u16) -> bool {
    a == MTVEC || a == MHARTID || a == MSCRATCH
}

/// The implemented CSRs, abstractly.
pub struct CsrView {
    pub mtvec: u64,
    pub mscratch: u64,
}

/// The value a read of CSR `a` gives; the hart id is always 0.
pub open spec fn csr_read(c: CsrView, a: u16) -> u64 {
    if a == MTVEC {
        c.mtvec
    } else if a == MSCRATCH {
        c.mscratch
    } else {
        0
    }
}

/// The CSRs after writing `v` to CSR `a`; writes to the hart id are ignored.
pub open spec fn csr_write(c: CsrView, a: u16, v: u64) -> CsrView {
    if a == MTVEC {
        CsrView { mtvec: v, mscratch: c.mscratch }
    } else if a == MSCRATCH {
        CsrView { mtvec: c.mtvec, mscratch: v }
    } else {
        c
    }
}

pub struct Csrs {
    /// Machine trap-handler base address.
    mtvec: u64,
    /// Machine Scratch register for machine trap handlers.
    mscratch: u64,
}

impl View for Csrs {
    type V = CsrView;

    closed spec fn view(&self) -> CsrView {
        CsrView { mtvec: self.mtvec, mscratch: self.mscratch }
    }
}

impl Csrs {
    pub fn new() -> (r: Csrs)
        ensures
            r@ == (CsrView { mtvec: 0, mscratch: 0 }),
    {
        Csrs { mscratch: 0, mtvec: 0 }
    }

    /// Read 64 bit
    pub fn r64(&self, csr_a: u16) -> (r: u64)
        requires
            csr_known(csr_a),
        ensures
            r == csr_read(self@, csr_a),
    {
        if csr_a == MTVEC {
            self.mtvec
        } else if csr_a == MHARTID {
            0
        } else {
            self.mscratch
        }
    }

    /// Write 64 bit
    pub fn w64(&mut self, csr_a: u16, val: u64)
        requires
            csr_known(csr_a),
        ensures
            final(self)@ == csr_write(old(self)@, csr_a, val),
    {
        if csr_a == MTVEC {
            self.mtvec = val;
        } else if csr_a == MHARTID {
        } else {
            self.mscratch = val;
        }
    }
}

/// Reads a CSR of the minimal hart, which implements only the hart id (always 0).
pub fn csr_r64(csr_a: u16) -> (r: u64)
    requires
        csr_a == MHARTID,
    ensures
        r == 0,
{
    0
}

/// Writes a CSR of the minimal hart, which implements only the hart id (writes are ignored).
pub fn csr_w64(csr_a: u16, val: u64)
    requires
        csr_a == MHARTID,
{
}

} // verus!
