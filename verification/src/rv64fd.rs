//! Registers of the RISC-V "F" and "D" extensions (single and double precision floating point).
use vstd::prelude::*;

verus! {

/// The floating-point registers, each held as its raw 64 bits.
#[derive(Clone, Debug)]
pub struct RV64FDRegs {
    /// f0 - f31 registers
    pub f: [u64; 32],
    /// floating-point control and status register
    pub fcsr: u64,
}

impl Default for RV64FDRegs {
    fn default() -> (r: Self)
        ensures
            r.f@ == Seq::new(32, |i: int| 0u64),
            r.fcsr == 0,
    {
        let r = RV64FDRegs { f: [0u64; 32], fcsr: 0 };
        assert(r.f@ =~= Seq::new(32, |i: int| 0u64));
        r
    }
}

} // verus!
