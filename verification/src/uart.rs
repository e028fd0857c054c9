//! A transmit-only UART.
use vstd::prelude::*;

verus! {

/// Offset of the transmit data register.
pub const TXDATA: u64 = 0x00;

/// A UART whose transmitted bytes queue up until the owner takes them.
///
/// The only register is TXDATA: writing it transmits the low byte of the written word, and
/// reading it gives 0 (the transmit queue is never full).
pub struct Uart {
    id: String,
    tx: Vec<u8>,
}

impl Uart {
    /// The bytes transmitted and not yet taken, oldest first.
    pub closed spec fn pending(&self) -> Seq<u8> {
        self.tx@
    }

    /// The UART's name.
    pub closed spec fn name(&self) -> Seq<char> {
        self.id@
    }

    pub fn new(id: String) -> (r: Uart)
        ensures
            r.pending() == Seq::<u8>::empty(),
            r.name() == id@,
    {
        Uart { id, tx: Vec::new() }
    }

    /// Reads a register; `addr` is local to the device.
    pub fn read32(&self, addr: u64) -> (r: u32)
        requires
            addr == TXDATA,
        ensures
            r == 0,
    {
        0x0000_0000
    }

    /// Writes a register; `addr` is local to the device.
    pub fn write32(&mut self, addr: u64, val: u32)
        requires
            addr == TXDATA,
        ensures
            final(self).pending() == old(self).pending().push((val % 256) as u8),
            final(self).name() == old(self).name(),
    {
        let byte = (val & 0xff) as u8;
        assert(val & 0xff == val % 256) by (bit_vector);
        self.tx.push(byte);
    }

    /// Hands out the transmitted bytes, oldest first, and empties the queue.
    pub fn take_output(&mut self) -> (r: Vec<u8>)
        ensures
            r@ == old(self).pending(),
            final(self).pending() == Seq::<u8>::empty(),
            final(self).name() == old(self).name(),
    {
        let mut out: Vec<u8> = Vec::new();
        std::mem::swap(&mut out, &mut self.tx);
        out
    }
}

/// A memory-mapped device occupying the physical addresses `start..end`.
pub struct Device {
    pub start: u64,
    pub end: u64,
    pub dev: Uart,
}

impl Device {
    pub fn new(d: Uart, start: u64, size: u64) -> (r: Device)
        requires
            start + size <= u64::MAX,
        ensures
            r.start == start,
            r.end == start + size,
            r.dev == d,
    {
        Device { start, end: start + size, dev: d }
    }

    /// Reads a 32-bit register at the physical address `addr`.
    pub fn read32(&self, addr: u64) -> (r: u32)
        requires
            self.start <= addr,
            addr - self.start == TXDATA,
        ensures
            r == 0,
    {
        self.dev.read32(addr - self.start)
    }

    /// Writes a 32-bit register at the physical address `addr`.
    pub fn write32(&mut self, addr: u64, val: u32)
        requires
            old(self).start <= addr,
            addr - old(self).start == TXDATA,
        ensures
            final(self).start == old(self).start,
            final(self).end == old(self).end,
            final(self).dev.pending() == old(self).dev.pending().push((val % 256) as u8),
            final(self).dev.name() == old(self).dev.name(),
    {
        let a = addr - self.start;
        self.dev.write32(a, val)
    }
}

} // verus!
