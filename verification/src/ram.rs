//! Byte-addressed RAM with little-endian multi-byte access.
use crate::bits::{field, BitOps};
use vstd::arithmetic::power2::{lemma2_to64, pow2};
use crate::hexdump::{hex_dump, hex_dump_text};
use vstd::prelude::*;

verus! {

/// Why loading an image into memory failed.
#[derive(Debug, Clone, Copy, PartialEq, Eq)]
pub enum MemError {
    /// The image does not fit into the RAM behind the load address.
    SizeIsWrong,
    /// No RAM region covers the load address.
    NoSuitableRamRegion,
}

impl MemError {
    /// The message the error is reported with.
    pub fn details(&self) -> (r: &'static str)
        ensures
            r@ == match self {
                MemError::SizeIsWrong => "size is wrong"@,
                MemError::NoSuitableRamRegion => "No suitable RAM address region"@,
            },
    {
        match self {
            MemError::SizeIsWrong => "size is wrong",
            MemError::NoSuitableRamRegion => "No suitable RAM address region",
        }
    }
}

/// Byte `k` (0 = least significant) of `v`.
pub open spec fn byte_of(v: nat, k: nat) -> u8 {
    field(v, 8 * k + 7, 8 * k) as u8
}

/// The little-endian 32-bit value stored at `b[o..o+4]`.
pub open spec fn le32(b: Seq<u8>, o: int) -> u32 {
    (b[o] + b[o + 1] * 0x100 + b[o + 2] * 0x1_0000 + b[o + 3] * 0x100_0000) as u32
}

/// The little-endian 64-bit value stored at `b[o..o+8]`.
pub open spec fn le64(b: Seq<u8>, o: int) -> u64 {
    (le32(b, o) + le32(b, o + 4) * 0x1_0000_0000) as u64
}

/// `b` with the four bytes of `v` stored little-endian at `o`.
pub open spec fn put_le32(b: Seq<u8>, o: int, v: u32) -> Seq<u8> {
    b.update(o, byte_of(v as nat, 0)).update(o + 1, byte_of(v as nat, 1)).update(
        o + 2,
        byte_of(v as nat, 2),
    ).update(o + 3, byte_of(v as nat, 3))
}

/// `b` with the eight bytes of `v` stored little-endian at `o`.
pub open spec fn put_le64(b: Seq<u8>, o: int, v: u64) -> Seq<u8> {
    put_le32(put_le32(b, o, (v % 0x1_0000_0000) as u32), o + 4, (v / 0x1_0000_0000) as u32)
}

/// `b` with `image` copied in at `o`.
pub open spec fn put_bytes(b: Seq<u8>, o: int, image: Seq<u8>) -> Seq<u8> {
    b.subrange(0, o) + image + b.subrange(o + image.len(), b.len() as int)
}

proof fn lemma_bytes_of_u32(v: u32)
    ensures
        byte_of(v as nat, 0) == v % 0x100,
        byte_of(v as nat, 1) == (v / 0x100) % 0x100,
        byte_of(v as nat, 2) == (v / 0x1_0000) % 0x100,
        byte_of(v as nat, 3) == (v / 0x100_0000) % 0x100,
{
    lemma2_to64();
    assert(v as nat / 1 == v as nat);
}

/// Writing four bytes little-endian and reading them back gives the value written.
pub proof fn lemma_le32_roundtrip(b: Seq<u8>, o: int, v: u32)
    requires
        0 <= o,
        o + 4 <= b.len(),
    ensures
        le32(put_le32(b, o, v), o) == v,
        put_le32(b, o, v).len() == b.len(),
        forall|i: int| 0 <= i < b.len() && !(o <= i < o + 4) ==> #[trigger] put_le32(b, o, v)[i] == b[i],
{
    lemma_bytes_of_u32(v);
    let b0 = v % 0x100;
    let b1 = (v / 0x100) % 0x100;
    let b2 = (v / 0x1_0000) % 0x100;
    let b3 = (v / 0x100_0000) % 0x100;
    assert(b0 + b1 * 0x100 + b2 * 0x1_0000 + b3 * 0x100_0000 == v) by (bit_vector)
        requires
            b0 == v % 0x100,
            b1 == (v / 0x100) % 0x100,
            b2 == (v / 0x1_0000) % 0x100,
            b3 == (v / 0x100_0000) % 0x100,
    ;
}

/// Writing eight bytes little-endian and reading them back gives the value written.
pub proof fn lemma_le64_roundtrip(b: Seq<u8>, o: int, v: u64)
    requires
        0 <= o,
        o + 8 <= b.len(),
    ensures
        le64(put_le64(b, o, v), o) == v,
        put_le64(b, o, v).len() == b.len(),
        forall|i: int| 0 <= i < b.len() && !(o <= i < o + 8) ==> #[trigger] put_le64(b, o, v)[i] == b[i],
{
    let lo = (v % 0x1_0000_0000) as u32;
    let hi = (v / 0x1_0000_0000) as u32;
    let b1 = put_le32(b, o, lo);
    lemma_le32_roundtrip(b, o, lo);
    lemma_le32_roundtrip(b1, o + 4, hi);
    let b2 = put_le32(b1, o + 4, hi);
    assert(le32(b2, o) == le32(b1, o)) by {
        assert(b2[o] == b1[o]);
        assert(b2[o + 1] == b1[o + 1]);
        assert(b2[o + 2] == b1[o + 2]);
        assert(b2[o + 3] == b1[o + 3]);
    }
    assert(lo + hi * 0x1_0000_0000 == v) by (bit_vector)
        requires
            lo == v % 0x1_0000_0000,
            hi == v / 0x1_0000_0000,
    ;
}

proof fn lemma_u64_halves_bytes(val: u64, lo: u64, hi: u64)
    by (bit_vector)
    requires
        lo == val % 0x1_0000_0000,
        hi == val / 0x1_0000_0000,
    ensures
        lo % 0x100 == val % 0x100,
        (lo / 0x100) % 0x100 == (val / 0x100) % 0x100,
        (lo / 0x1_0000) % 0x100 == (val / 0x1_0000) % 0x100,
        (lo / 0x100_0000) % 0x100 == (val / 0x100_0000) % 0x100,
        hi % 0x100 == (val / 0x1_0000_0000) % 0x100,
        (hi / 0x100) % 0x100 == (val / 0x100_0000_0000) % 0x100,
        (hi / 0x1_0000) % 0x100 == (val / 0x1_0000_0000_0000) % 0x100,
        (hi / 0x100_0000) % 0x100 == (val / 0x100_0000_0000_0000) % 0x100,
{
}

/// Eight bytes stored little-endian, as `Ram::write64` stores them: the byte at `o + i`
/// (`i` from 0 to 7) holds bits `8i + 7..8i` of the value, the other bytes keep theirs, and
/// the word read back is the value.
pub proof fn lemma_le64_byte_order(b: Seq<u8>, o: int, v: u64)
    requires
        0 <= o,
        o + 8 <= b.len(),
    ensures
        forall|i: int|
            0 <= i < 8 ==> #[trigger] put_le64(b, o, v)[o + i] == field(
                v as nat,
                (8 * i + 7) as nat,
                (8 * i) as nat,
            ) as u8,
        forall|i: int|
            0 <= i < 8 ==> #[trigger] put_le64(b, o, v)[o + i] == (v >> ((8 * i) as u64)) as u8,
        forall|i: int|
            0 <= i < b.len() && !(o <= i < o + 8) ==> #[trigger] put_le64(b, o, v)[i] == b[i],
        put_le64(b, o, v).len() == b.len(),
        le64(put_le64(b, o, v), o) == v,
{
    lemma_le64_roundtrip(b, o, v);
    assert forall|i: int| 0 <= i < 8 implies #[trigger] field(
        v as nat,
        (8 * i + 7) as nat,
        (8 * i) as nat,
    ) as u8 == (v >> ((8 * i) as u64)) as u8 by {
        lemma_byte_is_shift(v, i);
    }
    let lo = (v % 0x1_0000_0000) as u32;
    let hi = (v / 0x1_0000_0000) as u32;
    lemma_halves_bytes_fields(v, lo, hi);
    let b1 = put_le32(b, o, lo);
    let b2 = put_le32(b1, o + 4, hi);
    assert(b2 == put_le64(b, o, v));
    assert forall|i: int| 0 <= i < 8 implies #[trigger] put_le64(b, o, v)[o + i] == field(
        v as nat,
        (8 * i + 7) as nat,
        (8 * i) as nat,
    ) as u8 by {
        if i < 4 {
            assert(b2[o + i] == b1[o + i]);
        }
    }
}

/// Bits `8i + 7..8i` of `v` are the low byte of `v` shifted right by `8i`.
proof fn lemma_byte_is_shift(v: u64, i: int)
    requires
        0 <= i < 8,
    ensures
        field(v as nat, (8 * i + 7) as nat, (8 * i) as nat) as u8 == (v >> ((8 * i) as u64)) as u8,
{
    let sh = (8 * i) as u64;
    vstd::bits::lemma_u64_shr_is_div(v, sh);
    lemma2_to64();
    let w = v >> sh;
    assert(((w % 256) as u8) == (w as u8)) by (bit_vector);
    assert(pow2(((8 * i + 7) - 8 * i + 1) as nat) == 256);
}

/// The bytes of the two 32-bit halves of `v` are the bytes of `v`.
proof fn lemma_halves_bytes_fields(v: u64, lo: u32, hi: u32)
    requires
        lo == v % 0x1_0000_0000,
        hi == v / 0x1_0000_0000,
    ensures
        byte_of(lo as nat, 0) == field(v as nat, 7, 0) as u8,
        byte_of(lo as nat, 1) == field(v as nat, 15, 8) as u8,
        byte_of(lo as nat, 2) == field(v as nat, 23, 16) as u8,
        byte_of(lo as nat, 3) == field(v as nat, 31, 24) as u8,
        byte_of(hi as nat, 0) == field(v as nat, 39, 32) as u8,
        byte_of(hi as nat, 1) == field(v as nat, 47, 40) as u8,
        byte_of(hi as nat, 2) == field(v as nat, 55, 48) as u8,
        byte_of(hi as nat, 3) == field(v as nat, 63, 56) as u8,
{
    lemma2_to64();
    vstd::arithmetic::power2::lemma2_to64_rest();
    lemma_u64_halves_bytes(v, lo as u64, hi as u64);
    assert(v as nat / 1 == v as nat);
    assert(lo as nat / 1 == lo as nat);
}

/// The little-endian word made of four bytes, least significant first.
pub fn le32_from_bytes(b0: u32, b1: u32, b2: u32, b3: u32) -> (r: u32)
    requires
        b0 < 256,
        b1 < 256,
        b2 < 256,
        b3 < 256,
    ensures
        r == b0 + b1 * 0x100 + b2 * 0x1_0000 + b3 * 0x100_0000,
{
    let r = b3 << 24 | b2 << 16 | b1 << 8 | b0;
    assert(r == b0 + b1 * 0x100 + b2 * 0x1_0000 + b3 * 0x100_0000) by (bit_vector)
        requires
            b0 < 256,
            b1 < 256,
            b2 < 256,
            b3 < 256,
            r == b3 << 24 | b2 << 16 | b1 << 8 | b0,
    ;
    r
}

/// Random access memory that covers the physical addresses `start..end`.
#[derive(Default)]
pub struct Ram {
    /// start physical address
    pub start: u64,
    /// end physical address
    pub end: u64,
    pub m: Vec<u8>,
}

impl Ram {
    /// Zero-filled RAM of `size` bytes at `start`.
    pub fn new(start: u64, size: u64) -> (r: Ram)
        requires
            start + size <= u64::MAX,
            size <= usize::MAX,
        ensures
            r.start == start,
            r.end == start + size,
            r.m@ == Seq::new(size as nat, |i: int| 0u8),
    {
        let m: Vec<u8> = vec![0u8; size as usize];
        let r = Ram { start, end: start + size, m };
        assert(r.m@ =~= Seq::new(size as nat, |i: int| 0u8));
        r
    }

    /// Resizes the backing memory; new bytes are zero. The covered range `start..end` is kept.
    pub fn resize(&mut self, new_size: u64)
        requires
            new_size <= usize::MAX,
        ensures
            final(self).start == old(self).start,
            final(self).end == old(self).end,
            final(self).m@ == (if new_size <= old(self).m.len() {
                old(self).m@.subrange(0, new_size as int)
            } else {
                old(self).m@ + Seq::new((new_size - old(self).m.len()) as nat, |i: int| 0u8)
            }),
    {
        let ghost old_m = self.m@;
        self.m.resize(new_size as usize, 0);
        proof {
            if new_size > old_m.len() {
                assert(self.m@ =~= old_m + Seq::new((new_size - old_m.len()) as nat, |i: int| 0u8))
                    by {
                    assert forall|i: int| 0 <= i < self.m@.len() implies self.m@[i] == (old_m
                        + Seq::new((new_size - old_m.len()) as nat, |i: int| 0u8))[i] by {
                        if i >= old_m.len() {
                            assert(cloned(0u8, self.m@[i]));
                        } else {
                            assert(self.m@.subrange(0, old_m.len() as int)[i] == self.m@[i]);
                        }
                    }
                }
            }
        }
    }

    pub fn read8(&self, addr: u64) -> (r: u8)
        requires
            self.start <= addr,
            addr - self.start < self.m.len(),
        ensures
            r == self.m@[addr - self.start],
    {
        let offs = (addr - self.start) as usize;
        self.m[offs]
    }

    pub fn write8(&mut self, addr: u64, val: u8)
        requires
            old(self).start <= addr,
            addr - old(self).start < old(self).m.len(),
        ensures
            final(self).start == old(self).start,
            final(self).end == old(self).end,
            final(self).m@ == old(self).m@.update(addr - old(self).start, val),
    {
        let offs = (addr - self.start) as usize;
        self.m[offs] = val;
    }

    /// Little Endian 32-bit read
    pub fn read32(&self, addr: u64) -> (r: u32)
        requires
            self.start <= addr,
            addr - self.start + 4 <= self.m.len(),
        ensures
            r == le32(self.m@, addr - self.start),
    {
        let offs = (addr - self.start) as usize;
        let b0 = self.m[offs] as u32;
        let b1 = self.m[offs + 1] as u32;
        let b2 = self.m[offs + 2] as u32;
        let b3 = self.m[offs + 3] as u32;
        le32_from_bytes(b0, b1, b2, b3)
    }

    /// Little Endian 64-bit read
    pub fn read64(&self, addr: u64) -> (r: u64)
        requires
            self.start <= addr,
            addr - self.start + 8 <= self.m.len(),
        ensures
            r == le64(self.m@, addr - self.start),
    {
        let offs = (addr - self.start) as usize;
        let b0 = self.m[offs] as u64;
        let b1 = self.m[offs + 1] as u64;
        let b2 = self.m[offs + 2] as u64;
        let b3 = self.m[offs + 3] as u64;
        let b4 = self.m[offs + 4] as u64;
        let b5 = self.m[offs + 5] as u64;
        let b6 = self.m[offs + 6] as u64;
        let b7 = self.m[offs + 7] as u64;
        let r = b7 << 56 | b6 << 48 | b5 << 40 | b4 << 32 | b3 << 24 | b2 << 16 | b1 << 8 | b0;
        assert(r == (b0 + b1 * 0x100 + b2 * 0x1_0000 + b3 * 0x100_0000) + (b4 + b5 * 0x100 + b6
            * 0x1_0000 + b7 * 0x100_0000) * 0x1_0000_0000) by (bit_vector)
            requires
                b0 < 256,
                b1 < 256,
                b2 < 256,
                b3 < 256,
                b4 < 256,
                b5 < 256,
                b6 < 256,
                b7 < 256,
                r == b7 << 56 | b6 << 48 | b5 << 40 | b4 << 32 | b3 << 24 | b2 << 16 | b1 << 8 | b0,
        ;
        r
    }

    /// Little Endian 32-bit write
    pub fn write32(&mut self, addr: u64, val: u32)
        requires
            old(self).start <= addr,
            addr - old(self).start + 4 <= old(self).m.len(),
        ensures
            final(self).start == old(self).start,
            final(self).end == old(self).end,
            final(self).m@ == put_le32(old(self).m@, addr - old(self).start, val),
    {
        proof {
            lemma2_to64();
        }
        let offs = (addr - self.start) as usize;
        self.m[offs] = val.bits(7, 0) as u8;
        self.m[offs + 1] = val.bits(15, 8) as u8;
        self.m[offs + 2] = val.bits(23, 16) as u8;
        self.m[offs + 3] = val.bits(31, 24) as u8;
    }

    /// Little Endian 64-bit write
    pub fn write64(&mut self, addr: u64, val: u64)
        requires
            old(self).start <= addr,
            addr - old(self).start + 8 <= old(self).m.len(),
        ensures
            final(self).start == old(self).start,
            final(self).end == old(self).end,
            final(self).m@ == put_le64(old(self).m@, addr - old(self).start, val),
            forall|i: int|
                0 <= i < 8 ==> #[trigger] final(self).m@[addr - old(self).start + i] == (val >> ((8
                    * i) as u64)) as u8,
            forall|i: int|
                0 <= i < old(self).m@.len() && !(addr - old(self).start <= i < addr - old(
                    self,
                ).start + 8) ==> #[trigger] final(self).m@[i] == old(self).m@[i],
            le64(final(self).m@, addr - old(self).start) == val,
    {
        proof {
            lemma2_to64();
            lemma_le64_byte_order(self.m@, addr - self.start, val);
        }
        let ghost o = addr - self.start;
        let ghost m0 = self.m@;
        let offs = (addr - self.start) as usize;
        let lo = val.bits(31, 0) as u32;
        let hi = val.bits(63, 32) as u32;
        proof {
            assert(val / 0x1_0000_0000 < 0x1_0000_0000) by (bit_vector);
            assert(pow2(0) == 1 && pow2(32) == 0x1_0000_0000);
            assert(val as nat / 1 == val as nat);
            assert(lo == val % 0x1_0000_0000);
            vstd::arithmetic::div_mod::lemma_small_mod((val / 0x1_0000_0000) as nat, 0x1_0000_0000);
            assert(hi == val / 0x1_0000_0000);
            lemma_u64_halves_bytes(val, lo as u64, hi as u64);
            vstd::arithmetic::power2::lemma2_to64_rest();
            assert(lo as nat / 1 == lo as nat);
            assert(byte_of(lo as nat, 0) == field(val as nat, 7, 0) as u8);
            assert(byte_of(lo as nat, 1) == field(val as nat, 15, 8) as u8);
            assert(byte_of(lo as nat, 2) == field(val as nat, 23, 16) as u8);
            assert(byte_of(lo as nat, 3) == field(val as nat, 31, 24) as u8);
            assert(byte_of(hi as nat, 0) == field(val as nat, 39, 32) as u8);
            assert(byte_of(hi as nat, 1) == field(val as nat, 47, 40) as u8);
            assert(byte_of(hi as nat, 2) == field(val as nat, 55, 48) as u8);
            assert(byte_of(hi as nat, 3) == field(val as nat, 63, 56) as u8);
        }
        self.m[offs] = val.bits(7, 0) as u8;
        self.m[offs + 1] = val.bits(15, 8) as u8;
        self.m[offs + 2] = val.bits(23, 16) as u8;
        self.m[offs + 3] = val.bits(31, 24) as u8;
        self.m[offs + 4] = val.bits(39, 32) as u8;
        self.m[offs + 5] = val.bits(47, 40) as u8;
        self.m[offs + 6] = val.bits(55, 48) as u8;
        self.m[offs + 7] = val.bits(63, 56) as u8;
        assert(self.m@ =~= put_le64(m0, o, val));
    }

    /// Copies `bin` into memory at `addr`.
    pub fn load_image(&mut self, addr: u64, bin: &[u8]) -> (r: Result<(), MemError>)
        requires
            old(self).start <= addr <= old(self).end,
        ensures
            final(self).start == old(self).start,
            final(self).end == old(self).end,
            (addr - old(self).start) + bin@.len() > old(self).m.len() ==> r == Err::<(), MemError>(
                MemError::SizeIsWrong,
            ) && final(self).m@ == old(self).m@,
            (addr - old(self).start) + bin@.len() <= old(self).m.len() ==> r is Ok && final(self).m@
                == put_bytes(old(self).m@, addr - old(self).start, bin@),
    {
        let offset = addr - self.start;
        let bin_size = bin.len() as u64;
        if offset as u128 + bin_size as u128 > self.m.len() as u128 {
            return Err(MemError::SizeIsWrong);
        }
        let ghost m0 = self.m@;
        let mut i: usize = 0;
        while i < bin.len()
            invariant
                offset as int + bin@.len() <= self.m.len(),
                self.start == old(self).start,
                self.end == old(self).end,
                self.m@.len() == m0.len(),
                i <= bin@.len(),
                offset == addr - self.start,
                forall|j: int| 0 <= j < offset ==> self.m@[j] == m0[j],
                forall|j: int| offset + i <= j < m0.len() ==> self.m@[j] == m0[j],
                forall|j: int| 0 <= j < i ==> self.m@[offset + j] == bin@[j],
            decreases bin.len() - i,
        {
            self.m[offset as usize + i] = bin[i];
            i = i + 1;
        }
        assert(self.m@ =~= put_bytes(m0, offset as int, bin@));
        Ok(())
    }

    /// Puts the contents of a binary file (read in whole) into memory at `addr`.
    pub fn load_bin_file(&mut self, addr: u64, contents: &[u8]) -> (r: Result<(), MemError>)
        requires
            old(self).start <= addr <= old(self).end,
        ensures
            final(self).start == old(self).start,
            final(self).end == old(self).end,
            (addr - old(self).start) + contents@.len() > old(self).m.len() ==> r == Err::<
                (),
                MemError,
            >(MemError::SizeIsWrong) && final(self).m@ == old(self).m@,
            (addr - old(self).start) + contents@.len() <= old(self).m.len() ==> r is Ok
                && final(self).m@ == put_bytes(old(self).m@, addr - old(self).start, contents@),
    {
        self.load_image(addr, contents)
    }

    /// The memory bytes `addr..addr+size`, if they lie inside the RAM.
    pub fn get_ram(&self, addr: u64, size: u64) -> (r: Option<&[u8]>)
        requires
            addr + size <= u64::MAX,
            !(addr < self.start || addr > self.end || addr + size > self.end) ==> addr - self.start
                + size <= self.m.len(),
        ensures
            (addr < self.start || addr > self.end || addr + size > self.end) ==> r is None,
            !(addr < self.start || addr > self.end || addr + size > self.end) ==> r is Some
                && r->0@ == self.m@.subrange(addr - self.start, addr - self.start + size),
    {
        if addr < self.start || addr > self.end {
            return None;
        }
        if addr + size > self.end {
            return None;
        }
        let offs = (addr - self.start) as usize;
        Some(vstd::slice::slice_subrange(self.m.as_slice(), offs, offs + size as usize))
    }

    /// The text of a dump of the first bytes of this RAM (taken from its start, whatever
    /// `addr` is), the first line headed by the 16-byte boundary at or below `addr`, stopping
    /// after `size` bytes; each line is headed by the address 16 past its own, and one more
    /// header follows the stop.
    pub fn dump_hex(&self, addr: u64, size: u64) -> (r: String)
        requires
            size + 16 <= u64::MAX,
            (size + 16) - (size + 16) % 16 <= self.m@.len(),
            (addr - addr % 16) + ((size + 16) - (size + 16) % 16) + 16 <= u64::MAX,
        ensures
            r@ == hex_dump(
                self.m@,
                (addr - addr % 16) as nat,
                size as nat,
                ((size + 16) - (size + 16) % 16) as nat,
                true,
            ),
    {
        let aligned_addr = addr - addr % 16;
        let aligned_size = (size + 16) - (size + 16) % 16;
        assert(aligned_size <= self.m.len());
        hex_dump_text(self.m.as_slice(), aligned_addr, size, aligned_size as usize, true)
    }
}

} // verus!
