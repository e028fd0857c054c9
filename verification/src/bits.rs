//! Bit-field helpers on machine integers.
use vstd::arithmetic::power2::{lemma2_to64, pow2};
use vstd::bits::{
    lemma_u64_low_bits_mask_is_mod, lemma_u64_shl_is_mul, lemma_u64_shr_is_div, low_bits_mask,
};
use vstd::prelude::*;

verus! {

/// The value of bits `end..=start` of `x` (counted from bit 0), as a natural number.
pub open spec fn field(x: nat, end: nat, start: nat) -> nat {
    (x / pow2(start)) % pow2((end - start + 1) as nat)
}

/// Whether bit `idx` of `x` is set.
pub open spec fn bit_set(x: nat, idx: nat) -> bool {
    (x / pow2(idx)) % 2 == 1
}

/// The 64-bit mask whose ones are exactly bits `end..=start`.
pub open spec fn field_mask64(end: u32, start: u32) -> u64 {
    (u64::MAX >> ((63 - end) as u32)) & (u64::MAX << start)
}

pub(crate) proof fn lemma_u64_field(x: u64, end: u32, start: u32)
    requires
        start <= end < 64,
    ensures
        ((x >> start) & (u64::MAX >> ((63 - (end - start)) as u32))) as nat == field(
            x as nat,
            end as nat,
            start as nat,
        ),
{
    let w: u32 = (end - start) as u32;
    let y: u64 = x >> start;
    assert(y == x >> (start as u64)) by (bit_vector)
        requires
            y == x >> start,
            start < 64,
    ;
    lemma_u64_shr_is_div(x, start as u64);
    lemma2_to64();
    if w == 63 {
        let m: u64 = u64::MAX >> ((63 - w) as u32);
        assert(y & m == y) by (bit_vector)
            requires
                m == u64::MAX >> ((63 - w) as u32),
                w == 63,
        ;
        assert(start == 0);
        assert(pow2((w + 1) as nat) == 0x10000000000000000);
        assert((y & m) as nat == (y as nat) % pow2((w + 1) as nat));
    } else {
        let n: u64 = (w + 1) as u64;
        assert(u64::MAX >> ((63 - w) as u32) == (1u64 << n) - 1) by (bit_vector)
            requires
                w < 63,
                n == w + 1,
        ;
        vstd::arithmetic::power2::lemma_pow2_strictly_increases(n as nat, 64);
        lemma_u64_shl_is_mul(1, n);
        lemma_u64_low_bits_mask_is_mod(y, n as nat);
        assert(low_bits_mask(n as nat) as u64 == u64::MAX >> ((63 - w) as u32));
        assert(y as nat / 1 == y);
        assert((y % (pow2(n as nat) as u64)) as nat == (y as nat) % pow2(n as nat));
        assert((y & (u64::MAX >> ((63 - w) as u32))) as nat == (y as nat) % pow2((w + 1) as nat));
    }
    assert(y as nat == x as nat / pow2(start as nat));
    assert((end - start + 1) as nat == w + 1);
    let m: u64 = u64::MAX >> ((63 - (end - start)) as u32);
    assert(m == u64::MAX >> ((63 - w) as u32));
    assert((y & m) as nat == (y as nat) % pow2((w + 1) as nat));
}

proof fn lemma_u64_bit(x: u64, idx: u32)
    requires
        idx < 64,
    ensures
        (x & (1u64 << idx) != 0) == bit_set(x as nat, idx as nat),
{
    let y: u64 = x >> idx;
    assert((x & (1u64 << idx) != 0) == ((y & 1) == 1)) by (bit_vector)
        requires
            y == x >> idx,
            idx < 64,
    ;
    assert(y & 1 == y % 2) by (bit_vector);
    assert(y == x >> (idx as u64)) by (bit_vector)
        requires
            y == x >> idx,
            idx < 64,
    ;
    lemma_u64_shr_is_div(x, idx as u64);
}

/// A field is no larger than the number it is taken from.
proof fn lemma_field_le(x: nat, end: nat, start: nat)
    ensures
        field(x, end, start) <= x,
{
    let p = pow2(start);
    let q = pow2((end - start + 1) as nat);
    vstd::arithmetic::power2::lemma_pow2_pos(start);
    vstd::arithmetic::power2::lemma_pow2_pos((end - start + 1) as nat);
    assert(x / p <= x) by (nonlinear_arith)
        requires
            p >= 1,
    ;
    let y = x / p;
    assert(y % q <= y) by (nonlinear_arith)
        requires
            q >= 1,
            y >= 0,
    ;
}

/// The mask whose ones are exactly bits `end..=start`.
pub fn mask64(end: u32, start: u32) -> (m: u64)
    requires
        start <= end < 64,
    ensures
        m == field_mask64(end, start),
{
    (u64::MAX >> (63 - end)) & (u64::MAX << start)
}

/// Bit-field access on machine integers; bit 0 is the least significant bit.
pub trait BitOps: Sized {
    /// Width of the type in bits.
    spec fn width() -> nat;

    /// The value as an unsigned number (two's complement for signed types).
    spec fn uval(self) -> nat;

    /// `self` with bits `end..=start` flipped.
    spec fn xor_field(self, end: u32, start: u32) -> Self;

    /// `self` with bits `end..=start` cleared.
    spec fn clear_field(self, end: u32, start: u32) -> Self;

    /// Returns true if bit `idx` is set.
    fn bit(self, idx: u32) -> (r: bool)
        requires
            idx < Self::width(),
        ensures
            r == bit_set(self.uval(), idx as nat),
    ;

    /// Returns bits `end..=start` shifted down to bit 0.
    fn bits(self, end: u32, start: u32) -> (r: Self)
        requires
            start <= end < Self::width(),
        ensures
            r.uval() == field(self.uval(), end as nat, start as nat),
    ;

    /// Flips bits `end..=start`.
    fn xor(self, end: u32, start: u32) -> (r: Self)
        requires
            start <= end < Self::width(),
        ensures
            r == self.xor_field(end, start),
    ;

    /// Clears bits `end..=start`.
    fn rst_bits(self, end: u32, start: u32) -> (r: Self)
        requires
            start <= end < Self::width(),
        ensures
            r == self.clear_field(end, start),
    ;
}

impl BitOps for u8 {
    open spec fn width() -> nat {
        8
    }

    open spec fn uval(self) -> nat {
        self as nat
    }

    open spec fn xor_field(self, end: u32, start: u32) -> u8 {
        self ^ (field_mask64(end, start) as u8)
    }

    open spec fn clear_field(self, end: u32, start: u32) -> u8 {
        self & !(field_mask64(end, start) as u8)
    }

    fn bit(self, idx: u32) -> (r: bool) {
        (self as u64).bit(idx)
    }

    fn bits(self, end: u32, start: u32) -> (r: u8) {
        let f = (self as u64).bits(end, start);
        proof {
            lemma_field_le(self as nat, end as nat, start as nat);
        }
        f as u8
    }

    fn xor(self, end: u32, start: u32) -> (r: u8) {
        self ^ (mask64(end, start) as u8)
    }

    fn rst_bits(self, end: u32, start: u32) -> (r: u8) {
        self & !(mask64(end, start) as u8)
    }
}

impl BitOps for u16 {
    open spec fn width() -> nat {
        16
    }

    open spec fn uval(self) -> nat {
        self as nat
    }

    open spec fn xor_field(self, end: u32, start: u32) -> u16 {
        self ^ (field_mask64(end, start) as u16)
    }

    open spec fn clear_field(self, end: u32, start: u32) -> u16 {
        self & !(field_mask64(end, start) as u16)
    }

    fn bit(self, idx: u32) -> (r: bool) {
        (self as u64).bit(idx)
    }

    fn bits(self, end: u32, start: u32) -> (r: u16) {
        let f = (self as u64).bits(end, start);
        proof {
            lemma_field_le(self as nat, end as nat, start as nat);
        }
        f as u16
    }

    fn xor(self, end: u32, start: u32) -> (r: u16) {
        self ^ (mask64(end, start) as u16)
    }

    fn rst_bits(self, end: u32, start: u32) -> (r: u16) {
        self & !(mask64(end, start) as u16)
    }
}

impl BitOps for u32 {
    open spec fn width() -> nat {
        32
    }

    open spec fn uval(self) -> nat {
        self as nat
    }

    open spec fn xor_field(self, end: u32, start: u32) -> u32 {
        self ^ (field_mask64(end, start) as u32)
    }

    open spec fn clear_field(self, end: u32, start: u32) -> u32 {
        self & !(field_mask64(end, start) as u32)
    }

    fn bit(self, idx: u32) -> (r: bool) {
        (self as u64).bit(idx)
    }

    fn bits(self, end: u32, start: u32) -> (r: u32) {
        let f = (self as u64).bits(end, start);
        proof {
            lemma_field_le(self as nat, end as nat, start as nat);
        }
        f as u32
    }

    fn xor(self, end: u32, start: u32) -> (r: u32) {
        self ^ (mask64(end, start) as u32)
    }

    fn rst_bits(self, end: u32, start: u32) -> (r: u32) {
        self & !(mask64(end, start) as u32)
    }
}

impl BitOps for u64 {
    open spec fn width() -> nat {
        64
    }

    open spec fn uval(self) -> nat {
        self as nat
    }

    open spec fn xor_field(self, end: u32, start: u32) -> u64 {
        self ^ field_mask64(end, start)
    }

    open spec fn clear_field(self, end: u32, start: u32) -> u64 {
        self & !field_mask64(end, start)
    }

    fn bit(self, idx: u32) -> (r: bool) {
        proof {
            lemma_u64_bit(self, idx);
        }
        self & (1u64 << idx) != 0
    }

    fn bits(self, end: u32, start: u32) -> (r: u64) {
        proof {
            lemma_u64_field(self, end, start);
        }
        (self >> start) & (u64::MAX >> (63 - (end - start)))
    }

    fn xor(self, end: u32, start: u32) -> (r: u64) {
        self ^ mask64(end, start)
    }

    fn rst_bits(self, end: u32, start: u32) -> (r: u64) {
        self & !mask64(end, start)
    }
}

/// Flipping the same bits twice gives the value back, and clearing them after flipping them
/// is the same as clearing them.
pub proof fn lemma_xor_field_twice(x: u64, end: u32, start: u32)
    ensures
        x.xor_field(end, start).xor_field(end, start) == x,
        x.xor_field(end, start).clear_field(end, start) == x.clear_field(end, start),
{
    let m = field_mask64(end, start);
    assert((x ^ m) ^ m == x) by (bit_vector);
    assert((x ^ m) & !m == x & !m) by (bit_vector);
}

impl BitOps for i16 {
    open spec fn width() -> nat {
        16
    }

    open spec fn uval(self) -> nat {
        (self as u16) as nat
    }

    open spec fn xor_field(self, end: u32, start: u32) -> i16 {
        ((self as u16) ^ (field_mask64(end, start) as u16)) as i16
    }

    /// Clearing goes through `i16::MAX` (sign bit clear), so bit 15 of the result is set only
    /// when it is set in `self` and lies inside `end..=start`.
    open spec fn clear_field(self, end: u32, start: u32) -> i16 {
        ((self as u16) & (0x7fffu16 ^ (field_mask64(end, start) as u16))) as i16
    }

    fn bit(self, idx: u32) -> (r: bool) {
        ((self as u16) as u64).bit(idx)
    }

    fn bits(self, end: u32, start: u32) -> (r: i16) {
        let u: u16 = self as u16;
        let f: u16 = u.bits(end, start);
        assert(((f as i16) as u16) == f) by (bit_vector);
        f as i16
    }

    fn xor(self, end: u32, start: u32) -> (r: i16) {
        ((self as u16) ^ (mask64(end, start) as u16)) as i16
    }

    fn rst_bits(self, end: u32, start: u32) -> (r: i16) {
        ((self as u16) & (0x7fffu16 ^ (mask64(end, start) as u16))) as i16
    }
}

} // verus!
