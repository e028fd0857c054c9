//! Signed immediates of RISC-V instructions and address arithmetic with them.
use crate::bits::{bit_set, field, field_mask64, BitOps};
use vstd::arithmetic::power2::{lemma2_to64, pow2};
use vstd::prelude::*;

verus! {

/// Reduces an integer modulo 2^64 into a `u64`.
pub open spec fn wrap64(v: int) -> u64 {
    (v % 0x1_0000_0000_0000_0000) as u64
}

/// Reduces an integer modulo 2^32 into a `u32`.
pub open spec fn wrap32(v: int) -> u32 {
    (v % 0x1_0000_0000) as u32
}

/// The value of an `n`-bit two's complement pattern `v` (with `v < 2^n`).
pub open spec fn sign_extend(v: nat, n: nat) -> int {
    if v >= pow2((n - 1) as nat) {
        v - pow2(n)
    } else {
        v as int
    }
}

/// What a 16-bit raw immediate becomes when its bit `n - 1` is taken as the sign bit: with the
/// sign bit set, the low `n - 1` bits are sign-extended; otherwise the pattern is kept as is.
pub open spec fn imm_from_u16(v: u16, n: nat) -> int {
    if bit_set(v as nat, (n - 1) as nat) {
        field(v as nat, (n - 2) as nat, 0) - pow2((n - 1) as nat)
    } else {
        v as i16 as int
    }
}

/// What a 32-bit raw immediate becomes when its bit `n - 1` is taken as the sign bit.
pub open spec fn imm_from_u32(v: u32, n: nat) -> int {
    if bit_set(v as nat, (n - 1) as nat) {
        field(v as nat, (n - 2) as nat, 0) - pow2((n - 1) as nat)
    } else {
        v as i32 as int
    }
}

/// A number below `2^(k+1)` is either below `2^k` or `2^k` plus its remainder modulo `2^k`.
proof fn lemma_split_top(v: nat, k: nat)
    requires
        v < pow2(k + 1),
    ensures
        v / pow2(k) == 1 || v / pow2(k) == 0,
        v / pow2(k) == 1 ==> v % pow2(k) == v - pow2(k),
        v / pow2(k) == 0 ==> v < pow2(k),
{
    let p = pow2(k) as int;
    vstd::arithmetic::power2::lemma_pow2_pos(k);
    vstd::arithmetic::power2::lemma_pow2_unfold(k + 1);
    assert(pow2(k + 1) == 2 * p);
    vstd::arithmetic::div_mod::lemma_fundamental_div_mod(v as int, p);
    vstd::arithmetic::div_mod::lemma_div_by_multiple_is_strongly_ordered(v as int, 2 * p, 2, p);
    vstd::arithmetic::div_mod::lemma_div_by_multiple(2, p);
    vstd::arithmetic::div_mod::lemma_mod_pos_bound(v as int, p);
}

/// Sign-extends a 16-bit raw immediate whose sign bit is bit `n - 1` (`3 <= n <= 15`).
fn sext_u16(v: u16, n: u32) -> (r: i16)
    requires
        3 <= n <= 15,
    ensures
        r as int == imm_from_u16(v, n as nat),
        v < pow2(n as nat) ==> r as int == sign_extend(v as nat, n as nat),
        v < pow2(n as nat) ==> -pow2((n - 1) as nat) <= r < pow2((n - 1) as nat),
{
    let k: u32 = n - 1;
    proof {
        lemma2_to64();
        vstd::arithmetic::power2::lemma_pow2_strictly_increases(n as nat, 16);
        vstd::arithmetic::power2::lemma_pow2_strictly_increases(k as nat, n as nat);
        assert((n - 2 - 0 + 1) as nat == k as nat);
        assert(pow2(0) == 1);
        assert(k + 1 == n);
    }
    if v.bit(k) {
        let low: u16 = v.bits(n - 2, 0);
        let m: u16 = u16::MAX.xor(n - 2, 0);
        let r: u16 = m | low;
        proof {
            assert(low as nat == (v as nat) % pow2(k as nat));
            vstd::arithmetic::div_mod::lemma_mod_pos_bound(v as int, pow2(k as nat) as int);
            vstd::bits::lemma_u16_shl_is_mul(1, k as u16);
            let p: u16 = 1u16 << (k as u16);
            assert(p as nat == pow2(k as nat));
            assert(m == 0xffffu16 ^ (field_mask64((n - 2) as u32, 0) as u16));
            assert((r as i16) as int == low as int - p as int) by (bit_vector)
                requires
                    2 <= k < 15,
                    p == 1u16 << (k as u16),
                    low < p,
                    m == 0xffffu16 ^ (field_mask64((k - 1) as u32, 0) as u16),
                    r == m | low,
            ;
            if v < pow2(n as nat) {
                lemma_split_top(v as nat, k as nat);
            }
        }
        r as i16
    } else {
        proof {
            if v < pow2(n as nat) {
                lemma_split_top(v as nat, k as nat);
                assert(v < 0x8000);
            }
        }
        v as i16
    }
}

/// Sign-extends a 32-bit raw immediate whose sign bit is bit 20.
fn sext_u32_21(v: u32) -> (r: i32)
    ensures
        r as int == imm_from_u32(v, 21),
        v < pow2(21) ==> r as int == sign_extend(v as nat, 21),
        v < pow2(21) ==> -pow2(20) <= r < pow2(20),
{
    proof {
        lemma2_to64();
    }
    if v.bit(20) {
        let low: u32 = v.bits(19, 0);
        let m: u32 = u32::MAX.xor(19, 0);
        let r: u32 = m | low;
        proof {
            assert(m == 0xffffffffu32 ^ (field_mask64(19, 0) as u32));
            assert(low < 0x100000);
            assert((r as i32) as int == low as int - 0x100000) by (bit_vector)
                requires
                    low < 0x100000,
                    m == 0xffffffffu32 ^ (field_mask64(19, 0) as u32),
                    r == m | low,
            ;
            if v < pow2(21) {
                lemma_split_top(v as nat, 20);
            }
        }
        r as i32
    } else {
        proof {
            if v < pow2(21) {
                lemma_split_top(v as nat, 20);
            }
        }
        v as i32
    }
}

/// Signed 12-bit immediate.
#[derive(Copy, Clone)]
pub struct I12(pub i16);

/// Signed 13-bit immediate (branch offsets).
#[derive(Copy, Clone)]
pub struct I13(pub i16);

/// Signed 21-bit immediate (jump offsets).
#[derive(Copy, Clone)]
pub struct I21(pub i32);

/// Signed 6-bit immediate of compressed instructions.
#[derive(Copy, Clone)]
pub struct I6(pub i8);

/// Signed 9-bit immediate (compressed branch offsets).
#[derive(Copy, Clone)]
pub struct I9(pub i16);

impl I12 {
    /// Takes bit 11 of `v` as the sign bit.
    pub fn from_u16(v: u16) -> (r: I12)
        ensures
            r.0 == imm_from_u16(v, 12),
            v < 0x1000 ==> r.0 == sign_extend(v as nat, 12) && -2048 <= r.0 < 2048,
    {
        proof {
            lemma2_to64();
        }
        I12(sext_u16(v, 12))
    }

    pub fn from_i16(v: i16) -> (r: I12)
        ensures
            r.0 == v,
    {
        I12(v)
    }
}

impl I13 {
    /// Takes bit 12 of `v` as the sign bit.
    pub fn from_u16(v: u16) -> (r: I13)
        ensures
            r.0 == imm_from_u16(v, 13),
            v < 0x2000 ==> r.0 == sign_extend(v as nat, 13) && -4096 <= r.0 < 4096,
    {
        proof {
            lemma2_to64();
        }
        I13(sext_u16(v, 13))
    }

    pub fn from_i16(v: i16) -> (r: I13)
        ensures
            r.0 == v,
    {
        I13(v)
    }
}

impl I21 {
    /// Takes bit 20 of `v` as the sign bit.
    pub fn from_u32(v: u32) -> (r: I21)
        ensures
            r.0 == imm_from_u32(v, 21),
            v < 0x20_0000 ==> r.0 == sign_extend(v as nat, 21) && -0x10_0000 <= r.0 < 0x10_0000,
    {
        proof {
            lemma2_to64();
        }
        I21(sext_u32_21(v))
    }

    pub fn from_i32(v: i32) -> (r: I21)
        ensures
            r.0 == v,
    {
        I21(v)
    }
}

impl I6 {
    /// Takes bit 5 of `v` as the sign bit.
    pub fn from_u16(v: u16) -> (r: I6)
        requires
            v < 0x40,
        ensures
            r.0 == sign_extend(v as nat, 6),
    {
        proof {
            lemma2_to64();
        }
        let x: i16 = sext_u16(v, 6);
        I6(x as i8)
    }
}

impl I9 {
    /// Takes bit 8 of `v` as the sign bit.
    pub fn from_u16(v: u16) -> (r: I9)
        requires
            v < 0x200,
        ensures
            r.0 == sign_extend(v as nat, 9),
    {
        proof {
            lemma2_to64();
        }
        I9(sext_u16(v, 9))
    }
}

impl From<u16> for I12 {
    fn from(v: u16) -> (r: I12) {
        I12::from_u16(v)
    }
}

impl vstd::std_specs::convert::FromSpecImpl<u16> for I12 {
    open spec fn obeys_from_spec() -> bool {
        true
    }

    open spec fn from_spec(v: u16) -> I12 {
        I12(imm_from_u16(v, 12) as i16)
    }
}

impl From<i16> for I12 {
    fn from(v: i16) -> (r: I12) {
        I12(v)
    }
}

impl vstd::std_specs::convert::FromSpecImpl<i16> for I12 {
    open spec fn obeys_from_spec() -> bool {
        true
    }

    open spec fn from_spec(v: i16) -> I12 {
        I12(v)
    }
}

impl From<u16> for I13 {
    fn from(v: u16) -> (r: I13) {
        I13::from_u16(v)
    }
}

impl vstd::std_specs::convert::FromSpecImpl<u16> for I13 {
    open spec fn obeys_from_spec() -> bool {
        true
    }

    open spec fn from_spec(v: u16) -> I13 {
        I13(imm_from_u16(v, 13) as i16)
    }
}

impl From<i16> for I13 {
    fn from(v: i16) -> (r: I13) {
        I13(v)
    }
}

impl vstd::std_specs::convert::FromSpecImpl<i16> for I13 {
    open spec fn obeys_from_spec() -> bool {
        true
    }

    open spec fn from_spec(v: i16) -> I13 {
        I13(v)
    }
}

impl From<u32> for I21 {
    fn from(v: u32) -> (r: I21) {
        I21::from_u32(v)
    }
}

impl vstd::std_specs::convert::FromSpecImpl<u32> for I21 {
    open spec fn obeys_from_spec() -> bool {
        true
    }

    open spec fn from_spec(v: u32) -> I21 {
        I21(imm_from_u32(v, 21) as i32)
    }
}

impl From<i32> for I21 {
    fn from(v: i32) -> (r: I21) {
        I21(v)
    }
}

impl vstd::std_specs::convert::FromSpecImpl<i32> for I21 {
    open spec fn obeys_from_spec() -> bool {
        true
    }

    open spec fn from_spec(v: i32) -> I21 {
        I21(v)
    }
}

impl From<I13> for u64 {
    /// The offset sign-extended to 64 bits.
    fn from(v: I13) -> (r: u64) {
        0u64.wrapping_add_signed(v.0 as i64)
    }
}

impl vstd::std_specs::convert::FromSpecImpl<I13> for u64 {
    open spec fn obeys_from_spec() -> bool {
        true
    }

    open spec fn from_spec(v: I13) -> u64 {
        wrap64(v.0 as int)
    }
}

impl From<I21> for u64 {
    /// The offset sign-extended to 64 bits.
    fn from(v: I21) -> (r: u64) {
        0u64.wrapping_add_signed(v.0 as i64)
    }
}

impl vstd::std_specs::convert::FromSpecImpl<I21> for u64 {
    open spec fn obeys_from_spec() -> bool {
        true
    }

    open spec fn from_spec(v: I21) -> u64 {
        wrap64(v.0 as int)
    }
}

/// Adding a signed immediate to an address; overflow wraps around.
pub trait Imm: Sized {
    /// `self` moved by `off`, wrapping around on overflow.
    spec fn offset_by(self, off: int) -> Self;

    fn add_i12(self, v: I12) -> (r: Self)
        ensures
            r == self.offset_by(v.0 as int),
    ;

    fn add_i13(self, v: I13) -> (r: Self)
        ensures
            r == self.offset_by(v.0 as int),
    ;

    fn add_i21(self, v: I21) -> (r: Self)
        ensures
            r == self.offset_by(v.0 as int),
    ;

    fn add_i9(self, v: I9) -> (r: Self)
        ensures
            r == self.offset_by(v.0 as int),
    ;
}

impl Imm for u64 {
    open spec fn offset_by(self, off: int) -> u64 {
        wrap64(self + off)
    }

    fn add_i12(self, v: I12) -> (r: u64) {
        self.wrapping_add_signed(v.0 as i64)
    }

    fn add_i13(self, v: I13) -> (r: u64) {
        self.wrapping_add_signed(v.0 as i64)
    }

    fn add_i21(self, v: I21) -> (r: u64) {
        self.wrapping_add_signed(v.0 as i64)
    }

    fn add_i9(self, v: I9) -> (r: u64) {
        self.wrapping_add_signed(v.0 as i64)
    }
}

} // verus!
