//! Text of numbers: digits in a base, sign, zero padding.
use vstd::prelude::*;
use vstd::string::StringExecFns;

verus! {

/// The digit for `d` (0 to 15): `0`-`9`, then `a`-`f`.
pub open spec fn digit_char(d: nat) -> char {
    if d == 0 {
        '0'
    } else if d == 1 {
        '1'
    } else if d == 2 {
        '2'
    } else if d == 3 {
        '3'
    } else if d == 4 {
        '4'
    } else if d == 5 {
        '5'
    } else if d == 6 {
        '6'
    } else if d == 7 {
        '7'
    } else if d == 8 {
        '8'
    } else if d == 9 {
        '9'
    } else if d == 10 {
        'a'
    } else if d == 11 {
        'b'
    } else if d == 12 {
        'c'
    } else if d == 13 {
        'd'
    } else if d == 14 {
        'e'
    } else {
        'f'
    }
}

/// The digits of `n` in base `base` (2 to 16), most significant first, without leading
/// zeros (zero is a single `0`).
pub open spec fn digits(n: nat, base: nat) -> Seq<char>
    decreases n,
{
    if base < 2 || n < base {
        seq![digit_char(n)]
    } else {
        proof {
            assert(n / base < n) by (nonlinear_arith)
                requires
                    base >= 2,
                    n >= base,
            ;
        }
        digits(n / base, base).push(digit_char(n % base))
    }
}

/// Lower-case hexadecimal digits of `n`.
pub open spec fn hex_str(n: nat) -> Seq<char> {
    digits(n, 16)
}

/// Decimal digits of `n`.
pub open spec fn dec_str(n: nat) -> Seq<char> {
    digits(n, 10)
}

/// Binary digits of `n`.
pub open spec fn bin_str(n: nat) -> Seq<char> {
    digits(n, 2)
}

/// `s` with `0`s in front up to `width` characters.
pub open spec fn pad0(s: Seq<char>, width: nat) -> Seq<char> {
    if s.len() < width {
        Seq::new((width - s.len()) as nat, |i: int| '0') + s
    } else {
        s
    }
}

/// `v` in decimal, with a `-` when negative.
pub open spec fn signed_dec(v: int) -> Seq<char> {
    if v < 0 {
        seq!['-'] + dec_str((-v) as nat)
    } else {
        dec_str(v as nat)
    }
}

/// `v` in decimal, always with its sign (`+` for zero and up).
pub open spec fn plus_dec(v: int) -> Seq<char> {
    if v < 0 {
        seq!['-'] + dec_str((-v) as nat)
    } else {
        seq!['+'] + dec_str(v as nat)
    }
}

/// Register name `x<n>`.
pub open spec fn reg_name(r: u8) -> Seq<char> {
    seq!['x'] + dec_str(r as nat)
}

/// Appends one character with `String::push`; the contract claims what its documentation
/// says: the string's characters become the old ones followed by `c`.
#[verifier::external_body]
pub(crate) fn push_char(s: &mut String, c: char)
    ensures
        final(s)@ == old(s)@.push(c),
{
    s.push(c)
}

/// The digit for `d` (0 to 15).
pub fn digit(d: u64) -> (c: char)
    requires
        d < 16,
    ensures
        c == digit_char(d as nat),
{
    if d == 0 {
        '0'
    } else if d == 1 {
        '1'
    } else if d == 2 {
        '2'
    } else if d == 3 {
        '3'
    } else if d == 4 {
        '4'
    } else if d == 5 {
        '5'
    } else if d == 6 {
        '6'
    } else if d == 7 {
        '7'
    } else if d == 8 {
        '8'
    } else if d == 9 {
        '9'
    } else if d == 10 {
        'a'
    } else if d == 11 {
        'b'
    } else if d == 12 {
        'c'
    } else if d == 13 {
        'd'
    } else if d == 14 {
        'e'
    } else {
        'f'
    }
}

/// Appends the digits of `v` in base `base`.
pub fn push_digits(s: &mut String, v: u64, base: u64)
    requires
        2 <= base <= 16,
    ensures
        final(s)@ == old(s)@ + digits(v as nat, base as nat),
    decreases v,
{
    if v >= base {
        assert(v / base < v) by (nonlinear_arith)
            requires
                base >= 2,
                v >= base,
        ;
        push_digits(s, v / base, base);
        let ghost mid = s@;
        push_char(s, digit(v % base));
        assert(s@ =~= old(s)@ + digits(v as nat, base as nat));
    } else {
        push_char(s, digit(v));
        assert(s@ =~= old(s)@ + digits(v as nat, base as nat));
    }
}

/// Appends `v` in hexadecimal.
pub fn push_hex(s: &mut String, v: u64)
    ensures
        final(s)@ == old(s)@ + hex_str(v as nat),
{
    push_digits(s, v, 16)
}

/// Appends `v` in decimal.
pub fn push_dec(s: &mut String, v: u64)
    ensures
        final(s)@ == old(s)@ + dec_str(v as nat),
{
    push_digits(s, v, 10)
}

/// Appends `v` in binary.
pub fn push_bin(s: &mut String, v: u64)
    ensures
        final(s)@ == old(s)@ + bin_str(v as nat),
{
    push_digits(s, v, 2)
}

/// Appends the digits of `v` in base `base`, with `0`s in front up to `width` characters.
pub fn push_digits_pad(s: &mut String, v: u64, base: u64, width: usize)
    requires
        2 <= base <= 16,
    ensures
        final(s)@ == old(s)@ + pad0(digits(v as nat, base as nat), width as nat),
{
    let mut t = String::new();
    push_digits(&mut t, v, base);
    assert(t@ =~= digits(v as nat, base as nat));
    let n = t.as_str().unicode_len();
    let ghost s0 = s@;
    if n < width {
        let mut i: usize = 0;
        while i < width - n
            invariant
                i <= width - n,
                n < width,
                s@ == s0 + Seq::new(i as nat, |k: int| '0'),
            decreases width - n - i,
        {
            push_char(s, '0');
            i = i + 1;
            assert(s@ =~= s0 + Seq::new(i as nat, |k: int| '0'));
        }
    }
    s.append(t.as_str());
    assert(s@ =~= s0 + pad0(digits(v as nat, base as nat), width as nat));
}

/// Appends `v` in decimal, with a `-` when negative.
pub fn push_signed(s: &mut String, v: i64)
    ensures
        final(s)@ == old(s)@ + signed_dec(v as int),
{
    if v < 0 {
        push_char(s, '-');
        let m: u64 = ((-(v + 1)) as u64) + 1;
        push_dec(s, m);
        assert(s@ =~= old(s)@ + signed_dec(v as int));
    } else {
        push_dec(s, v as u64);
    }
}

/// Appends `v` in decimal with its sign (`+` for zero and up).
pub fn push_plus(s: &mut String, v: i64)
    ensures
        final(s)@ == old(s)@ + plus_dec(v as int),
{
    if v < 0 {
        push_char(s, '-');
        let m: u64 = ((-(v + 1)) as u64) + 1;
        push_dec(s, m);
    } else {
        push_char(s, '+');
        push_dec(s, v as u64);
    }
    assert(s@ =~= old(s)@ + plus_dec(v as int));
}

/// Appends the register name `x<r>`.
pub fn push_reg(s: &mut String, r: u8)
    ensures
        final(s)@ == old(s)@ + reg_name(r),
{
    push_char(s, 'x');
    push_dec(s, r as u64);
    assert(s@ =~= old(s)@ + reg_name(r));
}

/// Appends a text.
pub fn push_text(s: &mut String, t: &str)
    ensures
        final(s)@ == old(s)@ + t@,
{
    s.append(t)
}

} // verus!
