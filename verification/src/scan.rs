//! Scanning text: whitespace, trimming, searching and reading unsigned numbers.
use crate::rv64i_disasm::{hex_digit_value, radix_digits, strip_0x};
use vstd::prelude::*;
use vstd::string::StrSliceExecFns;

verus! {

/// Whether `c` is white space in the Unicode sense (`char::is_whitespace`).
pub open spec fn is_ws(c: char) -> bool {
    let n = c as u32;
    ||| 9 <= n <= 13
    ||| n == 32
    ||| n == 0x85
    ||| n == 0xa0
    ||| n == 0x1680
    ||| 0x2000 <= n <= 0x200a
    ||| n == 0x2028
    ||| n == 0x2029
    ||| n == 0x202f
    ||| n == 0x205f
    ||| n == 0x3000
}

/// Whether `c` is ASCII white space (`char::is_ascii_whitespace`): space, tab, line feed,
/// form feed or carriage return.
pub open spec fn is_ascii_ws(c: char) -> bool {
    c == ' ' || c == '\t' || c == '\n' || c == '\x0C' || c == '\r'
}

/// `s` without its leading white space.
pub open spec fn trim_start(s: Seq<char>) -> Seq<char>
    decreases s.len(),
{
    if s.len() > 0 && is_ws(s[0]) {
        trim_start(s.drop_first())
    } else {
        s
    }
}

/// `s` without its trailing white space.
pub open spec fn trim_end(s: Seq<char>) -> Seq<char>
    decreases s.len(),
{
    if s.len() > 0 && is_ws(s.last()) {
        trim_end(s.drop_last())
    } else {
        s
    }
}

/// `s` without leading and trailing white space (`str::trim`).
pub open spec fn trim(s: Seq<char>) -> Seq<char> {
    trim_end(trim_start(s))
}

/// The index of the first `c` in `s` from index `i` on, or -1.
pub open spec fn index_of_from(s: Seq<char>, c: char, i: int) -> int
    decreases s.len() - i,
{
    if i < 0 || i >= s.len() {
        -1
    } else if s[i] == c {
        i
    } else {
        index_of_from(s, c, i + 1)
    }
}

/// The index of the first `c` in `s`, or -1.
pub open spec fn index_of(s: Seq<char>, c: char) -> int {
    index_of_from(s, c, 0)
}

/// The index of the first ASCII white space in `s` from index `i` on, or -1.
pub open spec fn index_of_ascii_ws_from(s: Seq<char>, i: int) -> int
    decreases s.len() - i,
{
    if i < 0 || i >= s.len() {
        -1
    } else if is_ascii_ws(s[i]) {
        i
    } else {
        index_of_ascii_ws_from(s, i + 1)
    }
}

/// The index of the first ASCII white space in `s`, or -1.
pub open spec fn index_of_ascii_ws(s: Seq<char>) -> int {
    index_of_ascii_ws_from(s, 0)
}

/// `s` without any leading `c` (`trim_start_matches` with one character).
pub open spec fn strip_char(s: Seq<char>, c: char) -> Seq<char>
    decreases s.len(),
{
    if s.len() > 0 && s[0] == c {
        strip_char(s.drop_first(), c)
    } else {
        s
    }
}

/// The value of `c` as a digit of `radix` (at most 16), if it is one.
pub open spec fn digit_value(c: char, radix: nat) -> Option<nat> {
    match hex_digit_value(c) {
        Some(v) => if v < radix {
            Some(v)
        } else {
            None
        },
        None => None,
    }
}

/// Whether every character of `s` is a digit of `radix`.
pub open spec fn all_digits(s: Seq<char>, radix: nat) -> bool {
    forall|i: int| 0 <= i < s.len() ==> (#[trigger] digit_value(s[i], radix)) is Some
}

/// The number the digits `s` stand for in base `radix`.
pub open spec fn digits_value(s: Seq<char>, radix: nat) -> nat
    decreases s.len(),
{
    if s.len() == 0 {
        0
    } else {
        digits_value(s.drop_last(), radix) * radix + digit_value(s.last(), radix)->0
    }
}

/// What `from_str_radix(s, radix)` gives for a type whose largest value is `max`: an optional
/// `+`, then at least one digit and nothing else, of a value no larger than `max`.
pub open spec fn parse_uint(s: Seq<char>, radix: nat, max: nat) -> Option<nat> {
    let d = radix_digits(s);
    if d.len() > 0 && all_digits(d, radix) && digits_value(d, radix) <= max {
        Some(digits_value(d, radix))
    } else {
        None
    }
}

/// The characters of `s`.
pub fn chars_of(s: &str) -> (v: Vec<char>)
    ensures
        v@ == s@,
{
    let n = s.unicode_len();
    let mut v: Vec<char> = Vec::new();
    let mut i: usize = 0;
    while i < n
        invariant
            n == s@.len(),
            i <= n,
            v@ == s@.subrange(0, i as int),
        decreases n - i,
    {
        v.push(s.get_char(i));
        i = i + 1;
        assert(v@ =~= s@.subrange(0, i as int));
    }
    assert(v@ =~= s@);
    v
}

/// Whether `c` is white space in the Unicode sense.
pub fn is_whitespace(c: char) -> (b: bool)
    ensures
        b == is_ws(c),
{
    let n = c as u32;
    (9 <= n && n <= 13) || n == 32 || n == 0x85 || n == 0xa0 || n == 0x1680 || (0x2000 <= n && n
        <= 0x200a) || n == 0x2028 || n == 0x2029 || n == 0x202f || n == 0x205f || n == 0x3000
}

/// Whether `c` is ASCII white space.
pub fn is_ascii_whitespace(c: char) -> (b: bool)
    ensures
        b == is_ascii_ws(c),
{
    c == ' ' || c == '\t' || c == '\n' || c == '\x0C' || c == '\r'
}

/// The bounds of `v[lo..hi]` without its leading and trailing white space.
pub fn trim_range(v: &Vec<char>, lo: usize, hi: usize) -> (r: (usize, usize))
    requires
        lo <= hi <= v@.len(),
    ensures
        lo <= r.0 <= r.1 <= hi,
        v@.subrange(r.0 as int, r.1 as int) == trim(v@.subrange(lo as int, hi as int)),
{
    let mut a = lo;
    while a < hi && is_whitespace(v[a])
        invariant
            lo <= a <= hi <= v@.len(),
            trim_start(v@.subrange(lo as int, hi as int)) == trim_start(
                v@.subrange(a as int, hi as int),
            ),
        decreases hi - a,
    {
        assert(v@.subrange(a as int, hi as int).drop_first() =~= v@.subrange(a + 1, hi as int));
        a = a + 1;
    }
    assert(trim_start(v@.subrange(lo as int, hi as int)) == v@.subrange(a as int, hi as int));
    let mut b = hi;
    while b > a && is_whitespace(v[b - 1])
        invariant
            lo <= a <= b <= hi <= v@.len(),
            trim_end(v@.subrange(a as int, hi as int)) == trim_end(v@.subrange(a as int, b as int)),
        decreases b - a,
    {
        assert(v@.subrange(a as int, b as int).drop_last() =~= v@.subrange(a as int, b - 1));
        b = b - 1;
    }
    assert(trim_end(v@.subrange(a as int, hi as int)) == v@.subrange(a as int, b as int));
    (a, b)
}

/// The index (from `lo`) of the first `c` in `v[lo..hi]`.
pub fn find_char(v: &Vec<char>, lo: usize, hi: usize, c: char) -> (r: Option<usize>)
    requires
        lo <= hi <= v@.len(),
    ensures
        match r {
            Some(k) => k == index_of(v@.subrange(lo as int, hi as int), c) && k < hi - lo,
            None => index_of(v@.subrange(lo as int, hi as int), c) == -1,
        },
{
    let ghost s = v@.subrange(lo as int, hi as int);
    let mut i = lo;
    while i < hi
        invariant
            lo <= i <= hi <= v@.len(),
            s == v@.subrange(lo as int, hi as int),
            index_of(s, c) == index_of_from(s, c, i - lo),
        decreases hi - i,
    {
        if v[i] == c {
            return Some(i - lo);
        }
        i = i + 1;
    }
    None
}

/// The index (from `lo`) of the first ASCII white space in `v[lo..hi]`.
pub fn find_ascii_whitespace(v: &Vec<char>, lo: usize, hi: usize) -> (r: Option<usize>)
    requires
        lo <= hi <= v@.len(),
    ensures
        match r {
            Some(k) => k == index_of_ascii_ws(v@.subrange(lo as int, hi as int)) && k < hi - lo,
            None => index_of_ascii_ws(v@.subrange(lo as int, hi as int)) == -1,
        },
{
    let ghost s = v@.subrange(lo as int, hi as int);
    let mut i = lo;
    while i < hi
        invariant
            lo <= i <= hi <= v@.len(),
            s == v@.subrange(lo as int, hi as int),
            index_of_ascii_ws(s) == index_of_ascii_ws_from(s, i - lo),
        decreases hi - i,
    {
        if is_ascii_whitespace(v[i]) {
            return Some(i - lo);
        }
        i = i + 1;
    }
    None
}

/// The start of `v[lo..hi]` after any leading `c`.
pub fn strip_leading(v: &Vec<char>, lo: usize, hi: usize, c: char) -> (r: usize)
    requires
        lo <= hi <= v@.len(),
    ensures
        lo <= r <= hi,
        v@.subrange(r as int, hi as int) == strip_char(v@.subrange(lo as int, hi as int), c),
{
    let mut a = lo;
    while a < hi && v[a] == c
        invariant
            lo <= a <= hi <= v@.len(),
            strip_char(v@.subrange(lo as int, hi as int), c) == strip_char(
                v@.subrange(a as int, hi as int),
                c,
            ),
        decreases hi - a,
    {
        assert(v@.subrange(a as int, hi as int).drop_first() =~= v@.subrange(a + 1, hi as int));
        a = a + 1;
    }
    a
}

/// The value of a digit of `radix`, if `c` is one.
pub fn digit_of(c: char, radix: u64) -> (r: Option<u64>)
    requires
        2 <= radix <= 16,
    ensures
        match r {
            Some(d) => digit_value(c, radix as nat) == Some(d as nat),
            None => digit_value(c, radix as nat) is None,
        },
{
    let n = c as u32;
    let d: u64 = if 48 <= n && n <= 57 {
        (n - 48) as u64
    } else if 97 <= n && n <= 102 {
        (n - 87) as u64
    } else if 65 <= n && n <= 70 {
        (n - 55) as u64
    } else {
        return None;
    };
    if d < radix {
        Some(d)
    } else {
        None
    }
}

/// Reads `v[lo..hi]` as `from_str_radix` does, for a type whose largest value is `max`.
pub fn parse_uint_range(v: &Vec<char>, lo: usize, hi: usize, radix: u64, max: u64) -> (r: Option<
    u64,
>)
    requires
        lo <= hi <= v@.len(),
        2 <= radix <= 16,
        max >= 16,
    ensures
        match r {
            Some(n) => parse_uint(v@.subrange(lo as int, hi as int), radix as nat, max as nat)
                == Some(n as nat),
            None => parse_uint(v@.subrange(lo as int, hi as int), radix as nat, max as nat) is None,
        },
{
    let ghost s = v@.subrange(lo as int, hi as int);
    let mut a = lo;
    if a < hi && v[a] == '+' {
        a = a + 1;
        assert(s.drop_first() =~= v@.subrange(a as int, hi as int));
    } else {
        assert(s =~= v@.subrange(a as int, hi as int));
    }
    let ghost d = v@.subrange(a as int, hi as int);
    assert(radix_digits(s) == d);
    if a == hi {
        return None;
    }
    let mut i = a;
    let mut acc: u64 = 0;
    let mut overflow = false;
    assert(d.subrange(0, 0) =~= Seq::<char>::empty());
    while i < hi
        invariant
            lo <= a <= i <= hi <= v@.len(),
            2 <= radix <= 16,
            max >= 16,
            d == v@.subrange(a as int, hi as int),
            s == v@.subrange(lo as int, hi as int),
            radix_digits(s) == d,
            forall|j: int| 0 <= j < i - a ==> (#[trigger] digit_value(d[j], radix as nat)) is Some,
            !overflow ==> acc == digits_value(d.subrange(0, i - a), radix as nat),
            !overflow ==> acc <= max,
            overflow ==> digits_value(d.subrange(0, i - a), radix as nat) > max,
        decreases hi - i,
    {
        let dig = match digit_of(v[i], radix) {
            Some(x) => x,
            None => {
                assert(!all_digits(d, radix as nat)) by {
                    assert(d[i - a] == v@[i as int]);
                    assert(digit_value(d[i - a], radix as nat) is None);
                }
                return None;
            },
        };
        let ghost p = d.subrange(0, i - a);
        assert(d.subrange(0, i - a + 1).drop_last() =~= p);
        assert(d.subrange(0, i - a + 1).last() == v@[i as int]);
        if !overflow {
            if acc > (max - dig) / radix {
                overflow = true;
                assert(acc * radix + dig > max) by (nonlinear_arith)
                    requires
                        acc > (max - dig) / (radix as int),
                        radix >= 2,
                        dig <= max,
                ;
            } else {
                assert(acc * radix + dig <= max) by (nonlinear_arith)
                    requires
                        acc <= (max - dig) / (radix as int),
                        radix >= 2,
                        dig <= max,
                ;
                acc = acc * radix + dig;
            }
        } else {
            let ghost pv = digits_value(p, radix as nat);
            assert(pv * radix + dig > max) by (nonlinear_arith)
                requires
                    pv > max,
                    radix >= 2,
                    dig >= 0,
            ;
        }
        i = i + 1;
    }
    assert(d.subrange(0, (hi - a) as int) =~= d);
    assert(all_digits(d, radix as nat));
    if overflow {
        None
    } else {
        Some(acc)
    }
}

/// The start of `v[lo..hi]` after any leading `0x` (`trim_start_matches("0x")`).
pub fn strip_0x_range(v: &Vec<char>, lo: usize, hi: usize) -> (r: usize)
    requires
        lo <= hi <= v@.len(),
    ensures
        lo <= r <= hi,
        v@.subrange(r as int, hi as int) == strip_0x(v@.subrange(lo as int, hi as int)),
{
    let mut a = lo;
    while hi >= 2 && a <= hi - 2 && v[a] == '0' && v[a + 1] == 'x'
        invariant
            lo <= a <= hi <= v@.len(),
            strip_0x(v@.subrange(lo as int, hi as int)) == strip_0x(v@.subrange(a as int, hi as int)),
        decreases hi - a,
    {
        assert(v@.subrange(a as int, hi as int).subrange(2, (hi - a) as int) =~= v@.subrange(
            a + 2,
            hi as int,
        ));
        a = a + 2;
    }
    a
}

} // verus!
