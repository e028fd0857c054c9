//! The text of a memory dump: sixteen bytes a line in hexadecimal, each line headed by an
//! address and closed by the same bytes as characters.
use crate::text::{hex_str, pad0, push_char, push_digits_pad};
use vstd::prelude::*;

verus! {

/// The character that stands for byte `b` in the right-hand column: itself when printable
/// ASCII, else a dot.
pub open spec fn printable(b: u8) -> char {
    if 0x20 <= b <= 0x7e {
        b as char
    } else {
        '.'
    }
}

/// An address as a line header: 16 hexadecimal digits and a blank.
pub open spec fn addr_text(a: nat) -> Seq<char> {
    pad0(hex_str(a), 16) + seq![' ']
}

/// A byte as two hexadecimal digits and a blank.
pub open spec fn byte_text(b: u8) -> Seq<char> {
    pad0(hex_str(b as nat), 2) + seq![' ']
}

/// The right-hand column of a line, with the line's end.
pub open spec fn chars_col(pr: Seq<char>) -> Seq<char> {
    seq!['|', ' '] + pr + seq![' ', '|', '\n']
}

/// `n` blanks.
pub open spec fn blanks(n: nat) -> Seq<char> {
    Seq::new(n, |k: int| ' ')
}

/// The blanks that take the place of the missing bytes of a short last line that holds
/// `i % 16` bytes.
pub open spec fn fill_width(i: nat) -> nat {
    (if i % 16 < 8 {
        1nat
    } else {
        0nat
    }) + 3 * (16 - i % 16) as nat
}

/// The dump text once bytes `i..` of the first `n` of `m` are added to `line`, `pr` being the
/// characters of the line begun so far. The dump stops at byte `size`. With `ahead`, each line
/// is headed by the address 16 past its own, and one more header follows the stop.
pub open spec fn dump_from(
    m: Seq<u8>,
    base: nat,
    size: nat,
    n: nat,
    ahead: bool,
    i: nat,
    line: Seq<char>,
    pr: Seq<char>,
) -> Seq<char>
    decreases n - i,
{
    if i >= n {
        line
    } else if i == size {
        let l1 = if i % 16 != 0 {
            line + blanks(fill_width(i))
        } else {
            line
        };
        let l2 = l1 + chars_col(pr);
        if ahead {
            l2 + addr_text(base + i + 16)
        } else {
            l2
        }
    } else {
        let brk = i > 0 && i % 16 == 0;
        let l1 = if brk {
            line + chars_col(pr) + addr_text(
                base + i + if ahead {
                    16nat
                } else {
                    0nat
                },
            )
        } else {
            line
        };
        let p1 = if brk {
            Seq::<char>::empty()
        } else {
            pr
        };
        let l2 = if i % 8 == 0 {
            l1 + seq![' ']
        } else {
            l1
        };
        dump_from(m, base, size, n, ahead, i + 1, l2 + byte_text(m[i as int]), p1.push(printable(m[i as int])))
    }
}

/// The dump of the first `n` bytes of `m`, the first line headed by `base`, stopping at byte
/// `size`.
pub open spec fn hex_dump(m: Seq<u8>, base: nat, size: nat, n: nat, ahead: bool) -> Seq<char> {
    dump_from(m, base, size, n, ahead, 0, addr_text(base), Seq::empty())
}

fn push_addr(s: &mut String, a: u64)
    ensures
        final(s)@ == old(s)@ + addr_text(a as nat),
{
    push_digits_pad(s, a, 16, 16);
    push_char(s, ' ');
}

fn push_chars_col(s: &mut String, pr: &String)
    ensures
        final(s)@ == old(s)@ + chars_col(pr@),
{
    push_char(s, '|');
    push_char(s, ' ');
    crate::text::push_text(s, pr.as_str());
    push_char(s, ' ');
    push_char(s, '|');
    push_char(s, '\n');
}

fn push_blanks(s: &mut String, n: u64)
    ensures
        final(s)@ == old(s)@ + blanks(n as nat),
{
    let ghost s0 = s@;
    let mut k: u64 = 0;
    while k < n
        invariant
            k <= n,
            s@ == s0 + blanks(k as nat),
        decreases n - k,
    {
        push_char(s, ' ');
        k = k + 1;
        assert(s@ =~= s0 + blanks(k as nat));
    }
}

fn printable_char(b: u8) -> (c: char)
    ensures
        c == printable(b),
{
    if 0x20 <= b && b <= 0x7e {
        b as char
    } else {
        '.'
    }
}

/// The dump of the first `n` bytes of `m`, the first line headed by `base`, stopping at byte
/// `size`; with `ahead`, each line is headed by the address 16 past its own and one more header
/// follows the stop.
pub fn hex_dump_text(m: &[u8], base: u64, size: u64, n: usize, ahead: bool) -> (r: String)
    requires
        n <= m@.len(),
        base + n + (if ahead {
            16int
        } else {
            0int
        }) <= u64::MAX,
    ensures
        r@ == hex_dump(m@, base as nat, size as nat, n as nat, ahead),
{
    let mut line = String::new();
    push_addr(&mut line, base);
    let mut pr = String::new();
    assert(line@ =~= addr_text(base as nat));
    assert(pr@ =~= Seq::<char>::empty());
    let mut i: usize = 0;
    while i < n
        invariant
            i <= n,
            n <= m@.len(),
            base + n + (if ahead {
                16int
            } else {
                0int
            }) <= u64::MAX,
            hex_dump(m@, base as nat, size as nat, n as nat, ahead) == dump_from(
                m@,
                base as nat,
                size as nat,
                n as nat,
                ahead,
                i as nat,
                line@,
                pr@,
            ),
        decreases n - i,
    {
        let ii = i as u64;
        if ii == size {
            if ii % 16 != 0 {
                let mid_blank: u64 = if ii % 16 < 8 {
                    1
                } else {
                    0
                };
                push_blanks(&mut line, mid_blank + 3 * (16 - ii % 16));
            }
            push_chars_col(&mut line, &pr);
            if ahead {
                push_addr(&mut line, base + ii + 16);
            }
            return line;
        }
        let ghost line0 = line@;
        let ghost pr0 = pr@;
        let ghost brk = i > 0 && i % 16 == 0;
        let ghost l1 = if brk {
            line0 + chars_col(pr0) + addr_text(
                (base + i + if ahead {
                    16nat
                } else {
                    0nat
                }) as nat,
            )
        } else {
            line0
        };
        let ghost p1 = if brk {
            Seq::<char>::empty()
        } else {
            pr0
        };
        let ghost l2 = if i % 8 == 0 {
            l1 + seq![' ']
        } else {
            l1
        };
        if ii > 0 && ii % 16 == 0 {
            push_chars_col(&mut line, &pr);
            if ahead {
                push_addr(&mut line, base + ii + 16);
            } else {
                push_addr(&mut line, base + ii);
            }
            pr = String::new();
            assert(pr@ =~= Seq::<char>::empty());
        }
        if ii % 8 == 0 {
            push_char(&mut line, ' ');
        }
        let b = m[i];
        push_digits_pad(&mut line, b as u64, 16, 2);
        push_char(&mut line, ' ');
        push_char(&mut pr, printable_char(b));
        assert(line@ =~= l2 + byte_text(m@[i as int]));
        assert(pr@ =~= p1.push(printable(m@[i as int])));
        i = i + 1;
    }
    line
}

} // verus!
