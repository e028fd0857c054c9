//! Commands of the interactive text menu, and the text the menu shows.
use crate::bits::{field, BitOps};
use crate::rv64i_cpu::RV64IURegs;
use crate::rv64i_disasm::{
    abi_name, asm_text, disasm, push_field, reg_hex, reg_idx2abi, strip_0x, u64_hex4_text,
};
use crate::text::{
    bin_str, dec_str, hex_str, pad0, push_char, push_dec, push_digits_pad, push_hex, push_reg,
    push_signed, push_text, reg_name, signed_dec,
};
use vstd::string::{StrSliceExecFns, StringExecFns};
use crate::scan::{
    chars_of, find_ascii_whitespace, find_char, index_of, index_of_ascii_ws, parse_uint,
    parse_uint_range, strip_0x_range, strip_char, strip_leading, trim, trim_range,
};
use crate::hexdump::{hex_dump, hex_dump_text};
use vstd::prelude::*;

verus! {

/// A command of the interactive menu.
#[derive(PartialEq, Eq, Debug, Clone, Copy)]
pub enum TuiMenuCmd {
    Step,
    Continue,
    Quit,
    PrintRegister(u8),
    PrintAllRegisters,
    DumpMem(u64, u64),
    /// List n_instr instructions starting at PC + pc_offset: (pc_offset, n_instr)
    ListInstr(i8, usize),
}

/// What a line typed at the menu asks for.
#[derive(PartialEq, Eq, Debug, Clone, Copy)]
pub enum CommandLine {
    /// Nothing was typed.
    Empty,
    /// The help text.
    Help,
    /// A command.
    Cmd(TuiMenuCmd),
    /// `dm` without a readable address and size.
    BadDumpMem,
    /// Anything else.
    Unrecognized,
}

/// Whether `s` starts with `c`.
pub open spec fn starts1(s: Seq<char>, c: char) -> bool {
    s.len() >= 1 && s[0] == c
}

/// Whether `s` starts with `c` then `d`.
pub open spec fn starts2(s: Seq<char>, c: char, d: char) -> bool {
    s.len() >= 2 && s[0] == c && s[1] == d
}

/// The address and size of `dm <addr> <size>`: the address in hexadecimal (after any `0x`),
/// the size in decimal. The rest of the line is taken from the untrimmed line at the index where
/// the trimmed line has its first space.
pub open spec fn dm_args(s: Seq<char>) -> Option<(u64, u64)> {
    let t = trim(s);
    let k = index_of(t, ' ');
    if k < 0 {
        None
    } else {
        let s2 = trim(s.subrange(k + 1, s.len() as int));
        let k2 = index_of(s2, ' ');
        if k2 < 0 {
            None
        } else {
            let addr = parse_uint(strip_0x(trim(s2.subrange(0, k2))), 16, u64::MAX as nat);
            let size = parse_uint(trim(s2.subrange(k2 + 1, s2.len() as int)), 10, u64::MAX as nat);
            if addr is Some && size is Some {
                Some((addr->0 as u64, size->0 as u64))
            } else {
                None
            }
        }
    }
}

/// The register number that `pr <reg>` names, before it is narrowed to a byte: `x0`-`x31`, the
/// ABI names `ra`, `sp`, `gp`, `tp`, `t0`-`t6`, `s0`-`s11`, and `a0`-`a7`.
/// The register word is taken from the untrimmed line at the index where the trimmed line has
/// its first ASCII white space.
pub open spec fn reg_arg(s: Seq<char>) -> Option<nat> {
    let t = trim(s);
    let k = index_of_ascii_ws(t);
    if k < 0 {
        None
    } else {
        let r = trim(s.subrange(k, s.len() as int));
        if starts1(r, 'x') {
            match parse_uint(strip_char(r, 'x'), 10, 255) {
                Some(i) => if i <= 31 {
                    Some(i)
                } else {
                    None
                },
                None => None,
            }
        } else if starts2(r, 'r', 'a') {
            Some(1)
        } else if starts2(r, 's', 'p') {
            Some(2)
        } else if starts2(r, 'g', 'p') {
            Some(3)
        } else if starts2(r, 't', 'p') {
            Some(4)
        } else if starts1(r, 't') {
            match parse_uint(strip_char(r, 't'), 10, 255) {
                Some(i) => if i < 3 {
                    Some(i + 5)
                } else if i <= 6 {
                    Some(i + 25)
                } else {
                    None
                },
                None => None,
            }
        } else if starts1(r, 'a') {
            match parse_uint(strip_char(r, 'a'), 10, 255) {
                Some(i) => if i <= 7 {
                    Some(i + 10)
                } else {
                    None
                },
                None => None,
            }
        } else if starts1(r, 's') {
            match parse_uint(strip_char(r, 's'), 10, 255) {
                Some(i) => if i <= 1 {
                    Some(i + 8)
                } else if i <= 11 {
                    Some(i + 16)
                } else {
                    None
                },
                None => None,
            }
        } else {
            None
        }
    }
}

/// The number of instructions of `li <n>`, in decimal, taken from the untrimmed line at the
/// index where the trimmed line has its first ASCII white space.
pub open spec fn li_arg(s: Seq<char>) -> Option<nat> {
    let t = trim(s);
    let k = index_of_ascii_ws(t);
    if k < 0 {
        None
    } else {
        parse_uint(trim(s.subrange(k, s.len() as int)), 10, usize::MAX as nat)
    }
}

/// Parses "dm <addr> <size>", e.g. "dm 0x10000 1024" to (0x10000, 1024).
pub fn parse_dm(s: &str) -> (r: Option<(u64, u64)>)
    ensures
        r == dm_args(s@),
{
    let v = chars_of(s);
    let n = v.len();
    let (ta, tb) = trim_range(&v, 0, n);
    assert(v@.subrange(0, n as int) =~= s@);
    let k = match find_char(&v, ta, tb, ' ') {
        Some(k) => k,
        None => return None,
    };
    let (a2, b2) = trim_range(&v, k + 1, n);
    let ghost s2 = v@.subrange(a2 as int, b2 as int);
    let k2 = match find_char(&v, a2, b2, ' ') {
        Some(k2) => k2,
        None => return None,
    };
    let (aa, ab) = trim_range(&v, a2, a2 + k2);
    assert(v@.subrange(a2 as int, a2 + k2) =~= s2.subrange(0, k2 as int));
    let ap = strip_0x_range(&v, aa, ab);
    let (za, zb) = trim_range(&v, a2 + k2 + 1, b2);
    assert(v@.subrange(a2 + k2 + 1, b2 as int) =~= s2.subrange(k2 + 1, s2.len() as int));
    let addr = parse_uint_range(&v, ap, ab, 16, u64::MAX);
    let size = parse_uint_range(&v, za, zb, 10, u64::MAX);
    match (addr, size) {
        (Some(a), Some(z)) => Some((a, z)),
        _ => None,
    }
}

/// Reads the number after the leading `c`s of `v[lo..hi]`, in decimal, as a byte.
fn parse_reg_number(v: &Vec<char>, lo: usize, hi: usize, c: char) -> (r: Option<u64>)
    requires
        lo <= hi <= v@.len(),
    ensures
        match r {
            Some(n) => parse_uint(strip_char(v@.subrange(lo as int, hi as int), c), 10, 255)
                == Some(n as nat),
            None => parse_uint(strip_char(v@.subrange(lo as int, hi as int), c), 10, 255) is None,
        },
{
    let p = strip_leading(v, lo, hi, c);
    parse_uint_range(v, p, hi, 10, 255)
}

/// Parses the "print register" command, e.g. "pr x1", "pr t0".
pub fn parse_pr(s: &str) -> (r: Option<u8>)
    ensures
        match r {
            Some(n) => reg_arg(s@) == Some(n as nat),
            None => reg_arg(s@) is None,
        },
{
    let v = chars_of(s);
    let n = v.len();
    assert(v@.subrange(0, n as int) =~= s@);
    let (ta, tb) = trim_range(&v, 0, n);
    let k = match find_ascii_whitespace(&v, ta, tb) {
        Some(k) => k,
        None => return None,
    };
    let (ra, rb) = trim_range(&v, k, n);
    let ghost rs = v@.subrange(ra as int, rb as int);
    let len = rb - ra;
    if len >= 1 && v[ra] == 'x' {
        match parse_reg_number(&v, ra, rb, 'x') {
            Some(i) => if i <= 31 {
                Some(i as u8)
            } else {
                None
            },
            None => None,
        }
    } else if len >= 2 && v[ra] == 'r' && v[ra + 1] == 'a' {
        Some(1)
    } else if len >= 2 && v[ra] == 's' && v[ra + 1] == 'p' {
        Some(2)
    } else if len >= 2 && v[ra] == 'g' && v[ra + 1] == 'p' {
        Some(3)
    } else if len >= 2 && v[ra] == 't' && v[ra + 1] == 'p' {
        Some(4)
    } else if len >= 1 && v[ra] == 't' {
        match parse_reg_number(&v, ra, rb, 't') {
            Some(i) => if i < 3 {
                Some(i as u8 + 5)
            } else if i <= 6 {
                Some(i as u8 + 25)
            } else {
                None
            },
            None => None,
        }
    } else if len >= 1 && v[ra] == 'a' {
        match parse_reg_number(&v, ra, rb, 'a') {
            Some(i) => if i <= 7 {
                Some(i as u8 + 10)
            } else {
                None
            },
            None => None,
        }
    } else if len >= 1 && v[ra] == 's' {
        match parse_reg_number(&v, ra, rb, 's') {
            Some(i) => if i <= 1 {
                Some(i as u8 + 8)
            } else if i <= 11 {
                Some(i as u8 + 16)
            } else {
                None
            },
            None => None,
        }
    } else {
        None
    }
}

/// Parses "li <n>", e.g. "li 20" to (-4, 20).
pub fn parse_cmd_li(l: &str) -> (r: Option<(i8, usize)>)
    ensures
        match r {
            Some(x) => x.0 == -4 && li_arg(l@) == Some(x.1 as nat),
            None => li_arg(l@) is None,
        },
{
    let v = chars_of(l);
    let n = v.len();
    assert(v@.subrange(0, n as int) =~= l@);
    let (ta, tb) = trim_range(&v, 0, n);
    let k = match find_ascii_whitespace(&v, ta, tb) {
        Some(k) => k,
        None => return None,
    };
    let (a, b) = trim_range(&v, k, n);
    match parse_uint_range(&v, a, b, 10, usize::MAX as u64) {
        Some(x) => Some((-4, x as usize)),
        None => None,
    }
}

/// `n` rounded down to a multiple of 16.
pub open spec fn align16_spec(n: u64) -> u64 {
    (n - n % 16) as u64
}

/// `n` rounded down to a multiple of 16.
pub fn align16(n: u64) -> (r: u64)
    ensures
        r == align16_spec(n),
{
    n - n % 16
}

/// `n` rounded down to a multiple of 16, but at least 16.
pub open spec fn align16_nonzero_spec(n: u64) -> u64 {
    if align16_spec(n) == 0 {
        16
    } else {
        align16_spec(n)
    }
}

/// `n` rounded down to a multiple of 16, but at least 16.
pub fn align16_nonzero(n: u64) -> (r: u64)
    ensures
        r == align16_nonzero_spec(n),
{
    let n = align16(n);
    if n == 0 {
        16
    } else {
        n
    }
}

/// The text of a dump of `m`, the bytes from `addr`: lines of 16 bytes from the 16-byte
/// boundary at or below `addr`, `align16_nonzero(size)` bytes in all, or a complaint when there
/// are no bytes to show.
pub fn dump_mem(m: Option<&[u8]>, addr: u64, size: u64) -> (r: String)
    requires
        m is Some ==> align16_nonzero_spec(size) <= m->0@.len(),
        m is Some ==> align16_spec(addr) + align16_nonzero_spec(size) <= u64::MAX,
    ensures
        m is None ==> r@ == "Wrong address or size"@,
        m is Some ==> r@ == hex_dump(
            m->0@,
            align16_spec(addr) as nat,
            size as nat,
            align16_nonzero_spec(size) as nat,
            false,
        ),
{
    match m {
        None => String::from_str("Wrong address or size"),
        Some(bytes) => {
            let aligned_addr = align16(addr);
            let aligned_size = align16_nonzero(size);
            assert(aligned_size <= bytes.len());
            hex_dump_text(bytes, aligned_addr, size, aligned_size as usize, false)
        },
    }
}

/// The number of bytes `c` takes in UTF-8.
pub open spec fn utf8_len(c: char) -> nat {
    let n = c as u32;
    if n < 0x80 {
        1
    } else if n < 0x800 {
        2
    } else if n < 0x10000 {
        3
    } else {
        4
    }
}

/// Whether the first two bytes of `l` (or all of it, when shorter) end on a character
/// boundary.
pub open spec fn first_two_bytes_whole(l: Seq<char>) -> bool {
    l.len() == 0 || utf8_len(l[0]) == 2 || (utf8_len(l[0]) == 1 && (l.len() == 1 || utf8_len(
        l[1],
    ) == 1))
}

/// What a line typed at the menu asks for.
pub open spec fn command_of(l: Seq<char>) -> CommandLine {
    if l.len() == 0 {
        CommandLine::Empty
    } else if starts1(l, 'h') {
        CommandLine::Help
    } else if starts1(l, 'q') {
        CommandLine::Cmd(TuiMenuCmd::Quit)
    } else if starts1(l, 'c') {
        CommandLine::Cmd(TuiMenuCmd::Continue)
    } else if starts1(l, 's') {
        CommandLine::Cmd(TuiMenuCmd::Step)
    } else if starts2(l, 'p', 'r') {
        match reg_arg(l) {
            Some(r) => CommandLine::Cmd(TuiMenuCmd::PrintRegister(r as u8)),
            None => CommandLine::Cmd(TuiMenuCmd::PrintAllRegisters),
        }
    } else if starts2(l, 'd', 'm') {
        match dm_args(l) {
            Some((a, z)) => CommandLine::Cmd(
                TuiMenuCmd::DumpMem(align16_spec(a), align16_nonzero_spec(z)),
            ),
            None => CommandLine::BadDumpMem,
        }
    } else if starts2(l, 'l', 'i') {
        match li_arg(l) {
            Some(n) => CommandLine::Cmd(TuiMenuCmd::ListInstr(-4i8, n as usize)),
            None => CommandLine::Cmd(TuiMenuCmd::ListInstr(-4i8, 10usize)),
        }
    } else {
        CommandLine::Unrecognized
    }
}

/// Whether a line can be read as a command without cutting a character in two.
pub open spec fn command_line_ok(l: Seq<char>) -> bool {
    first_two_bytes_whole(l)
}

/// Whether `classify_command` and `parse_command` take the line `l`.
pub fn can_parse_command(l: &str) -> (r: bool)
    ensures
        r == command_line_ok(l@),
{
    let v = chars_of(l);
    let n = v.len();
    let whole = if n == 0 {
        true
    } else {
        let c0 = v[0] as u32;
        if c0 >= 0x80 {
            c0 < 0x800
        } else {
            n == 1 || (v[1] as u32) < 0x80
        }
    };
    whole
}

/// What a line typed at the menu asks for.
pub fn classify_command(l: &str) -> (r: CommandLine)
    requires
        command_line_ok(l@),
    ensures
        r == command_of(l@),
{
    let v = chars_of(l);
    let n = v.len();
    if n == 0 {
        return CommandLine::Empty;
    }
    let c0 = v[0];
    let two = |a: char, b: char| -> (r: bool)
        ensures
            r == (n >= 2 && v@[0] == a && v@[1] == b),
        { n >= 2 && v[0] == a && v[1] == b };
    if c0 == 'h' {
        CommandLine::Help
    } else if c0 == 'q' {
        CommandLine::Cmd(TuiMenuCmd::Quit)
    } else if c0 == 'c' {
        CommandLine::Cmd(TuiMenuCmd::Continue)
    } else if c0 == 's' {
        CommandLine::Cmd(TuiMenuCmd::Step)
    } else if two('p', 'r') {
        match parse_pr(l) {
            Some(r) => CommandLine::Cmd(TuiMenuCmd::PrintRegister(r)),
            None => CommandLine::Cmd(TuiMenuCmd::PrintAllRegisters),
        }
    } else if two('d', 'm') {
        match parse_dm(l) {
            Some((a, z)) => CommandLine::Cmd(TuiMenuCmd::DumpMem(align16(a), align16_nonzero(z))),
            None => CommandLine::BadDumpMem,
        }
    } else if two('l', 'i') {
        match parse_cmd_li(l) {
            Some((off, k)) => CommandLine::Cmd(TuiMenuCmd::ListInstr(off, k)),
            None => CommandLine::Cmd(TuiMenuCmd::ListInstr(-4, 10)),
        }
    } else {
        CommandLine::Unrecognized
    }
}

/// The command a line typed at the menu gives, if any (help and unrecognized lines give none).
pub fn parse_command(l: String) -> (r: Option<TuiMenuCmd>)
    requires
        command_line_ok(l@),
    ensures
        r == match command_of(l@) {
            CommandLine::Cmd(c) => Some(c),
            _ => None,
        },
{
    match classify_command(l.as_str()) {
        CommandLine::Cmd(c) => Some(c),
        _ => None,
    }
}

/// Bits `hi..=lo` of `v` as 8 binary digits.
pub open spec fn bin8(v: nat, hi: nat, lo: nat) -> Seq<char> {
    pad0(bin_str(field(v, hi, lo)), 8)
}

/// Bits 31..0 of `v` in binary, in groups of 8 separated by `_`.
pub open spec fn reg32_bin_text(v: u64) -> Seq<char> {
    let n = v as nat;
    bin8(n, 31, 24) + seq!['_'] + bin8(n, 23, 16) + seq!['_'] + bin8(n, 15, 8) + seq!['_'] + bin8(
        n,
        7,
        0,
    )
}

/// `v` in binary, in groups of 8 separated by `_`.
pub open spec fn reg64_bin_text(v: u64) -> Seq<char> {
    let n = v as nat;
    bin8(n, 63, 56) + seq!['_'] + bin8(n, 55, 48) + seq!['_'] + bin8(n, 47, 40) + seq!['_'] + bin8(
        n,
        39,
        32,
    ) + seq!['_'] + reg32_bin_text(v)
}

/// Bits 31..0 of `v` in binary, e.g. "00000000_00000000_00000000_00000001".
pub fn reg32_bin(v: u64) -> (r: String)
    ensures
        r@ == reg32_bin_text(v),
{
    let mut s = String::new();
    push_field(&mut s, v, 31, 24, 2, 8);
    push_char(&mut s, '_');
    push_field(&mut s, v, 23, 16, 2, 8);
    push_char(&mut s, '_');
    push_field(&mut s, v, 15, 8, 2, 8);
    push_char(&mut s, '_');
    push_field(&mut s, v, 7, 0, 2, 8);
    assert(s@ =~= reg32_bin_text(v));
    s
}

/// `v` in binary, in groups of 8 bits separated by `_`.
pub fn reg64_bin(v: u64) -> (r: String)
    ensures
        r@ == reg64_bin_text(v),
{
    let mut s = String::new();
    push_field(&mut s, v, 63, 56, 2, 8);
    push_char(&mut s, '_');
    push_field(&mut s, v, 55, 48, 2, 8);
    push_char(&mut s, '_');
    push_field(&mut s, v, 47, 40, 2, 8);
    push_char(&mut s, '_');
    push_field(&mut s, v, 39, 32, 2, 8);
    push_char(&mut s, '_');
    let ghost head = s@;
    let low = reg32_bin(v);
    s.append(low.as_str());
    assert(s@ =~= reg64_bin_text(v));
    s
}

/// `s` with spaces behind it up to `width` characters.
pub open spec fn pad_right(s: Seq<char>, width: nat) -> Seq<char> {
    if s.len() < width {
        s + Seq::new((width - s.len()) as nat, |i: int| ' ')
    } else {
        s
    }
}

/// One register as the menu shows it: name, ABI name and value.
pub open spec fn reg_label(regs: &RV64IURegs, ri: u8) -> Seq<char> {
    if ri == 0 {
        "x0 (zero)"@
    } else {
        pad_right(reg_name(ri), 4) + "("@ + abi_name(ri) + "): "@ + u64_hex4_text(
            regs.x@[ri as int],
        )
    }
}

/// One register as the menu shows it, e.g. "x1  (ra): 0000_0000_0000_0001".
pub fn reg2str(regs: &RV64IURegs, ri: u8) -> (r: String)
    requires
        ri < 32,
    ensures
        r@ == reg_label(regs, ri),
{
    if ri == 0 {
        return String::from_str("x0 (zero)");
    }
    let mut s = String::new();
    push_reg(&mut s, ri);
    let ghost name = s@;
    assert(name =~= reg_name(ri));
    let n = s.as_str().unicode_len();
    if n < 4 {
        let mut i: usize = 0;
        while i < 4 - n
            invariant
                n < 4,
                i <= 4 - n,
                s@ == name + Seq::new(i as nat, |k: int| ' '),
            decreases 4 - n - i,
        {
            push_char(&mut s, ' ');
            i = i + 1;
            assert(s@ =~= name + Seq::new(i as nat, |k: int| ' '));
        }
    } else {
        assert(s@ =~= name);
    }
    assert(s@ == pad_right(reg_name(ri), 4));
    push_text(&mut s, "(");
    push_text(&mut s, reg_idx2abi(ri));
    push_text(&mut s, "): ");
    let h = reg_hex(regs.x[ri as usize]);
    s.append(h.as_str());
    s
}

/// A line of the register table: `<left><hex a><mid><hex b>`.
pub open spec fn regs_row(left: Seq<char>, a: u64, mid: Seq<char>, b: u64) -> Seq<char> {
    left + u64_hex4_text(a) + mid + u64_hex4_text(b)
}

/// The labels of line `i` (0 to 14) of the register table: x(i+1) on the left, x(i+17) on the
/// right.
pub open spec fn regs_labels(i: int) -> (Seq<char>, Seq<char>) {
    if i == 0 {
        (" x1 (ra): "@, " | x17 (a7):  "@)
    } else if i == 1 {
        (" x2 (sp): "@, " | x18 (s2):  "@)
    } else if i == 2 {
        (" x3 (gp): "@, " | x19 (s3):  "@)
    } else if i == 3 {
        (" x4 (tp): "@, " | x20 (s4):  "@)
    } else if i == 4 {
        (" x5 (t0): "@, " | x21 (s5):  "@)
    } else if i == 5 {
        (" x6 (t1): "@, " | x22 (s6):  "@)
    } else if i == 6 {
        (" x7 (t2): "@, " | x23 (s7):  "@)
    } else if i == 7 {
        (" x8 (s0): "@, " | x24 (s8):  "@)
    } else if i == 8 {
        (" x9 (s1): "@, " | x25 (s9):  "@)
    } else if i == 9 {
        ("x10 (a0): "@, " | x26 (s10): "@)
    } else if i == 10 {
        ("x11 (a1): "@, " | x27 (s11): "@)
    } else if i == 11 {
        ("x12 (a2): "@, " | x28 (t3):  "@)
    } else if i == 12 {
        ("x13 (a3): "@, " | x29 (t4):  "@)
    } else if i == 13 {
        ("x14 (a4): "@, " | x30 (t5):  "@)
    } else {
        ("x15 (a5): "@, " | x31 (t6):  "@)
    }
}

/// Line `i` of the register table.
pub open spec fn regs_line(regs: &RV64IURegs, i: int) -> Seq<char> {
    if i < 15 {
        regs_row(regs_labels(i).0, regs.x@[i + 1], regs_labels(i).1, regs.x@[i + 17])
    } else if i == 15 {
        "x16 (a6): "@ + u64_hex4_text(regs.x@[16]) + " |"@
    } else {
        "      pc: "@ + u64_hex4_text(regs.pc) + " |"@
    }
}

fn regs_row_string(left: &str, a: u64, mid: &str, b: u64) -> (r: String)
    ensures
        r@ == regs_row(left@, a, mid@, b),
{
    let mut s = String::from_str(left);
    let h = reg_hex(a);
    s.append(h.as_str());
    push_text(&mut s, mid);
    let h = reg_hex(b);
    s.append(h.as_str());
    s
}

/// The labels of line `i` (0 to 14) of the register table.
fn regs_labels_of(i: usize) -> (r: (&'static str, &'static str))
    requires
        i < 15,
    ensures
        r.0@ == regs_labels(i as int).0,
        r.1@ == regs_labels(i as int).1,
{
    if i == 0 {
        (" x1 (ra): ", " | x17 (a7):  ")
    } else if i == 1 {
        (" x2 (sp): ", " | x18 (s2):  ")
    } else if i == 2 {
        (" x3 (gp): ", " | x19 (s3):  ")
    } else if i == 3 {
        (" x4 (tp): ", " | x20 (s4):  ")
    } else if i == 4 {
        (" x5 (t0): ", " | x21 (s5):  ")
    } else if i == 5 {
        (" x6 (t1): ", " | x22 (s6):  ")
    } else if i == 6 {
        (" x7 (t2): ", " | x23 (s7):  ")
    } else if i == 7 {
        (" x8 (s0): ", " | x24 (s8):  ")
    } else if i == 8 {
        (" x9 (s1): ", " | x25 (s9):  ")
    } else if i == 9 {
        ("x10 (a0): ", " | x26 (s10): ")
    } else if i == 10 {
        ("x11 (a1): ", " | x27 (s11): ")
    } else if i == 11 {
        ("x12 (a2): ", " | x28 (t3):  ")
    } else if i == 12 {
        ("x13 (a3): ", " | x29 (t4):  ")
    } else if i == 13 {
        ("x14 (a4): ", " | x30 (t5):  ")
    } else {
        ("x15 (a5): ", " | x31 (t6):  ")
    }
}

/// All registers, as the lines of a table: x1 to x15 beside x17 to x31, then x16 and the PC.
pub fn regs_table(regs: &RV64IURegs) -> (r: Vec<String>)
    ensures
        r@.len() == 17,
        forall|i: int| 0 <= i < 17 ==> #[trigger] r@[i]@ == regs_line(regs, i),
{
    let mut v: Vec<String> = Vec::new();
    let mut i: usize = 0;
    while i < 15
        invariant
            i <= 15,
            v@.len() == i,
            forall|k: int| 0 <= k < i ==> #[trigger] v@[k]@ == regs_line(regs, k),
        decreases 15 - i,
    {
        let (left, mid) = regs_labels_of(i);
        v.push(regs_row_string(left, regs.x[i + 1], mid, regs.x[i + 17]));
        i = i + 1;
    }
    let mut s = String::from_str("x16 (a6): ");
    let h = reg_hex(regs.x[16]);
    s.append(h.as_str());
    push_text(&mut s, " |");
    v.push(s);
    let mut s = String::from_str("      pc: ");
    let h = reg_hex(regs.pc);
    s.append(h.as_str());
    push_text(&mut s, " |");
    v.push(s);
    v
}

/// The lines that describe one register: its label, its halves in binary, and its value
/// unsigned and signed.
pub open spec fn reg_lines(regs: &RV64IURegs, reg_i: u8) -> Seq<Seq<char>> {
    let v = regs.x@[reg_i as int];
    seq![
        reg_label(regs, reg_i),
        "[63:32]   "@ + reg32_bin_text(field(v as nat, 63, 32) as u64),
        "[31:0]    "@ + reg32_bin_text(field(v as nat, 33, 0) as u64),
        "Unsigned: "@ + dec_str(v as nat),
        "Signed:   "@ + signed_dec((v as i64) as int),
    ]
}

/// The lines that describe register `reg_i`.
pub fn reg_text(regs: &RV64IURegs, reg_i: u8) -> (r: Vec<String>)
    requires
        reg_i < 32,
    ensures
        r@.len() == 5,
        forall|i: int| 0 <= i < 5 ==> #[trigger] r@[i]@ == reg_lines(regs, reg_i)[i],
{
    let v = regs.x[reg_i as usize];
    let mut lines: Vec<String> = Vec::new();
    lines.push(reg2str(regs, reg_i));
    let mut s = String::from_str("[63:32]   ");
    let b = reg32_bin(v.bits(63, 32));
    s.append(b.as_str());
    lines.push(s);
    let mut s = String::from_str("[31:0]    ");
    let b = reg32_bin(v.bits(33, 0));
    s.append(b.as_str());
    lines.push(s);
    let mut s = String::from_str("Unsigned: ");
    push_dec(&mut s, v);
    lines.push(s);
    let mut s = String::from_str("Signed:   ");
    push_signed(&mut s, v as i64);
    lines.push(s);
    assert(lines@.len() == 5);
    lines
}

/// The line for register `i` when it changed between `before` and `after`.
pub open spec fn changed_reg_line(before: &RV64IURegs, after: &RV64IURegs, i: u8) -> Seq<char> {
    reg_label(before, i) + " → "@ + reg_label(after, i)
}

/// The lines for the registers x1 to x(n - 1) that changed between `before` and `after`.
pub open spec fn changed_regs_upto(before: &RV64IURegs, after: &RV64IURegs, n: int) -> Seq<
    Seq<char>,
>
    decreases n,
{
    if n <= 1 {
        Seq::empty()
    } else {
        changed_regs_upto(before, after, n - 1) + if before.x@[n - 1] != after.x@[n - 1] {
            seq![changed_reg_line(before, after, (n - 1) as u8)]
        } else {
            Seq::empty()
        }
    }
}

/// The difference `after - before` of two PCs taken as signed numbers.
pub open spec fn pc_jump(before_pc: u64, after_pc: u64) -> int {
    (after_pc as i64) as int - (before_pc as i64) as int
}

/// The line that tells how the PC changed.
pub open spec fn pc_line(before_pc: u64, after_pc: u64) -> Seq<char> {
    let j = pc_jump(before_pc, after_pc);
    if j == 0 {
        "PC: 0x"@ + hex_str(after_pc as nat) + " ↩"@
    } else {
        "PC: 0x"@ + hex_str(before_pc as nat) + (if j > 0 {
            " + 0x"@
        } else {
            " - 0x"@
        }) + hex_str(if j > 0 {
            j as nat
        } else {
            (-j) as nat
        }) + " = 0x"@ + hex_str(after_pc as nat)
    }
}

/// The lines that tell what one step changed: each of x1 to x30 that changed, then the PC.
pub fn changed_regs_text(before_regs: &RV64IURegs, after_regs: &RV64IURegs) -> (r: Vec<String>)
    requires
        i64::MIN < pc_jump(before_regs.pc, after_regs.pc) <= i64::MAX,
    ensures
        r@.len() == changed_regs_upto(before_regs, after_regs, 31).len() + 1,
        forall|k: int|
            0 <= k < r@.len() - 1 ==> #[trigger] r@[k]@ == changed_regs_upto(
                before_regs,
                after_regs,
                31,
            )[k],
        r@[r@.len() - 1]@ == pc_line(before_regs.pc, after_regs.pc),
{
    let mut v: Vec<String> = Vec::new();
    let mut i: usize = 1;
    while i < 31
        invariant
            1 <= i <= 31,
            v@.len() == changed_regs_upto(before_regs, after_regs, i as int).len(),
            forall|k: int|
                0 <= k < v@.len() ==> #[trigger] v@[k]@ == changed_regs_upto(
                    before_regs,
                    after_regs,
                    i as int,
                )[k],
        decreases 31 - i,
    {
        if before_regs.x[i] != after_regs.x[i] {
            let mut s = reg2str(before_regs, i as u8);
            push_text(&mut s, " → ");
            let a = reg2str(after_regs, i as u8);
            s.append(a.as_str());
            v.push(s);
        }
        i = i + 1;
    }
    let b = before_regs.pc;
    let a = after_regs.pc;
    let jump: i64 = (a as i64) - (b as i64);
    let mut s = String::from_str("PC: 0x");
    if jump == 0 {
        push_hex(&mut s, a);
        push_text(&mut s, " ↩");
    } else {
        push_hex(&mut s, b);
        let m: u64 = if jump > 0 {
            push_text(&mut s, " + 0x");
            jump as u64
        } else {
            push_text(&mut s, " - 0x");
            (-jump) as u64
        };
        push_hex(&mut s, m);
        push_text(&mut s, " = 0x");
        push_hex(&mut s, a);
    }
    v.push(s);
    v
}

/// One line of an instruction listing: a marker at the PC, the address, the word and its
/// assembly text.
pub open spec fn listing_line(instr: u32, addr: u64, current: bool) -> Seq<char> {
    (if current {
        "→"@
    } else {
        " "@
    }) + " 0x"@ + pad0(hex_str(addr as nat), 8) + " | 0x"@ + pad0(hex_str(instr as nat), 8)
        + " | "@ + asm_text(instr, addr)
}

/// The lines of the listing of instruction words placed one after the other from
/// `instr_start_addr`, the one at `pc_addr` marked.
pub fn print_instr_listing(instructions: Vec<u32>, instr_start_addr: u64, pc_addr: u64) -> (r: Vec<
    String,
>)
    requires
        instr_start_addr + 4 * instructions@.len() <= u64::MAX,
    ensures
        r@.len() == instructions@.len(),
        forall|k: int|
            0 <= k < r@.len() ==> #[trigger] r@[k]@ == listing_line(
                instructions@[k],
                (instr_start_addr + 4 * k) as u64,
                instr_start_addr + 4 * k == pc_addr,
            ),
{
    let mut v: Vec<String> = Vec::new();
    let mut instr_addr = instr_start_addr;
    let mut i: usize = 0;
    while i < instructions.len()
        invariant
            i <= instructions@.len(),
            instr_start_addr + 4 * instructions@.len() <= u64::MAX,
            instr_addr == instr_start_addr + 4 * i,
            v@.len() == i,
            forall|k: int|
                0 <= k < i ==> #[trigger] v@[k]@ == listing_line(
                    instructions@[k],
                    (instr_start_addr + 4 * k) as u64,
                    instr_start_addr + 4 * k == pc_addr,
                ),
        decreases instructions@.len() - i,
    {
        let instr = instructions[i];
        let mut s = String::from_str(if instr_addr == pc_addr { "→" } else { " " });
        push_text(&mut s, " 0x");
        push_digits_pad(&mut s, instr_addr, 16, 8);
        push_text(&mut s, " | 0x");
        push_digits_pad(&mut s, instr as u64, 16, 8);
        push_text(&mut s, " | ");
        let d = disasm(instr, instr_addr);
        s.append(d.as_str());
        v.push(s);
        instr_addr = instr_addr + 4;
        i = i + 1;
    }
    v
}

} // verus!
