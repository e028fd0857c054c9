//! Disassembler of RV64I instructions, and text forms of numbers used next to it.
use crate::alu::{wrap64, Imm, I12, I13, I21};
use crate::bits::{bit_set, field, BitOps};
use crate::csr::{MHARTID, MSCRATCH, MTVEC};
use crate::rv64i_cpu::{low16, low_half};
use crate::rv64i_dec::{
    decode_instr, lemma_fields_in_range, spec_decode, Opcode, F3_BRANCH_BEQ, F3_BRANCH_BGE,
    F3_BRANCH_BGEU, F3_BRANCH_BLT, F3_BRANCH_BLTU, F3_BRANCH_BNE, F3_OP_ADD_SUB, F3_OP_AMO_WORD,
    F3_OP_FENCE, F3_OP_FENCE_I, F3_OP_IMM_ADDI, F3_OP_IMM_ANDI, F3_OP_IMM_SLLI, F3_OP_IMM_SLTIU,
    F3_OP_IMM_XORI, F3_OP_LOAD_LB, F3_OP_LOAD_LBU, F3_OP_LOAD_LD, F3_OP_LOAD_LW, F3_OP_LOAD_LWU,
    F3_OP_STORE_SB, F3_OP_STORE_SD, F3_OP_STORE_SW, F3_SYSTEM_CSRRS, F3_SYSTEM_CSRRW,
    F3_SYSTEM_CSRRWI, F3_SYSTEM_WFI, F5_OP_AMO_ADD, F5_OP_AMO_LRW, F5_OP_AMO_SWAP, F7_OP_ADD,
    F7_OP_SUB,
};
use crate::rvc_dec::{instr_is_rvc, is_rvc};
use crate::rvc_disasm::{
    disasm_rvc, disasm_rvc_get_used_regs, disasm_rvc_operation_name, disasm_rvc_pseudo_code,
    hex16, rvc_asm, rvc_operation_name, rvc_pseudo_code, rvc_used_regs,
};
use crate::text::{
    bin_str, dec_str, hex_str, pad0, plus_dec, push_bin, push_char, push_dec, push_digits_pad,
    push_hex, push_plus, push_reg, push_signed, push_text, reg_name, signed_dec,
};
use vstd::prelude::*;
use vstd::string::{StrSliceExecFns, StringExecFns};

verus! {

/// The name of a CSR, as the disassembler writes it.
pub open spec fn csr_text(csr: u16) -> Seq<char> {
    if csr == MTVEC {
        "mtvec"@
    } else if csr == MHARTID {
        "mhartid"@
    } else if csr == MSCRATCH {
        "mscratch"@
    } else {
        "UKNOWN"@
    }
}

/// The name of a CSR.
pub fn csr_name(csr: u16) -> (r: &'static str)
    ensures
        r@ == csr_text(csr),
{
    if csr == MTVEC {
        "mtvec"
    } else if csr == MHARTID {
        "mhartid"
    } else if csr == MSCRATCH {
        "mscratch"
    } else {
        "UKNOWN"
    }
}

/// The ABI name of register `r`.
pub open spec fn abi_name(r: u8) -> Seq<char> {
    if r == 0 {
        "zero"@
    } else if r == 1 {
        "ra"@
    } else if r == 2 {
        "sp"@
    } else if r == 3 {
        "gp"@
    } else if r == 4 {
        "tp"@
    } else if r == 5 {
        "t0"@
    } else if r == 6 {
        "t1"@
    } else if r == 7 {
        "t2"@
    } else if r == 8 {
        "s0"@
    } else if r == 9 {
        "s1"@
    } else if r == 10 {
        "a0"@
    } else if r == 11 {
        "a1"@
    } else if r == 12 {
        "a2"@
    } else if r == 13 {
        "a3"@
    } else if r == 14 {
        "a4"@
    } else if r == 15 {
        "a5"@
    } else if r == 16 {
        "a6"@
    } else if r == 17 {
        "a7"@
    } else if r == 18 {
        "s2"@
    } else if r == 19 {
        "s3"@
    } else if r == 20 {
        "s4"@
    } else if r == 21 {
        "s5"@
    } else if r == 22 {
        "s6"@
    } else if r == 23 {
        "s7"@
    } else if r == 24 {
        "s8"@
    } else if r == 25 {
        "s9"@
    } else if r == 26 {
        "s10"@
    } else if r == 27 {
        "s11"@
    } else if r == 28 {
        "t3"@
    } else if r == 29 {
        "t4"@
    } else if r == 30 {
        "t5"@
    } else {
        "t6"@
    }
}

/// The ABI name of register `r` (0 - 31).
pub fn reg_idx2abi(r: u8) -> (n: &'static str)
    requires
        r < 32,
    ensures
        n@ == abi_name(r),
{
    if r == 0 {
        "zero"
    } else if r == 1 {
        "ra"
    } else if r == 2 {
        "sp"
    } else if r == 3 {
        "gp"
    } else if r == 4 {
        "tp"
    } else if r == 5 {
        "t0"
    } else if r == 6 {
        "t1"
    } else if r == 7 {
        "t2"
    } else if r == 8 {
        "s0"
    } else if r == 9 {
        "s1"
    } else if r == 10 {
        "a0"
    } else if r == 11 {
        "a1"
    } else if r == 12 {
        "a2"
    } else if r == 13 {
        "a3"
    } else if r == 14 {
        "a4"
    } else if r == 15 {
        "a5"
    } else if r == 16 {
        "a6"
    } else if r == 17 {
        "a7"
    } else if r == 18 {
        "s2"
    } else if r == 19 {
        "s3"
    } else if r == 20 {
        "s4"
    } else if r == 21 {
        "s5"
    } else if r == 22 {
        "s6"
    } else if r == 23 {
        "s7"
    } else if r == 24 {
        "s8"
    } else if r == 25 {
        "s9"
    } else if r == 26 {
        "s10"
    } else if r == 27 {
        "s11"
    } else if r == 28 {
        "t3"
    } else if r == 29 {
        "t4"
    } else if r == 30 {
        "t5"
    } else {
        "t6"
    }
}

/// Bits `hi..=lo` of `v` as 4 binary digits.
pub open spec fn bin4(v: nat, hi: nat, lo: nat) -> Seq<char> {
    pad0(bin_str(field(v, hi, lo)), 4)
}

/// Bits `hi..=lo` of `v` as 4 hexadecimal digits.
pub open spec fn hex4(v: nat, hi: nat, lo: nat) -> Seq<char> {
    pad0(hex_str(field(v, hi, lo)), 4)
}

/// A 32-bit word in binary, in groups of 4 bits separated by `_`.
pub open spec fn u32_bin4_text(v: u32) -> Seq<char> {
    let n = v as nat;
    bin4(n, 31, 28) + seq!['_'] + bin4(n, 27, 24) + seq!['_'] + bin4(n, 23, 20) + seq!['_']
        + bin4(n, 19, 16) + seq!['_'] + bin4(n, 15, 12) + seq!['_'] + bin4(n, 11, 8) + seq!['_']
        + bin4(n, 7, 4) + seq!['_'] + bin4(n, 3, 0)
}

/// A 16-bit word in binary, in groups of 4 bits separated by `_`.
pub open spec fn u16_bin4_text(v: u16) -> Seq<char> {
    let n = v as nat;
    bin4(n, 15, 12) + seq!['_'] + bin4(n, 11, 8) + seq!['_'] + bin4(n, 7, 4) + seq!['_'] + bin4(
        n,
        3,
        0,
    )
}

/// A 32-bit word in hexadecimal, as two groups of 4 digits separated by `_`.
pub open spec fn u32_hex4_text(v: u32) -> Seq<char> {
    hex4(v as nat, 31, 16) + seq!['_'] + hex4(v as nat, 15, 0)
}

/// A 64-bit word in hexadecimal, as four groups of 4 digits separated by `_`.
pub open spec fn u64_hex4_text(v: u64) -> Seq<char> {
    let n = v as nat;
    hex4(n, 63, 48) + seq!['_'] + hex4(n, 47, 32) + seq!['_'] + hex4(n, 31, 16) + seq!['_'] + hex4(
        n,
        15,
        0,
    )
}

/// Appends bits `end..=start` of `v` (a field of at most 16 bits) as `width` padded digits in
/// base `base`.
pub fn push_field(s: &mut String, v: u64, end: u32, start: u32, base: u64, width: usize)
    requires
        start <= end < 64,
        2 <= base <= 16,
    ensures
        final(s)@ == old(s)@ + pad0(
            crate::text::digits(field(v as nat, end as nat, start as nat), base as nat),
            width as nat,
        ),
{
    let f = v.bits(end, start);
    push_digits_pad(s, f, base, width);
}

/// Converts u32 to binary string, e.g. 0x_1234_abcd to "0001_0010_0011_0100_1010_1011_1100_1101".
pub fn u32_bin4(v: u32) -> (r: String)
    ensures
        r@ == u32_bin4_text(v),
{
    let w = v as u64;
    let mut s = String::new();
    push_field(&mut s, w, 31, 28, 2, 4);
    push_char(&mut s, '_');
    push_field(&mut s, w, 27, 24, 2, 4);
    push_char(&mut s, '_');
    push_field(&mut s, w, 23, 20, 2, 4);
    push_char(&mut s, '_');
    push_field(&mut s, w, 19, 16, 2, 4);
    push_char(&mut s, '_');
    push_field(&mut s, w, 15, 12, 2, 4);
    push_char(&mut s, '_');
    push_field(&mut s, w, 11, 8, 2, 4);
    push_char(&mut s, '_');
    push_field(&mut s, w, 7, 4, 2, 4);
    push_char(&mut s, '_');
    push_field(&mut s, w, 3, 0, 2, 4);
    assert(s@ =~= u32_bin4_text(v));
    s
}

/// Converts u16 to binary string, e.g. 0x_abcd to "1010_1011_1100_1101".
pub fn u16_bin4(v: u16) -> (r: String)
    ensures
        r@ == u16_bin4_text(v),
{
    let w = v as u64;
    let mut s = String::new();
    push_field(&mut s, w, 15, 12, 2, 4);
    push_char(&mut s, '_');
    push_field(&mut s, w, 11, 8, 2, 4);
    push_char(&mut s, '_');
    push_field(&mut s, w, 7, 4, 2, 4);
    push_char(&mut s, '_');
    push_field(&mut s, w, 3, 0, 2, 4);
    assert(s@ =~= u16_bin4_text(v));
    s
}

/// An instruction in binary: 16 bits for a compressed one, 32 bits otherwise.
pub fn instr_bin4(instr: u32) -> (r: String)
    ensures
        r@ == if is_rvc(instr) {
            u16_bin4_text(low16(instr))
        } else {
            u32_bin4_text(instr)
        },
{
    if instr_is_rvc(instr) {
        let c = low_half(instr);
        u16_bin4(c)
    } else {
        u32_bin4(instr)
    }
}

/// A 32-bit word as "xxxx_xxxx" in hexadecimal.
pub fn u32_hex4(v: u32) -> (r: String)
    ensures
        r@ == u32_hex4_text(v),
{
    let w = v as u64;
    let mut s = String::new();
    push_field(&mut s, w, 31, 16, 16, 4);
    push_char(&mut s, '_');
    push_field(&mut s, w, 15, 0, 16, 4);
    assert(s@ =~= u32_hex4_text(v));
    s
}

/// A 64-bit word as "xxxx_xxxx_xxxx_xxxx" in hexadecimal.
pub fn u64_hex4(v: u64) -> (r: String)
    ensures
        r@ == u64_hex4_text(v),
{
    let mut s = String::new();
    push_field(&mut s, v, 63, 48, 16, 4);
    push_char(&mut s, '_');
    push_field(&mut s, v, 47, 32, 16, 4);
    push_char(&mut s, '_');
    push_field(&mut s, v, 31, 16, 16, 4);
    push_char(&mut s, '_');
    push_field(&mut s, v, 15, 0, 16, 4);
    assert(s@ =~= u64_hex4_text(v));
    s
}

/// A register value as "xxxx_xxxx_xxxx_xxxx" in hexadecimal.
pub fn reg_hex(v: u64) -> (r: String)
    ensures
        r@ == u64_hex4_text(v),
{
    u64_hex4(v)
}

/// An instruction in hexadecimal: 4 digits for a compressed one, "xxxx_xxxx" otherwise.
pub fn instr_hex(instr: u32) -> (r: String)
    ensures
        r@ == if is_rvc(instr) {
            pad0(hex_str(low16(instr) as nat), 4)
        } else {
            u32_hex4_text(instr)
        },
{
    if instr_is_rvc(instr) {
        let c = low_half(instr);
        let mut s = String::new();
        push_digits_pad(&mut s, c as u64, 16, 4);
        assert(s@ =~= pad0(hex_str(low16(instr) as nat), 4));
        s
    } else {
        u32_hex4(instr)
    }
}

/// The name of the operation of a 32-bit instruction.
pub open spec fn rv64i_operation_name(instr: u32) -> Seq<char> {
    match spec_decode(instr) {
        Opcode::LUI { .. } => "Load Upper Immediate"@,
        Opcode::Auipc { .. } => "Add Upper Immediate to PC"@,
        Opcode::Branch { funct3, .. } => if funct3 == F3_BRANCH_BNE {
            "Branch Not Equal"@
        } else if funct3 == F3_BRANCH_BEQ {
            "Branch EQual"@
        } else if funct3 == F3_BRANCH_BGE {
            "Branch if Greater or Equal (Signed comparison)"@
        } else if funct3 == F3_BRANCH_BGEU {
            "Branch if Greater or Equal (Unsigned comparison)"@
        } else if funct3 == F3_BRANCH_BLT {
            "Branch Less Than (signed comparison)"@
        } else if funct3 == F3_BRANCH_BLTU {
            "Branch Less Than (Unsgined comparison)"@
        } else {
            "Unknown BRANCH opcode"@
        },
        Opcode::Jal { .. } => "Jump And Link"@,
        Opcode::Jalr { .. } => "Jump And Link Register"@,
        Opcode::Load { funct3, .. } => if funct3 == F3_OP_LOAD_LB {
            "Load Byte (sign extend)"@
        } else if funct3 == F3_OP_LOAD_LBU {
            "Load Byte Unsigned"@
        } else if funct3 == F3_OP_LOAD_LW {
            "Load Word (sign extend)"@
        } else if funct3 == F3_OP_LOAD_LWU {
            "Load Word Unsigned"@
        } else if funct3 == F3_OP_LOAD_LD {
            "Load Double Word"@
        } else {
            "Unknown LOAD opcode"@
        },
        Opcode::Store { funct3, .. } => if funct3 == F3_OP_STORE_SB {
            "Store Byte"@
        } else if funct3 == F3_OP_STORE_SW {
            "Store Word"@
        } else if funct3 == F3_OP_STORE_SD {
            "Store Double Word"@
        } else {
            "Unknown STORE opcode"@
        },
        Opcode::OpImm { funct3, .. } => if funct3 == F3_OP_IMM_ADDI {
            "ADD Immediate"@
        } else if funct3 == F3_OP_IMM_SLTIU {
            "Set Less Than Immediate Unsigned"@
        } else if funct3 == F3_OP_IMM_XORI {
            "XOR Immediate"@
        } else if funct3 == F3_OP_IMM_ANDI {
            "AND Immediate"@
        } else if funct3 == F3_OP_IMM_SLLI {
            "Shift Left Logical Immediate"@
        } else {
            "Unknown OP-IMM opcode"@
        },
        Opcode::ADDIW { .. } => "ADD Word Immediate"@,
        Opcode::SLLIW { .. } => "Shift Left Logical Immediate Word"@,
        Opcode::SRLIW { .. } => "Shift Right Logical Immediate Word"@,
        Opcode::Op { funct7, funct3, .. } => if funct7 == F7_OP_ADD && funct3 == F3_OP_ADD_SUB {
            "Add register to register"@
        } else if funct7 == F7_OP_SUB && funct3 == F3_OP_ADD_SUB {
            "Subtract register from regiser"@
        } else {
            "Unknown OP instruction: funct7: "@ + hex_str(funct7 as nat) + ", funct3: "@ + hex_str(
                funct3 as nat,
            )
        },
        Opcode::SUBW { .. } => "Subtract Word"@,
        Opcode::Amo { funct5, funct3, .. } => if funct5 == F5_OP_AMO_SWAP && funct3
            == F3_OP_AMO_WORD {
            "Atomic swap"@
        } else if funct5 == F5_OP_AMO_ADD && funct3 == F3_OP_AMO_WORD {
            "Atomic Add"@
        } else if funct5 == F5_OP_AMO_LRW && funct3 == F3_OP_AMO_WORD {
            "Load Reserve Word"@
        } else {
            "Unknown AMO instruction: funct5: "@ + hex_str(funct5 as nat) + ", funct3: "@ + hex_str(
                funct3 as nat,
            )
        },
        Opcode::Fence { funct3, .. } => if funct3 == F3_OP_FENCE {
            "Fence - sync memory access order"@
        } else if funct3 == F3_OP_FENCE_I {
            "Sync I-cache with D-cache"@
        } else {
            "Unknown FENCE instruction: funct3: 0b_"@ + bin_str(funct3 as nat)
        },
        Opcode::System { funct3, .. } => if funct3 == F3_SYSTEM_WFI {
            "Wait For Interrupt"@
        } else if funct3 == F3_SYSTEM_CSRRS {
            "Control Status Register - Read, Set bitmask"@
        } else if funct3 == F3_SYSTEM_CSRRWI {
            "Control Status Register - Read, Write Immediate"@
        } else if funct3 == F3_SYSTEM_CSRRW {
            "Control Status Register - Read, Write"@
        } else {
            "Unknown SYSTEM opcode"@
        },
        Opcode::Uknown => "Unknown Operation"@,
    }
}

/// The name of the operation of an instruction (compressed or not).
pub open spec fn operation_name(instr: u32) -> Seq<char> {
    if is_rvc(instr) {
        rvc_operation_name(low16(instr))
    } else {
        rv64i_operation_name(instr)
    }
}

/// `<head>a<mid>b`, with two hexadecimal numbers.
fn two_hex_string(head: &str, a: u64, mid: &str, b: u64) -> (s: String)
    ensures
        s@ == head@ + hex_str(a as nat) + mid@ + hex_str(b as nat),
{
    let mut s = String::from_str(head);
    push_hex(&mut s, a);
    push_text(&mut s, mid);
    push_hex(&mut s, b);
    s
}

/// The name of the operation of an instruction (compressed or not).
#[verifier::spinoff_prover]
pub fn disasm_operation_name(instr: u32) -> (r: String)
    ensures
        r@ == operation_name(instr),
{
    if instr_is_rvc(instr) {
        let c = low_half(instr);
        return disasm_rvc_operation_name(c);
    }
    let t = match decode_instr(instr) {
        Opcode::LUI { .. } => "Load Upper Immediate",
        Opcode::Auipc { .. } => "Add Upper Immediate to PC",
        Opcode::Branch { funct3, .. } => if funct3 == F3_BRANCH_BNE {
            "Branch Not Equal"
        } else if funct3 == F3_BRANCH_BEQ {
            "Branch EQual"
        } else if funct3 == F3_BRANCH_BGE {
            "Branch if Greater or Equal (Signed comparison)"
        } else if funct3 == F3_BRANCH_BGEU {
            "Branch if Greater or Equal (Unsigned comparison)"
        } else if funct3 == F3_BRANCH_BLT {
            "Branch Less Than (signed comparison)"
        } else if funct3 == F3_BRANCH_BLTU {
            "Branch Less Than (Unsgined comparison)"
        } else {
            "Unknown BRANCH opcode"
        },
        Opcode::Jal { .. } => "Jump And Link",
        Opcode::Jalr { .. } => "Jump And Link Register",
        Opcode::Load { funct3, .. } => if funct3 == F3_OP_LOAD_LB {
            "Load Byte (sign extend)"
        } else if funct3 == F3_OP_LOAD_LBU {
            "Load Byte Unsigned"
        } else if funct3 == F3_OP_LOAD_LW {
            "Load Word (sign extend)"
        } else if funct3 == F3_OP_LOAD_LWU {
            "Load Word Unsigned"
        } else if funct3 == F3_OP_LOAD_LD {
            "Load Double Word"
        } else {
            "Unknown LOAD opcode"
        },
        Opcode::Store { funct3, .. } => if funct3 == F3_OP_STORE_SB {
            "Store Byte"
        } else if funct3 == F3_OP_STORE_SW {
            "Store Word"
        } else if funct3 == F3_OP_STORE_SD {
            "Store Double Word"
        } else {
            "Unknown STORE opcode"
        },
        Opcode::OpImm { funct3, .. } => if funct3 == F3_OP_IMM_ADDI {
            "ADD Immediate"
        } else if funct3 == F3_OP_IMM_SLTIU {
            "Set Less Than Immediate Unsigned"
        } else if funct3 == F3_OP_IMM_XORI {
            "XOR Immediate"
        } else if funct3 == F3_OP_IMM_ANDI {
            "AND Immediate"
        } else if funct3 == F3_OP_IMM_SLLI {
            "Shift Left Logical Immediate"
        } else {
            "Unknown OP-IMM opcode"
        },
        Opcode::ADDIW { .. } => "ADD Word Immediate",
        Opcode::SLLIW { .. } => "Shift Left Logical Immediate Word",
        Opcode::SRLIW { .. } => "Shift Right Logical Immediate Word",
        Opcode::Op { funct7, funct3, .. } => if funct7 == F7_OP_ADD && funct3 == F3_OP_ADD_SUB {
            "Add register to register"
        } else if funct7 == F7_OP_SUB && funct3 == F3_OP_ADD_SUB {
            "Subtract register from regiser"
        } else {
            return two_hex_string(
                "Unknown OP instruction: funct7: ",
                funct7 as u64,
                ", funct3: ",
                funct3 as u64,
            );
        },
        Opcode::SUBW { .. } => "Subtract Word",
        Opcode::Amo { funct5, funct3, .. } => if funct5 == F5_OP_AMO_SWAP && funct3
            == F3_OP_AMO_WORD {
            "Atomic swap"
        } else if funct5 == F5_OP_AMO_ADD && funct3 == F3_OP_AMO_WORD {
            "Atomic Add"
        } else if funct5 == F5_OP_AMO_LRW && funct3 == F3_OP_AMO_WORD {
            "Load Reserve Word"
        } else {
            return two_hex_string(
                "Unknown AMO instruction: funct5: ",
                funct5 as u64,
                ", funct3: ",
                funct3 as u64,
            );
        },
        Opcode::Fence { funct3, .. } => if funct3 == F3_OP_FENCE {
            "Fence - sync memory access order"
        } else if funct3 == F3_OP_FENCE_I {
            "Sync I-cache with D-cache"
        } else {
            let mut s = String::from_str("Unknown FENCE instruction: funct3: 0b_");
            push_bin(&mut s, funct3 as u64);
            return s;
        },
        Opcode::System { funct3, .. } => if funct3 == F3_SYSTEM_WFI {
            "Wait For Interrupt"
        } else if funct3 == F3_SYSTEM_CSRRS {
            "Control Status Register - Read, Set bitmask"
        } else if funct3 == F3_SYSTEM_CSRRWI {
            "Control Status Register - Read, Write Immediate"
        } else if funct3 == F3_SYSTEM_CSRRW {
            "Control Status Register - Read, Write"
        } else {
            "Unknown SYSTEM opcode"
        },
        Opcode::Uknown => "Unknown Operation",
    };
    String::from_str(t)
}

/// The registers a 32-bit instruction reads and writes: (rs1, rs2, rd).
pub open spec fn rv64i_used_regs(instr: u32) -> (Option<u8>, Option<u8>, Option<u8>) {
    match spec_decode(instr) {
        Opcode::LUI { rd, .. } => (None, None, Some(rd)),
        Opcode::Auipc { rd, .. } => (None, None, Some(rd)),
        Opcode::Branch { rs2, rs1, .. } => (Some(rs1), Some(rs2), None),
        Opcode::Jal { rd, .. } => (None, None, Some(rd)),
        Opcode::Jalr { rs1, rd, .. } => (Some(rs1), None, Some(rd)),
        Opcode::Load { rs1, rd, .. } => (Some(rs1), None, Some(rd)),
        Opcode::Store { rs2, rs1, .. } => (Some(rs1), Some(rs2), None),
        Opcode::OpImm { rs1, rd, .. } => (Some(rs1), None, Some(rd)),
        Opcode::ADDIW { rs1, rd, .. } => (Some(rs1), None, Some(rd)),
        Opcode::SLLIW { rs1, rd, .. } => (Some(rs1), None, Some(rd)),
        Opcode::SRLIW { rs1, rd, .. } => (Some(rs1), None, Some(rd)),
        Opcode::SUBW { rs2, rs1, rd } => (Some(rs1), Some(rs2), Some(rd)),
        Opcode::Op { rs2, rs1, rd, .. } => (Some(rs1), Some(rs2), Some(rd)),
        Opcode::Amo { rs2, rs1, rd, .. } => (Some(rs1), Some(rs2), Some(rd)),
        Opcode::System { rs1, rd, funct3, .. } => if funct3 == F3_SYSTEM_WFI {
            (None, None, None)
        } else {
            (Some(rs1), None, Some(rd))
        },
        Opcode::Fence { .. } => (None, None, None),
        Opcode::Uknown => (None, None, None),
    }
}

/// The registers an instruction (compressed or not) reads and writes: (rs1, rs2, rd).
pub fn disasm_get_used_regs(instr: u32) -> (r: (Option<u8>, Option<u8>, Option<u8>))
    ensures
        r == if is_rvc(instr) {
            rvc_used_regs(low16(instr))
        } else {
            rv64i_used_regs(instr)
        },
{
    if instr_is_rvc(instr) {
        let c = low_half(instr);
        return disasm_rvc_get_used_regs(c);
    }
    match decode_instr(instr) {
        Opcode::LUI { rd, .. } => (None, None, Some(rd)),
        Opcode::Auipc { rd, .. } => (None, None, Some(rd)),
        Opcode::Branch { rs2, rs1, .. } => (Some(rs1), Some(rs2), None),
        Opcode::Jal { rd, .. } => (None, None, Some(rd)),
        Opcode::Jalr { rs1, rd, .. } => (Some(rs1), None, Some(rd)),
        Opcode::Load { rs1, rd, .. } => (Some(rs1), None, Some(rd)),
        Opcode::Store { rs2, rs1, .. } => (Some(rs1), Some(rs2), None),
        Opcode::OpImm { rs1, rd, .. } => (Some(rs1), None, Some(rd)),
        Opcode::ADDIW { rs1, rd, .. } => (Some(rs1), None, Some(rd)),
        Opcode::SLLIW { rs1, rd, .. } => (Some(rs1), None, Some(rd)),
        Opcode::SRLIW { rs1, rd, .. } => (Some(rs1), None, Some(rd)),
        Opcode::SUBW { rs2, rs1, rd } => (Some(rs1), Some(rs2), Some(rd)),
        Opcode::Op { rs2, rs1, rd, .. } => (Some(rs1), Some(rs2), Some(rd)),
        Opcode::Amo { rs2, rs1, rd, .. } => (Some(rs1), Some(rs2), Some(rd)),
        Opcode::System { rs1, rd, funct3, .. } => if funct3 == F3_SYSTEM_WFI {
            (None, None, None)
        } else {
            (Some(rs1), None, Some(rd))
        },
        Opcode::Fence { .. } => (None, None, None),
        Opcode::Uknown => (None, None, None),
    }
}

/// `<m>rd, rs1, 0x<v>`.
pub open spec fn rri_hex(m: Seq<char>, rd: u8, rs1: u8, v: nat) -> Seq<char> {
    m + reg_name(rd) + ", "@ + reg_name(rs1) + ", 0x"@ + hex_str(v)
}

/// `<m>rd, rs1, <imm>` with the immediate in decimal.
pub open spec fn rri_dec(m: Seq<char>, rd: u8, rs1: u8, imm: int) -> Seq<char> {
    m + reg_name(rd) + ", "@ + reg_name(rs1) + ", "@ + signed_dec(imm)
}

/// `<m>rd, rs1, rs2`.
pub open spec fn rrr(m: Seq<char>, rd: u8, rs1: u8, rs2: u8) -> Seq<char> {
    m + reg_name(rd) + ", "@ + reg_name(rs1) + ", "@ + reg_name(rs2)
}

/// `<m>r, <imm>(rs1)` with the immediate in decimal.
pub open spec fn ri_mem(m: Seq<char>, r: u8, imm: int, rs1: u8) -> Seq<char> {
    m + reg_name(r) + ", "@ + signed_dec(imm) + "("@ + reg_name(rs1) + ")"@
}

/// The mnemonic of a branch, with its trailing space.
pub open spec fn branch_mnemonic(funct3: u8) -> Seq<char> {
    if funct3 == F3_BRANCH_BNE {
        "bne "@
    } else if funct3 == F3_BRANCH_BEQ {
        "beq "@
    } else if funct3 == F3_BRANCH_BLT {
        "blt "@
    } else if funct3 == F3_BRANCH_BLTU {
        "bltu "@
    } else if funct3 == F3_BRANCH_BGE {
        "bge "@
    } else {
        "bgeu "@
    }
}

/// Whether `funct3` names a branch.
pub open spec fn is_branch_funct3(funct3: u8) -> bool {
    funct3 == F3_BRANCH_BNE || funct3 == F3_BRANCH_BEQ || funct3 == F3_BRANCH_BLT || funct3
        == F3_BRANCH_BLTU || funct3 == F3_BRANCH_BGE || funct3 == F3_BRANCH_BGEU
}

/// `.aq` and `.rl` suffixes of an AMO mnemonic.
pub open spec fn aq_rl(aq: bool, rl: bool) -> Seq<char> {
    (if aq {
        ".aq"@
    } else {
        ""@
    }) + (if rl {
        ".rl"@
    } else {
        ""@
    })
}

/// The `i`, `o`, `r`, `w` flags of bits `top..=top - 3` of a FENCE immediate.
pub open spec fn fence_set(v: nat, top: nat) -> Seq<char> {
    (if bit_set(v, top) {
        "i"@
    } else {
        ""@
    }) + (if bit_set(v, (top - 1) as nat) {
        "o"@
    } else {
        ""@
    }) + (if bit_set(v, (top - 2) as nat) {
        "r"@
    } else {
        ""@
    }) + (if bit_set(v, (top - 3) as nat) {
        "w"@
    } else {
        ""@
    })
}

/// The fence mode suffix of a FENCE immediate.
pub open spec fn fence_mode(v: nat) -> Seq<char> {
    if field(v, 11, 8) == 0 {
        ""@
    } else if field(v, 11, 8) == 8 {
        ".TSO"@
    } else {
        ".UKNOWN"@
    }
}

/// Assembly text of a 32-bit instruction at `addr`.
pub open spec fn rv64i_asm(instr: u32, addr: u64) -> Seq<char> {
    match spec_decode(instr) {
        Opcode::LUI { uimm20, rd } => "lui "@ + reg_name(rd) + ", 0x"@ + hex_str(
            uimm20 as nat / 4096,
        ),
        Opcode::Auipc { uimm20, rd } => "auipc "@ + reg_name(rd) + ", 0x"@ + hex_str(
            uimm20 as nat,
        ),
        Opcode::Branch { off13, rs2, rs1, funct3 } => if is_branch_funct3(funct3) {
            branch_mnemonic(funct3) + reg_name(rs1) + ", "@ + reg_name(rs2) + ", 0x"@ + hex_str(
                wrap64(addr + off13.0) as nat,
            )
        } else {
            "Unknown BRANCH opcode"@
        },
        Opcode::Jal { imm21, rd } => "jal "@ + reg_name(rd) + ", 0x"@ + hex_str(
            wrap64(addr + imm21.0) as nat,
        ),
        Opcode::Jalr { imm12, rs1, rd } => "jalr "@ + reg_name(rd) + ", 0x"@ + hex16(imm12.0)
            + "("@ + reg_name(rs1) + ")"@,
        Opcode::Load { imm12, rs1, funct3, rd } => if funct3 == F3_OP_LOAD_LB {
            ri_mem("lb "@, rd, imm12.0 as int, rs1)
        } else if funct3 == F3_OP_LOAD_LBU {
            ri_mem("lbu "@, rd, imm12.0 as int, rs1)
        } else if funct3 == F3_OP_LOAD_LW {
            ri_mem("lw "@, rd, imm12.0 as int, rs1)
        } else if funct3 == F3_OP_LOAD_LWU {
            ri_mem("lwu "@, rd, imm12.0 as int, rs1)
        } else if funct3 == F3_OP_LOAD_LD {
            ri_mem("ld "@, rd, imm12.0 as int, rs1)
        } else {
            "Unknown LOAD opcode"@
        },
        Opcode::Store { imm12, rs2, rs1, funct3 } => if funct3 == F3_OP_STORE_SB {
            ri_mem("sb "@, rs2, imm12.0 as int, rs1)
        } else if funct3 == F3_OP_STORE_SW {
            ri_mem("sw "@, rs2, imm12.0 as int, rs1)
        } else if funct3 == F3_OP_STORE_SD {
            ri_mem("sd "@, rs2, imm12.0 as int, rs1)
        } else {
            "Unknown STORE opcode"@
        },
        Opcode::OpImm { imm12, rs1, funct3, rd } => if funct3 == F3_OP_IMM_ADDI {
            rri_hex("addi "@, rd, rs1, (imm12.0 as u16) as nat)
        } else if funct3 == F3_OP_IMM_SLTIU {
            rri_dec("sltiu "@, rd, rs1, imm12.0 as int)
        } else if funct3 == F3_OP_IMM_XORI {
            rri_dec("xori "@, rd, rs1, imm12.0 as int)
        } else if funct3 == F3_OP_IMM_ANDI {
            rri_dec("andi "@, rd, rs1, imm12.0 as int)
        } else if funct3 == F3_OP_IMM_SLLI {
            rri_hex("slli "@, rd, rs1, (imm12.0 as u16) as nat)
        } else {
            "Unknown OP-IMM opcode"@
        },
        Opcode::ADDIW { imm12, rs1, rd } => rri_hex("addiw "@, rd, rs1, (imm12.0 as u16) as nat),
        Opcode::SLLIW { shamt, rs1, rd } => rri_hex("slliw "@, rd, rs1, shamt as nat),
        Opcode::SRLIW { shamt, rs1, rd } => rri_hex("srliw "@, rd, rs1, shamt as nat),
        Opcode::Op { funct7, rs2, rs1, funct3, rd } => if funct7 == F7_OP_ADD && funct3
            == F3_OP_ADD_SUB {
            rrr("add "@, rd, rs1, rs2)
        } else if funct7 == F7_OP_SUB && funct3 == F3_OP_ADD_SUB {
            rrr("sub "@, rd, rs1, rs2)
        } else {
            "Unknown OP instruction: funct7: "@ + hex_str(funct7 as nat) + ", funct3: "@ + hex_str(
                funct3 as nat,
            )
        },
        Opcode::SUBW { rs2, rs1, rd } => rrr("subw "@, rd, rs1, rs2),
        Opcode::Amo { funct5, rs2, rs1, funct3, rd, aq, rl } => if funct5 == F5_OP_AMO_SWAP
            && funct3 == F3_OP_AMO_WORD {
            rrr("amoswap.w"@ + aq_rl(aq, rl) + " "@, rd, rs2, rs1)
        } else if funct5 == F5_OP_AMO_ADD && funct3 == F3_OP_AMO_WORD {
            rrr("amoadd.w"@ + aq_rl(aq, rl) + " "@, rd, rs2, rs1)
        } else if funct5 == F5_OP_AMO_LRW && funct3 == F3_OP_AMO_WORD {
            "lr.w "@ + reg_name(rd) + ", ("@ + reg_name(rs1) + ")"@
        } else {
            "Uknown AMO instruction: funct5: "@ + hex_str(funct5 as nat) + ", funct3: "@ + hex_str(
                funct3 as nat,
            )
        },
        Opcode::System { csr, rs1, funct3, rd } => if funct3 == F3_SYSTEM_WFI {
            "wfi"@
        } else if funct3 == F3_SYSTEM_CSRRS {
            "csrrs "@ + reg_name(rd) + ", "@ + csr_text(csr) + ", "@ + reg_name(rs1)
        } else if funct3 == F3_SYSTEM_CSRRWI {
            "csrrwi "@ + reg_name(rd) + ", "@ + csr_text(csr) + ", "@ + hex_str(rs1 as nat)
        } else if funct3 == F3_SYSTEM_CSRRW {
            "csrrw "@ + reg_name(rd) + ", "@ + csr_text(csr) + ", "@ + reg_name(rs1)
        } else {
            "Unknown SYSTEM opcode"@
        },
        Opcode::Fence { imm12, funct3 } => if funct3 == F3_OP_FENCE {
            let v = (imm12.0 as u16) as nat;
            "fence"@ + fence_mode(v) + " "@ + fence_set(v, 7) + ", "@ + fence_set(v, 3)
        } else if funct3 == F3_OP_FENCE_I {
            "fence.i 0x"@ + hex16(imm12.0)
        } else {
            "Unknown FENCE instruction"@
        },
        Opcode::Uknown => "Unknown instruction"@,
    }
}

/// Assembly text of an instruction (compressed or not) at `addr`.
pub open spec fn asm_text(instr: u32, addr: u64) -> Seq<char> {
    if is_rvc(instr) {
        rvc_asm(low16(instr), addr)
    } else {
        rv64i_asm(instr, addr)
    }
}

fn rri_hex_string(m: &str, rd: u8, rs1: u8, v: u64) -> (s: String)
    ensures
        s@ == rri_hex(m@, rd, rs1, v as nat),
{
    let mut s = String::from_str(m);
    push_reg(&mut s, rd);
    push_text(&mut s, ", ");
    push_reg(&mut s, rs1);
    push_text(&mut s, ", 0x");
    push_hex(&mut s, v);
    s
}

fn rri_dec_string(m: &str, rd: u8, rs1: u8, imm: i16) -> (s: String)
    ensures
        s@ == rri_dec(m@, rd, rs1, imm as int),
{
    let mut s = String::from_str(m);
    push_reg(&mut s, rd);
    push_text(&mut s, ", ");
    push_reg(&mut s, rs1);
    push_text(&mut s, ", ");
    push_signed(&mut s, imm as i64);
    s
}

fn rrr_string(mut s: String, rd: u8, rs1: u8, rs2: u8) -> (r: String)
    ensures
        r@ == rrr(s@, rd, rs1, rs2),
{
    push_reg(&mut s, rd);
    push_text(&mut s, ", ");
    push_reg(&mut s, rs1);
    push_text(&mut s, ", ");
    push_reg(&mut s, rs2);
    s
}

fn ri_mem_string(m: &str, r: u8, imm: i16, rs1: u8) -> (s: String)
    ensures
        s@ == ri_mem(m@, r, imm as int, rs1),
{
    let mut s = String::from_str(m);
    push_reg(&mut s, r);
    push_text(&mut s, ", ");
    push_signed(&mut s, imm as i64);
    push_text(&mut s, "(");
    push_reg(&mut s, rs1);
    push_text(&mut s, ")");
    s
}

/// Appends the `i`, `o`, `r`, `w` flags of bits `top..=top - 3` of `imm`.
fn push_fence_set(s: &mut String, imm: i16, top: u32)
    requires
        3 <= top < 16,
    ensures
        final(s)@ == old(s)@ + fence_set((imm as u16) as nat, top as nat),
{
    push_text(s, if imm.bit(top) { "i" } else { "" });
    push_text(s, if imm.bit(top - 1) { "o" } else { "" });
    push_text(s, if imm.bit(top - 2) { "r" } else { "" });
    push_text(s, if imm.bit(top - 3) { "w" } else { "" });
    assert(s@ =~= old(s)@ + fence_set((imm as u16) as nat, top as nat));
}

fn disasm_branch(off13: I13, rs2: u8, rs1: u8, funct3: u8, instr_addr: u64) -> (s: String)
    ensures
        s@ == if is_branch_funct3(funct3) {
            branch_mnemonic(funct3) + reg_name(rs1) + ", "@ + reg_name(rs2) + ", 0x"@ + hex_str(
                wrap64(instr_addr + off13.0) as nat,
            )
        } else {
            "Unknown BRANCH opcode"@
        },
{
    let m = if funct3 == F3_BRANCH_BNE {
        "bne "
    } else if funct3 == F3_BRANCH_BEQ {
        "beq "
    } else if funct3 == F3_BRANCH_BLT {
        "blt "
    } else if funct3 == F3_BRANCH_BLTU {
        "bltu "
    } else if funct3 == F3_BRANCH_BGE {
        "bge "
    } else if funct3 == F3_BRANCH_BGEU {
        "bgeu "
    } else {
        return String::from_str("Unknown BRANCH opcode");
    };
    let mut s = String::from_str(m);
    push_reg(&mut s, rs1);
    push_text(&mut s, ", ");
    push_reg(&mut s, rs2);
    push_text(&mut s, ", 0x");
    push_hex(&mut s, instr_addr.add_i13(off13));
    s
}

fn disasm_load(imm12: I12, rs1: u8, funct3: u8, rd: u8) -> (s: String)
    ensures
        s@ == if funct3 == F3_OP_LOAD_LB {
            ri_mem("lb "@, rd, imm12.0 as int, rs1)
        } else if funct3 == F3_OP_LOAD_LBU {
            ri_mem("lbu "@, rd, imm12.0 as int, rs1)
        } else if funct3 == F3_OP_LOAD_LW {
            ri_mem("lw "@, rd, imm12.0 as int, rs1)
        } else if funct3 == F3_OP_LOAD_LWU {
            ri_mem("lwu "@, rd, imm12.0 as int, rs1)
        } else if funct3 == F3_OP_LOAD_LD {
            ri_mem("ld "@, rd, imm12.0 as int, rs1)
        } else {
            "Unknown LOAD opcode"@
        },
{
    if funct3 == F3_OP_LOAD_LB {
        ri_mem_string("lb ", rd, imm12.0, rs1)
    } else if funct3 == F3_OP_LOAD_LBU {
        ri_mem_string("lbu ", rd, imm12.0, rs1)
    } else if funct3 == F3_OP_LOAD_LW {
        ri_mem_string("lw ", rd, imm12.0, rs1)
    } else if funct3 == F3_OP_LOAD_LWU {
        ri_mem_string("lwu ", rd, imm12.0, rs1)
    } else if funct3 == F3_OP_LOAD_LD {
        ri_mem_string("ld ", rd, imm12.0, rs1)
    } else {
        String::from_str("Unknown LOAD opcode")
    }
}

fn disasm_op_imm(imm12: I12, rs1: u8, funct3: u8, rd: u8) -> (s: String)
    ensures
        s@ == if funct3 == F3_OP_IMM_ADDI {
            rri_hex("addi "@, rd, rs1, (imm12.0 as u16) as nat)
        } else if funct3 == F3_OP_IMM_SLTIU {
            rri_dec("sltiu "@, rd, rs1, imm12.0 as int)
        } else if funct3 == F3_OP_IMM_XORI {
            rri_dec("xori "@, rd, rs1, imm12.0 as int)
        } else if funct3 == F3_OP_IMM_ANDI {
            rri_dec("andi "@, rd, rs1, imm12.0 as int)
        } else if funct3 == F3_OP_IMM_SLLI {
            rri_hex("slli "@, rd, rs1, (imm12.0 as u16) as nat)
        } else {
            "Unknown OP-IMM opcode"@
        },
{
    if funct3 == F3_OP_IMM_ADDI {
        rri_hex_string("addi ", rd, rs1, (imm12.0 as u16) as u64)
    } else if funct3 == F3_OP_IMM_SLTIU {
        rri_dec_string("sltiu ", rd, rs1, imm12.0)
    } else if funct3 == F3_OP_IMM_XORI {
        rri_dec_string("xori ", rd, rs1, imm12.0)
    } else if funct3 == F3_OP_IMM_ANDI {
        rri_dec_string("andi ", rd, rs1, imm12.0)
    } else if funct3 == F3_OP_IMM_SLLI {
        rri_hex_string("slli ", rd, rs1, (imm12.0 as u16) as u64)
    } else {
        String::from_str("Unknown OP-IMM opcode")
    }
}

fn disasm_amo(funct5: u8, rs2: u8, rs1: u8, funct3: u8, rd: u8, aq: bool, rl: bool) -> (s: String)
    ensures
        s@ == if funct5 == F5_OP_AMO_SWAP && funct3 == F3_OP_AMO_WORD {
            rrr("amoswap.w"@ + aq_rl(aq, rl) + " "@, rd, rs2, rs1)
        } else if funct5 == F5_OP_AMO_ADD && funct3 == F3_OP_AMO_WORD {
            rrr("amoadd.w"@ + aq_rl(aq, rl) + " "@, rd, rs2, rs1)
        } else if funct5 == F5_OP_AMO_LRW && funct3 == F3_OP_AMO_WORD {
            "lr.w "@ + reg_name(rd) + ", ("@ + reg_name(rs1) + ")"@
        } else {
            "Uknown AMO instruction: funct5: "@ + hex_str(funct5 as nat) + ", funct3: "@ + hex_str(
                funct3 as nat,
            )
        },
{
    if funct3 == F3_OP_AMO_WORD && (funct5 == F5_OP_AMO_SWAP || funct5 == F5_OP_AMO_ADD) {
        let mut m = String::from_str(if funct5 == F5_OP_AMO_SWAP {
            "amoswap.w"
        } else {
            "amoadd.w"
        });
        push_text(&mut m, if aq { ".aq" } else { "" });
        push_text(&mut m, if rl { ".rl" } else { "" });
        push_text(&mut m, " ");
        let ghost mv = m@;
        assert(mv =~= (if funct5 == F5_OP_AMO_SWAP {
            "amoswap.w"@
        } else {
            "amoadd.w"@
        }) + aq_rl(aq, rl) + " "@);
        rrr_string(m, rd, rs2, rs1)
    } else if funct5 == F5_OP_AMO_LRW && funct3 == F3_OP_AMO_WORD {
        let mut s = String::from_str("lr.w ");
        push_reg(&mut s, rd);
        push_text(&mut s, ", (");
        push_reg(&mut s, rs1);
        push_text(&mut s, ")");
        s
    } else {
        two_hex_string("Uknown AMO instruction: funct5: ", funct5 as u64, ", funct3: ", funct3 as u64)
    }
}

fn disasm_system(csr: u16, rs1: u8, funct3: u8, rd: u8) -> (s: String)
    ensures
        s@ == if funct3 == F3_SYSTEM_WFI {
            "wfi"@
        } else if funct3 == F3_SYSTEM_CSRRS {
            "csrrs "@ + reg_name(rd) + ", "@ + csr_text(csr) + ", "@ + reg_name(rs1)
        } else if funct3 == F3_SYSTEM_CSRRWI {
            "csrrwi "@ + reg_name(rd) + ", "@ + csr_text(csr) + ", "@ + hex_str(rs1 as nat)
        } else if funct3 == F3_SYSTEM_CSRRW {
            "csrrw "@ + reg_name(rd) + ", "@ + csr_text(csr) + ", "@ + reg_name(rs1)
        } else {
            "Unknown SYSTEM opcode"@
        },
{
    if funct3 == F3_SYSTEM_WFI {
        return String::from_str("wfi");
    }
    let m = if funct3 == F3_SYSTEM_CSRRS {
        "csrrs "
    } else if funct3 == F3_SYSTEM_CSRRWI {
        "csrrwi "
    } else if funct3 == F3_SYSTEM_CSRRW {
        "csrrw "
    } else {
        return String::from_str("Unknown SYSTEM opcode");
    };
    let mut s = String::from_str(m);
    push_reg(&mut s, rd);
    push_text(&mut s, ", ");
    push_text(&mut s, csr_name(csr));
    push_text(&mut s, ", ");
    if funct3 == F3_SYSTEM_CSRRWI {
        push_hex(&mut s, rs1 as u64);
    } else {
        push_reg(&mut s, rs1);
    }
    s
}

fn disasm_fence(imm12: I12, funct3: u8) -> (s: String)
    ensures
        s@ == if funct3 == F3_OP_FENCE {
            let v = (imm12.0 as u16) as nat;
            "fence"@ + fence_mode(v) + " "@ + fence_set(v, 7) + ", "@ + fence_set(v, 3)
        } else if funct3 == F3_OP_FENCE_I {
            "fence.i 0x"@ + hex16(imm12.0)
        } else {
            "Unknown FENCE instruction"@
        },
{
    if funct3 == F3_OP_FENCE {
        let u: u16 = imm12.0 as u16;
        let fm = u.bits(11, 8);
        let mut s = String::from_str("fence");
        push_text(
            &mut s,
            if fm == 0 {
                ""
            } else if fm == 8 {
                ".TSO"
            } else {
                ".UKNOWN"
            },
        );
        push_text(&mut s, " ");
        push_fence_set(&mut s, imm12.0, 7);
        push_text(&mut s, ", ");
        push_fence_set(&mut s, imm12.0, 3);
        s
    } else if funct3 == F3_OP_FENCE_I {
        let mut s = String::from_str("fence.i 0x");
        push_hex(&mut s, (imm12.0 as u16) as u64);
        s
    } else {
        String::from_str("Unknown FENCE instruction")
    }
}

/// Assembly text of an instruction (compressed or not) at `instr_addr`.
#[verifier::spinoff_prover]
pub fn disasm(instr: u32, instr_addr: u64) -> (r: String)
    ensures
        r@ == asm_text(instr, instr_addr),
{
    if instr_is_rvc(instr) {
        let c = low_half(instr);
        return disasm_rvc(c, instr_addr);
    }
    match decode_instr(instr) {
        Opcode::LUI { uimm20, rd } => {
            let mut s = String::from_str("lui ");
            push_reg(&mut s, rd);
            push_text(&mut s, ", 0x");
            push_hex(&mut s, (uimm20 / 4096) as u64);
            s
        },
        Opcode::Auipc { uimm20, rd } => {
            let mut s = String::from_str("auipc ");
            push_reg(&mut s, rd);
            push_text(&mut s, ", 0x");
            push_hex(&mut s, uimm20);
            s
        },
        Opcode::Branch { off13, rs2, rs1, funct3 } => disasm_branch(
            off13,
            rs2,
            rs1,
            funct3,
            instr_addr,
        ),
        Opcode::Jal { imm21, rd } => {
            let mut s = String::from_str("jal ");
            push_reg(&mut s, rd);
            push_text(&mut s, ", 0x");
            push_hex(&mut s, instr_addr.add_i21(imm21));
            s
        },
        Opcode::Jalr { imm12, rs1, rd } => {
            let mut s = String::from_str("jalr ");
            push_reg(&mut s, rd);
            push_text(&mut s, ", 0x");
            push_hex(&mut s, (imm12.0 as u16) as u64);
            push_text(&mut s, "(");
            push_reg(&mut s, rs1);
            push_text(&mut s, ")");
            s
        },
        Opcode::Load { imm12, rs1, funct3, rd } => disasm_load(imm12, rs1, funct3, rd),
        Opcode::Store { imm12, rs2, rs1, funct3 } => if funct3 == F3_OP_STORE_SB {
            ri_mem_string("sb ", rs2, imm12.0, rs1)
        } else if funct3 == F3_OP_STORE_SW {
            ri_mem_string("sw ", rs2, imm12.0, rs1)
        } else if funct3 == F3_OP_STORE_SD {
            ri_mem_string("sd ", rs2, imm12.0, rs1)
        } else {
            String::from_str("Unknown STORE opcode")
        },
        Opcode::OpImm { imm12, rs1, funct3, rd } => disasm_op_imm(imm12, rs1, funct3, rd),
        Opcode::ADDIW { imm12, rs1, rd } => rri_hex_string(
            "addiw ",
            rd,
            rs1,
            (imm12.0 as u16) as u64,
        ),
        Opcode::SLLIW { shamt, rs1, rd } => rri_hex_string("slliw ", rd, rs1, shamt as u64),
        Opcode::SRLIW { shamt, rs1, rd } => rri_hex_string("srliw ", rd, rs1, shamt as u64),
        Opcode::Op { funct7, rs2, rs1, funct3, rd } => if funct7 == F7_OP_ADD && funct3
            == F3_OP_ADD_SUB {
            rrr_string(String::from_str("add "), rd, rs1, rs2)
        } else if funct7 == F7_OP_SUB && funct3 == F3_OP_ADD_SUB {
            rrr_string(String::from_str("sub "), rd, rs1, rs2)
        } else {
            two_hex_string(
                "Unknown OP instruction: funct7: ",
                funct7 as u64,
                ", funct3: ",
                funct3 as u64,
            )
        },
        Opcode::SUBW { rs2, rs1, rd } => rrr_string(String::from_str("subw "), rd, rs1, rs2),
        Opcode::Amo { funct5, rs2, rs1, funct3, rd, aq, rl } => disasm_amo(
            funct5,
            rs2,
            rs1,
            funct3,
            rd,
            aq,
            rl,
        ),
        Opcode::System { csr, rs1, funct3, rd } => disasm_system(csr, rs1, funct3, rd),
        Opcode::Fence { imm12, funct3 } => disasm_fence(imm12, funct3),
        Opcode::Uknown => String::from_str("Unknown instruction"),
    }
}

/// The comparison a branch makes, with spaces around it.
pub open spec fn branch_op(funct3: u8) -> Seq<char> {
    if funct3 == F3_BRANCH_BNE {
        " != "@
    } else if funct3 == F3_BRANCH_BEQ {
        " == "@
    } else if funct3 == F3_BRANCH_BLT || funct3 == F3_BRANCH_BLTU {
        " < "@
    } else {
        " >= "@
    }
}

/// `<head>rs1 <+off><tail>`, the shape of the memory operands of the pseudo code.
pub open spec fn mem_pc(head: Seq<char>, rs1: u8, off: int, tail: Seq<char>) -> Seq<char> {
    head + reg_name(rs1) + " "@ + plus_dec(off) + tail
}

/// `; acquire` and `; release` notes of an AMO.
pub open spec fn acq_rel(aq: bool, rl: bool) -> Seq<char> {
    (if aq {
        "; acquire"@
    } else {
        ""@
    }) + (if rl {
        "; release"@
    } else {
        ""@
    })
}

/// The fields of a FENCE immediate, as the pseudo code writes them.
pub open spec fn fence_fields(v: nat) -> Seq<char> {
    "fence: FM:0b_"@ + bin_str(field(v, 11, 8)) + ", PI:"@ + dec_str(field(v, 7, 7)) + ", PO:"@
        + dec_str(field(v, 6, 6)) + ", PR:"@ + dec_str(field(v, 5, 5)) + ", PW:"@ + dec_str(
        field(v, 4, 4),
    ) + ", SI:"@ + dec_str(field(v, 3, 3)) + ", SO:"@ + dec_str(field(v, 2, 2)) + ", SR:"@
        + dec_str(field(v, 1, 1)) + ", SW:"@ + dec_str(field(v, 0, 0))
}

/// Pseudo code of a 32-bit instruction.
pub open spec fn rv64i_pseudo_code(instr: u32) -> Seq<char> {
    match spec_decode(instr) {
        Opcode::LUI { uimm20, rd } => reg_name(rd) + " = 0x"@ + hex_str(uimm20 as nat / 4096)
            + " << 12"@,
        Opcode::Auipc { uimm20, rd } => reg_name(rd) + " = PC + 0x"@ + hex_str(uimm20 as nat)
            + " << 12"@,
        Opcode::Branch { off13, rs2, rs1, funct3 } => if is_branch_funct3(funct3) {
            "if "@ + reg_name(rs1) + branch_op(funct3) + reg_name(rs2) + " then PC = PC "@
                + plus_dec(off13.0 as int)
        } else {
            "Unknown BRANCH opcode"@
        },
        Opcode::Jal { imm21, rd } => reg_name(rd) + " = PC + 4; PC = PC "@ + plus_dec(
            imm21.0 as int,
        ),
        Opcode::Jalr { imm12, rs1, rd } => reg_name(rd) + " = PC + 4; PC = "@ + reg_name(rs1)
            + " "@ + plus_dec(imm12.0 as int) + "; PC[0] = 0"@,
        Opcode::Load { imm12, rs1, funct3, rd } => if funct3 == F3_OP_LOAD_LB {
            mem_pc(reg_name(rd) + "[7:0] = m8["@, rs1, imm12.0 as int, "]; s-ext"@)
        } else if funct3 == F3_OP_LOAD_LBU {
            mem_pc(reg_name(rd) + "[7:0] = m8["@, rs1, imm12.0 as int, ")]; z-ext"@)
        } else if funct3 == F3_OP_LOAD_LW {
            mem_pc(reg_name(rd) + "[31:0] = m32["@, rs1, imm12.0 as int, "]; s-ext"@)
        } else if funct3 == F3_OP_LOAD_LWU {
            mem_pc(reg_name(rd) + "[31:0] = m32["@, rs1, imm12.0 as int, "]; z-ext"@)
        } else if funct3 == F3_OP_LOAD_LD {
            mem_pc(reg_name(rd) + " = m64["@, rs1, imm12.0 as int, "]"@)
        } else {
            "Unknown LOAD opcode"@
        },
        Opcode::Store { imm12, rs2, rs1, funct3 } => if funct3 == F3_OP_STORE_SB {
            mem_pc("m8["@, rs1, imm12.0 as int, "] = "@) + reg_name(rs2) + "[7:0]"@
        } else if funct3 == F3_OP_STORE_SW {
            mem_pc("m32["@, rs1, imm12.0 as int, "] = "@) + reg_name(rs2) + "[31:0]"@
        } else if funct3 == F3_OP_STORE_SD {
            mem_pc("m64["@, rs1, imm12.0 as int, "] = "@) + reg_name(rs2)
        } else {
            "Unknown STORE opcode"@
        },
        Opcode::OpImm { imm12, rs1, funct3, rd } => if funct3 == F3_OP_IMM_ADDI {
            reg_name(rd) + " = "@ + reg_name(rs1) + " "@ + plus_dec(imm12.0 as int)
        } else if funct3 == F3_OP_IMM_SLTIU {
            "If "@ + reg_name(rs1) + " < "@ + plus_dec(imm12.0 as int) + " then "@ + reg_name(rd)
                + " = 1 else "@ + reg_name(rd) + " = 0"@
        } else if funct3 == F3_OP_IMM_XORI {
            reg_name(rd) + " = "@ + reg_name(rs1) + " ^ 0x"@ + hex16(imm12.0)
        } else if funct3 == F3_OP_IMM_ANDI {
            reg_name(rd) + " = "@ + reg_name(rs1) + " & 0x"@ + hex16(imm12.0)
        } else if funct3 == F3_OP_IMM_SLLI {
            reg_name(rd) + " = "@ + reg_name(rs1) + " << "@ + signed_dec(imm12.0 as int)
        } else {
            "Unknown OP-IMM opcode"@
        },
        Opcode::ADDIW { imm12, rs1, rd } => reg_name(rd) + "[31:0] = "@ + reg_name(rs1)
            + "[31:0] + 0x"@ + hex16(imm12.0),
        Opcode::SLLIW { shamt, rs1, rd } => reg_name(rd) + "[31:0] = "@ + reg_name(rs1)
            + "[31:0] << "@ + dec_str(shamt as nat) + "; s-ext"@,
        Opcode::SRLIW { shamt, rs1, rd } => reg_name(rd) + "[31:0] = "@ + reg_name(rs1)
            + "[31:0] >> "@ + dec_str(shamt as nat) + "; sign extend"@,
        Opcode::Op { funct7, rs2, rs1, funct3, rd } => if funct7 == F7_OP_ADD && funct3
            == F3_OP_ADD_SUB {
            reg_name(rd) + " = "@ + reg_name(rs1) + " + "@ + reg_name(rs2)
        } else if funct7 == F7_OP_SUB && funct3 == F3_OP_ADD_SUB {
            reg_name(rd) + " = "@ + reg_name(rs1) + " - "@ + reg_name(rs2)
        } else {
            "Unknown OP instruction: funct7: "@ + hex_str(funct7 as nat) + ", funct3: "@ + hex_str(
                funct3 as nat,
            )
        },
        Opcode::SUBW { rs2, rs1, rd } => reg_name(rd) + "[31:0] = "@ + reg_name(rs1)
            + "[31:0] - "@ + reg_name(rs2) + "[31:0]; s-ext"@,
        Opcode::Amo { funct5, rs2, rs1, funct3, rd, aq, rl } => if funct5 == F5_OP_AMO_SWAP
            && funct3 == F3_OP_AMO_WORD {
            reg_name(rd) + " <= m32["@ + reg_name(rs1) + "]; m32["@ + reg_name(rs1) + "] <= "@
                + reg_name(rs2) + acq_rel(aq, rl)
        } else if funct5 == F5_OP_AMO_ADD && funct3 == F3_OP_AMO_WORD {
            reg_name(rd) + " <= m32["@ + reg_name(rs1) + "]; m32["@ + reg_name(rs1)
                + "] <= rd + "@ + reg_name(rs2) + acq_rel(aq, rl)
        } else if funct5 == F5_OP_AMO_LRW && funct3 == F3_OP_AMO_WORD {
            reg_name(rd) + " = m32["@ + reg_name(rs1) + "] ; todo"@
        } else {
            "Unknown AMO instruction: funct5: "@ + hex_str(funct5 as nat) + ", funct3: "@ + hex_str(
                funct3 as nat,
            )
        },
        Opcode::System { csr, rs1, funct3, rd } => if funct3 == F3_SYSTEM_WFI {
            "no effect"@
        } else if funct3 == F3_SYSTEM_CSRRS {
            reg_name(rd) + " = "@ + csr_text(csr) + "; "@ + csr_text(csr) + " = "@ + csr_text(csr)
                + " | x"@ + bin_str(rs1 as nat)
        } else if funct3 == F3_SYSTEM_CSRRWI {
            reg_name(rd) + " = "@ + csr_text(csr) + "; "@ + csr_text(csr) + " = 0x"@ + hex_str(
                rs1 as nat,
            )
        } else if funct3 == F3_SYSTEM_CSRRW {
            reg_name(rd) + " = "@ + csr_text(csr) + "; "@ + csr_text(csr) + " = "@ + reg_name(rs1)
        } else {
            "Unknown SYSTEM opcode"@
        },
        Opcode::Fence { imm12, funct3 } => if funct3 == F3_OP_FENCE {
            fence_fields((imm12.0 as u16) as nat)
        } else if funct3 == F3_OP_FENCE_I {
            "fence: sync I-cache"@
        } else {
            "Unknown FENCE instruction"@
        },
        Opcode::Uknown => "Unknown instruction"@,
    }
}

/// Pseudo code of an instruction (compressed or not).
pub open spec fn pseudo_code(instr: u32) -> Seq<char> {
    if is_rvc(instr) {
        rvc_pseudo_code(low16(instr))
    } else {
        rv64i_pseudo_code(instr)
    }
}

fn reg_string(r: u8) -> (s: String)
    ensures
        s@ == reg_name(r),
{
    let mut s = String::new();
    push_reg(&mut s, r);
    assert(s@ =~= reg_name(r));
    s
}

/// Appends `rs1 <+off><tail>`.
fn push_mem_pc(s: &mut String, rs1: u8, off: i64, tail: &str)
    ensures
        final(s)@ == mem_pc(old(s)@, rs1, off as int, tail@),
{
    push_reg(s, rs1);
    push_text(s, " ");
    push_plus(s, off);
    push_text(s, tail);
}

fn pseudo_branch(off13: I13, rs2: u8, rs1: u8, funct3: u8) -> (s: String)
    ensures
        s@ == if is_branch_funct3(funct3) {
            "if "@ + reg_name(rs1) + branch_op(funct3) + reg_name(rs2) + " then PC = PC "@
                + plus_dec(off13.0 as int)
        } else {
            "Unknown BRANCH opcode"@
        },
{
    let op = if funct3 == F3_BRANCH_BNE {
        " != "
    } else if funct3 == F3_BRANCH_BEQ {
        " == "
    } else if funct3 == F3_BRANCH_BLT || funct3 == F3_BRANCH_BLTU {
        " < "
    } else if funct3 == F3_BRANCH_BGE || funct3 == F3_BRANCH_BGEU {
        " >= "
    } else {
        return String::from_str("Unknown BRANCH opcode");
    };
    let mut s = String::from_str("if ");
    push_reg(&mut s, rs1);
    push_text(&mut s, op);
    push_reg(&mut s, rs2);
    push_text(&mut s, " then PC = PC ");
    push_plus(&mut s, off13.0 as i64);
    s
}

fn pseudo_load(imm12: I12, rs1: u8, funct3: u8, rd: u8) -> (s: String)
    ensures
        s@ == if funct3 == F3_OP_LOAD_LB {
            mem_pc(reg_name(rd) + "[7:0] = m8["@, rs1, imm12.0 as int, "]; s-ext"@)
        } else if funct3 == F3_OP_LOAD_LBU {
            mem_pc(reg_name(rd) + "[7:0] = m8["@, rs1, imm12.0 as int, ")]; z-ext"@)
        } else if funct3 == F3_OP_LOAD_LW {
            mem_pc(reg_name(rd) + "[31:0] = m32["@, rs1, imm12.0 as int, "]; s-ext"@)
        } else if funct3 == F3_OP_LOAD_LWU {
            mem_pc(reg_name(rd) + "[31:0] = m32["@, rs1, imm12.0 as int, "]; z-ext"@)
        } else if funct3 == F3_OP_LOAD_LD {
            mem_pc(reg_name(rd) + " = m64["@, rs1, imm12.0 as int, "]"@)
        } else {
            "Unknown LOAD opcode"@
        },
{
    let (head, tail) = if funct3 == F3_OP_LOAD_LB {
        ("[7:0] = m8[", "]; s-ext")
    } else if funct3 == F3_OP_LOAD_LBU {
        ("[7:0] = m8[", ")]; z-ext")
    } else if funct3 == F3_OP_LOAD_LW {
        ("[31:0] = m32[", "]; s-ext")
    } else if funct3 == F3_OP_LOAD_LWU {
        ("[31:0] = m32[", "]; z-ext")
    } else if funct3 == F3_OP_LOAD_LD {
        (" = m64[", "]")
    } else {
        return String::from_str("Unknown LOAD opcode");
    };
    let mut s = reg_string(rd);
    push_text(&mut s, head);
    push_mem_pc(&mut s, rs1, imm12.0 as i64, tail);
    s
}

fn pseudo_store(imm12: I12, rs2: u8, rs1: u8, funct3: u8) -> (s: String)
    ensures
        s@ == if funct3 == F3_OP_STORE_SB {
            mem_pc("m8["@, rs1, imm12.0 as int, "] = "@) + reg_name(rs2) + "[7:0]"@
        } else if funct3 == F3_OP_STORE_SW {
            mem_pc("m32["@, rs1, imm12.0 as int, "] = "@) + reg_name(rs2) + "[31:0]"@
        } else if funct3 == F3_OP_STORE_SD {
            mem_pc("m64["@, rs1, imm12.0 as int, "] = "@) + reg_name(rs2)
        } else {
            "Unknown STORE opcode"@
        },
{
    if funct3 == F3_OP_STORE_SB {
        let mut s = String::from_str("m8[");
        push_mem_pc(&mut s, rs1, imm12.0 as i64, "] = ");
        push_reg(&mut s, rs2);
        push_text(&mut s, "[7:0]");
        s
    } else if funct3 == F3_OP_STORE_SW {
        let mut s = String::from_str("m32[");
        push_mem_pc(&mut s, rs1, imm12.0 as i64, "] = ");
        push_reg(&mut s, rs2);
        push_text(&mut s, "[31:0]");
        s
    } else if funct3 == F3_OP_STORE_SD {
        let mut s = String::from_str("m64[");
        push_mem_pc(&mut s, rs1, imm12.0 as i64, "] = ");
        push_reg(&mut s, rs2);
        s
    } else {
        String::from_str("Unknown STORE opcode")
    }
}

fn pseudo_op_imm(imm12: I12, rs1: u8, funct3: u8, rd: u8) -> (s: String)
    ensures
        s@ == if funct3 == F3_OP_IMM_ADDI {
            reg_name(rd) + " = "@ + reg_name(rs1) + " "@ + plus_dec(imm12.0 as int)
        } else if funct3 == F3_OP_IMM_SLTIU {
            "If "@ + reg_name(rs1) + " < "@ + plus_dec(imm12.0 as int) + " then "@ + reg_name(rd)
                + " = 1 else "@ + reg_name(rd) + " = 0"@
        } else if funct3 == F3_OP_IMM_XORI {
            reg_name(rd) + " = "@ + reg_name(rs1) + " ^ 0x"@ + hex16(imm12.0)
        } else if funct3 == F3_OP_IMM_ANDI {
            reg_name(rd) + " = "@ + reg_name(rs1) + " & 0x"@ + hex16(imm12.0)
        } else if funct3 == F3_OP_IMM_SLLI {
            reg_name(rd) + " = "@ + reg_name(rs1) + " << "@ + signed_dec(imm12.0 as int)
        } else {
            "Unknown OP-IMM opcode"@
        },
{
    if funct3 == F3_OP_IMM_SLTIU {
        let mut s = String::from_str("If ");
        push_reg(&mut s, rs1);
        push_text(&mut s, " < ");
        push_plus(&mut s, imm12.0 as i64);
        push_text(&mut s, " then ");
        push_reg(&mut s, rd);
        push_text(&mut s, " = 1 else ");
        push_reg(&mut s, rd);
        push_text(&mut s, " = 0");
        return s;
    }
    if !(funct3 == F3_OP_IMM_ADDI || funct3 == F3_OP_IMM_XORI || funct3 == F3_OP_IMM_ANDI
        || funct3 == F3_OP_IMM_SLLI) {
        return String::from_str("Unknown OP-IMM opcode");
    }
    let mut s = reg_string(rd);
    push_text(&mut s, " = ");
    push_reg(&mut s, rs1);
    if funct3 == F3_OP_IMM_ADDI {
        push_text(&mut s, " ");
        push_plus(&mut s, imm12.0 as i64);
    } else if funct3 == F3_OP_IMM_XORI {
        push_text(&mut s, " ^ 0x");
        push_hex(&mut s, (imm12.0 as u16) as u64);
    } else if funct3 == F3_OP_IMM_ANDI {
        push_text(&mut s, " & 0x");
        push_hex(&mut s, (imm12.0 as u16) as u64);
    } else {
        push_text(&mut s, " << ");
        push_signed(&mut s, imm12.0 as i64);
    }
    s
}

fn pseudo_amo(funct5: u8, rs2: u8, rs1: u8, funct3: u8, rd: u8, aq: bool, rl: bool) -> (s: String)
    ensures
        s@ == if funct5 == F5_OP_AMO_SWAP && funct3 == F3_OP_AMO_WORD {
            reg_name(rd) + " <= m32["@ + reg_name(rs1) + "]; m32["@ + reg_name(rs1) + "] <= "@
                + reg_name(rs2) + acq_rel(aq, rl)
        } else if funct5 == F5_OP_AMO_ADD && funct3 == F3_OP_AMO_WORD {
            reg_name(rd) + " <= m32["@ + reg_name(rs1) + "]; m32["@ + reg_name(rs1)
                + "] <= rd + "@ + reg_name(rs2) + acq_rel(aq, rl)
        } else if funct5 == F5_OP_AMO_LRW && funct3 == F3_OP_AMO_WORD {
            reg_name(rd) + " = m32["@ + reg_name(rs1) + "] ; todo"@
        } else {
            "Unknown AMO instruction: funct5: "@ + hex_str(funct5 as nat) + ", funct3: "@ + hex_str(
                funct3 as nat,
            )
        },
{
    if funct3 == F3_OP_AMO_WORD && (funct5 == F5_OP_AMO_SWAP || funct5 == F5_OP_AMO_ADD) {
        let mut s = reg_string(rd);
        push_text(&mut s, " <= m32[");
        push_reg(&mut s, rs1);
        push_text(&mut s, "]; m32[");
        push_reg(&mut s, rs1);
        push_text(
            &mut s,
            if funct5 == F5_OP_AMO_SWAP {
                "] <= "
            } else {
                "] <= rd + "
            },
        );
        push_reg(&mut s, rs2);
        let ghost before = s@;
        push_text(&mut s, if aq { "; acquire" } else { "" });
        push_text(&mut s, if rl { "; release" } else { "" });
        assert(s@ =~= before + acq_rel(aq, rl));
        s
    } else if funct5 == F5_OP_AMO_LRW && funct3 == F3_OP_AMO_WORD {
        let mut s = reg_string(rd);
        push_text(&mut s, " = m32[");
        push_reg(&mut s, rs1);
        push_text(&mut s, "] ; todo");
        s
    } else {
        two_hex_string("Unknown AMO instruction: funct5: ", funct5 as u64, ", funct3: ", funct3 as u64)
    }
}

fn pseudo_system(csr: u16, rs1: u8, funct3: u8, rd: u8) -> (s: String)
    ensures
        s@ == if funct3 == F3_SYSTEM_WFI {
            "no effect"@
        } else if funct3 == F3_SYSTEM_CSRRS {
            reg_name(rd) + " = "@ + csr_text(csr) + "; "@ + csr_text(csr) + " = "@ + csr_text(csr)
                + " | x"@ + bin_str(rs1 as nat)
        } else if funct3 == F3_SYSTEM_CSRRWI {
            reg_name(rd) + " = "@ + csr_text(csr) + "; "@ + csr_text(csr) + " = 0x"@ + hex_str(
                rs1 as nat,
            )
        } else if funct3 == F3_SYSTEM_CSRRW {
            reg_name(rd) + " = "@ + csr_text(csr) + "; "@ + csr_text(csr) + " = "@ + reg_name(rs1)
        } else {
            "Unknown SYSTEM opcode"@
        },
{
    if funct3 == F3_SYSTEM_WFI {
        return String::from_str("no effect");
    }
    if !(funct3 == F3_SYSTEM_CSRRS || funct3 == F3_SYSTEM_CSRRWI || funct3 == F3_SYSTEM_CSRRW) {
        return String::from_str("Unknown SYSTEM opcode");
    }
    let n = csr_name(csr);
    let mut s = reg_string(rd);
    push_text(&mut s, " = ");
    push_text(&mut s, n);
    push_text(&mut s, "; ");
    push_text(&mut s, n);
    if funct3 == F3_SYSTEM_CSRRS {
        push_text(&mut s, " = ");
        push_text(&mut s, n);
        push_text(&mut s, " | x");
        push_bin(&mut s, rs1 as u64);
    } else if funct3 == F3_SYSTEM_CSRRWI {
        push_text(&mut s, " = 0x");
        push_hex(&mut s, rs1 as u64);
    } else {
        push_text(&mut s, " = ");
        push_reg(&mut s, rs1);
    }
    s
}

/// Appends `<label>` and bit `b` of `v` in decimal.
fn push_flag(s: &mut String, label: &str, v: u16, b: u32)
    requires
        b < 16,
    ensures
        final(s)@ == old(s)@ + label@ + dec_str(field(v as nat, b as nat, b as nat)),
{
    push_text(s, label);
    push_dec(s, v.bits(b, b) as u64);
}

fn pseudo_fence(imm12: I12, funct3: u8) -> (s: String)
    ensures
        s@ == if funct3 == F3_OP_FENCE {
            fence_fields((imm12.0 as u16) as nat)
        } else if funct3 == F3_OP_FENCE_I {
            "fence: sync I-cache"@
        } else {
            "Unknown FENCE instruction"@
        },
{
    if funct3 == F3_OP_FENCE {
        let v: u16 = imm12.0 as u16;
        let mut s = String::from_str("fence: FM:0b_");
        push_bin(&mut s, v.bits(11, 8) as u64);
        push_flag(&mut s, ", PI:", v, 7);
        push_flag(&mut s, ", PO:", v, 6);
        push_flag(&mut s, ", PR:", v, 5);
        push_flag(&mut s, ", PW:", v, 4);
        push_flag(&mut s, ", SI:", v, 3);
        push_flag(&mut s, ", SO:", v, 2);
        push_flag(&mut s, ", SR:", v, 1);
        push_flag(&mut s, ", SW:", v, 0);
        s
    } else if funct3 == F3_OP_FENCE_I {
        String::from_str("fence: sync I-cache")
    } else {
        String::from_str("Unknown FENCE instruction")
    }
}

/// Pseudo code of an instruction (compressed or not).
#[verifier::spinoff_prover]
pub fn disasm_pseudo_code(instr: u32) -> (r: String)
    ensures
        r@ == pseudo_code(instr),
{
    if instr_is_rvc(instr) {
        let c = low_half(instr);
        return disasm_rvc_pseudo_code(c);
    }
    match decode_instr(instr) {
        Opcode::LUI { uimm20, rd } => {
            let mut s = reg_string(rd);
            push_text(&mut s, " = 0x");
            push_hex(&mut s, (uimm20 / 4096) as u64);
            push_text(&mut s, " << 12");
            s
        },
        Opcode::Auipc { uimm20, rd } => {
            let mut s = reg_string(rd);
            push_text(&mut s, " = PC + 0x");
            push_hex(&mut s, uimm20);
            push_text(&mut s, " << 12");
            s
        },
        Opcode::Branch { off13, rs2, rs1, funct3 } => pseudo_branch(off13, rs2, rs1, funct3),
        Opcode::Jal { imm21, rd } => {
            let mut s = reg_string(rd);
            push_text(&mut s, " = PC + 4; PC = PC ");
            push_plus(&mut s, imm21.0 as i64);
            s
        },
        Opcode::Jalr { imm12, rs1, rd } => {
            let mut s = reg_string(rd);
            push_text(&mut s, " = PC + 4; PC = ");
            push_reg(&mut s, rs1);
            push_text(&mut s, " ");
            push_plus(&mut s, imm12.0 as i64);
            push_text(&mut s, "; PC[0] = 0");
            s
        },
        Opcode::Load { imm12, rs1, funct3, rd } => pseudo_load(imm12, rs1, funct3, rd),
        Opcode::Store { imm12, rs2, rs1, funct3 } => pseudo_store(imm12, rs2, rs1, funct3),
        Opcode::OpImm { imm12, rs1, funct3, rd } => pseudo_op_imm(imm12, rs1, funct3, rd),
        Opcode::ADDIW { imm12, rs1, rd } => {
            let mut s = reg_string(rd);
            push_text(&mut s, "[31:0] = ");
            push_reg(&mut s, rs1);
            push_text(&mut s, "[31:0] + 0x");
            push_hex(&mut s, (imm12.0 as u16) as u64);
            s
        },
        Opcode::SLLIW { shamt, rs1, rd } => {
            let mut s = reg_string(rd);
            push_text(&mut s, "[31:0] = ");
            push_reg(&mut s, rs1);
            push_text(&mut s, "[31:0] << ");
            push_dec(&mut s, shamt as u64);
            push_text(&mut s, "; s-ext");
            s
        },
        Opcode::SRLIW { shamt, rs1, rd } => {
            let mut s = reg_string(rd);
            push_text(&mut s, "[31:0] = ");
            push_reg(&mut s, rs1);
            push_text(&mut s, "[31:0] >> ");
            push_dec(&mut s, shamt as u64);
            push_text(&mut s, "; sign extend");
            s
        },
        Opcode::Op { funct7, rs2, rs1, funct3, rd } => if funct3 == F3_OP_ADD_SUB && (funct7
            == F7_OP_ADD || funct7 == F7_OP_SUB) {
            let mut s = reg_string(rd);
            push_text(&mut s, " = ");
            push_reg(&mut s, rs1);
            push_text(
                &mut s,
                if funct7 == F7_OP_ADD {
                    " + "
                } else {
                    " - "
                },
            );
            push_reg(&mut s, rs2);
            s
        } else {
            two_hex_string(
                "Unknown OP instruction: funct7: ",
                funct7 as u64,
                ", funct3: ",
                funct3 as u64,
            )
        },
        Opcode::SUBW { rs2, rs1, rd } => {
            let mut s = reg_string(rd);
            push_text(&mut s, "[31:0] = ");
            push_reg(&mut s, rs1);
            push_text(&mut s, "[31:0] - ");
            push_reg(&mut s, rs2);
            push_text(&mut s, "[31:0]; s-ext");
            s
        },
        Opcode::Amo { funct5, rs2, rs1, funct3, rd, aq, rl } => pseudo_amo(
            funct5,
            rs2,
            rs1,
            funct3,
            rd,
            aq,
            rl,
        ),
        Opcode::System { csr, rs1, funct3, rd } => pseudo_system(csr, rs1, funct3, rd),
        Opcode::Fence { imm12, funct3 } => pseudo_fence(imm12, funct3),
        Opcode::Uknown => String::from_str("Unknown instruction"),
    }
}

/// `ParseIntError` of std, the error of `from_str_radix`.
#[verifier::external_type_specification]
#[verifier::external_body]
pub struct ExParseIntError(std::num::ParseIntError);

/// The value of `c` as a hexadecimal digit (either case), if it is one.
pub open spec fn hex_digit_value(c: char) -> Option<nat> {
    let n = c as int;
    if 48 <= n <= 57 {
        Some((n - 48) as nat)
    } else if 97 <= n <= 102 {
        Some((n - 87) as nat)
    } else if 65 <= n <= 70 {
        Some((n - 55) as nat)
    } else {
        None
    }
}

/// Whether every character of `s` is a hexadecimal digit.
pub open spec fn all_hex_digits(s: Seq<char>) -> bool {
    forall|i: int| 0 <= i < s.len() ==> (#[trigger] hex_digit_value(s[i])) is Some
}

/// The number the hexadecimal digits `s` stand for.
pub open spec fn hex_value(s: Seq<char>) -> nat
    decreases s.len(),
{
    if s.len() == 0 {
        0
    } else {
        hex_value(s.drop_last()) * 16 + hex_digit_value(s.last())->0
    }
}

/// The digits that `from_str_radix` reads: `s` without one leading `+`.
pub open spec fn radix_digits(s: Seq<char>) -> Seq<char> {
    if s.len() > 0 && s[0] == '+' {
        s.drop_first()
    } else {
        s
    }
}

/// Whether `from_str_radix(s, 16)` gives a number no larger than `max`: an optional `+`,
/// then at least one hexadecimal digit and nothing else.
pub open spec fn parses_as_hex(s: Seq<char>, max: nat) -> bool {
    let d = radix_digits(s);
    d.len() > 0 && all_hex_digits(d) && hex_value(d) <= max
}

/// `s` without any leading `0x` (as `trim_start_matches("0x")` leaves it).
pub open spec fn strip_0x(s: Seq<char>) -> Seq<char>
    decreases s.len(),
{
    if s.len() >= 2 && s[0] == '0' && s[1] == 'x' {
        strip_0x(s.subrange(2, s.len() as int))
    } else {
        s
    }
}

/// `s` without its `_` characters.
pub open spec fn drop_underscores(s: Seq<char>) -> Seq<char>
    decreases s.len(),
{
    if s.len() == 0 {
        s
    } else if s.last() == '_' {
        drop_underscores(s.drop_last())
    } else {
        drop_underscores(s.drop_last()).push(s.last())
    }
}

/// The text that `hex_to_u32` and `hex_to_u64` hand to the number parser.
pub open spec fn hex_digits_of(s: Seq<char>) -> Seq<char> {
    drop_underscores(strip_0x(s))
}

/// `u32::from_str_radix(s, 16)`. Its documentation: the text is an optional `+` followed by
/// digits of the radix only (either case); anything else, no digits, or a value too large
/// for the type is an error. Which error it is is not stated.
#[verifier::external_body]
fn parse_hex_u32(s: &str) -> (r: Result<u32, std::num::ParseIntError>)
    ensures
        r is Ok <==> parses_as_hex(s@, u32::MAX as nat),
        r is Ok ==> r->Ok_0 == hex_value(radix_digits(s@)),
{
    u32::from_str_radix(s, 16)
}

/// `u64::from_str_radix(s, 16)`. Its documentation: the text is an optional `+` followed by
/// digits of the radix only (either case); anything else, no digits, or a value too large
/// for the type is an error. Which error it is is not stated.
#[verifier::external_body]
fn parse_hex_u64(s: &str) -> (r: Result<u64, std::num::ParseIntError>)
    ensures
        r is Ok <==> parses_as_hex(s@, u64::MAX as nat),
        r is Ok ==> r->Ok_0 == hex_value(radix_digits(s@)),
{
    u64::from_str_radix(s, 16)
}

/// The characters of `hex_str` after any leading `0x`, without `_`.
fn hex_digits_string(hex_str: &str) -> (r: String)
    ensures
        r@ == hex_digits_of(hex_str@),
{
    let n = hex_str.unicode_len();
    let mut i: usize = 0;
    assert(hex_str@.subrange(0, n as int) =~= hex_str@);
    while n >= 2 && i <= n - 2 && hex_str.get_char(i) == '0' && hex_str.get_char(i + 1) == 'x'
        invariant
            n == hex_str@.len(),
            i <= n,
            strip_0x(hex_str@) == strip_0x(hex_str@.subrange(i as int, n as int)),
        decreases n - i,
    {
        assert(hex_str@.subrange(i as int, n as int).subrange(2, (n - i) as int) =~= hex_str@.subrange(
            i + 2,
            n as int,
        ));
        i = i + 2;
    }
    assert(strip_0x(hex_str@) == hex_str@.subrange(i as int, n as int));
    let mut t = String::new();
    let mut j: usize = i;
    assert(hex_str@.subrange(i as int, i as int) =~= Seq::<char>::empty());
    while j < n
        invariant
            n == hex_str@.len(),
            i <= j <= n,
            t@ == drop_underscores(hex_str@.subrange(i as int, j as int)),
        decreases n - j,
    {
        let c = hex_str.get_char(j);
        assert(hex_str@.subrange(i as int, j + 1).drop_last() =~= hex_str@.subrange(
            i as int,
            j as int,
        ));
        if c != '_' {
            push_char(&mut t, c);
        }
        j = j + 1;
    }
    t
}

/// Converts a hex string (e.g, "0x1234_9393") to u32.
pub fn hex_to_u32(hex_str: &str) -> (r: Result<u32, std::num::ParseIntError>)
    ensures
        r is Ok <==> parses_as_hex(hex_digits_of(hex_str@), u32::MAX as nat),
        r is Ok ==> r->Ok_0 == hex_value(radix_digits(hex_digits_of(hex_str@))),
{
    let t = hex_digits_string(hex_str);
    parse_hex_u32(t.as_str())
}

/// Converts a hex string (e.g, "0x1234_9393") to u64.
pub fn hex_to_u64(hex_str: &str) -> (r: Result<u64, std::num::ParseIntError>)
    ensures
        r is Ok <==> parses_as_hex(hex_digits_of(hex_str@), u64::MAX as nat),
        r is Ok ==> r->Ok_0 == hex_value(radix_digits(hex_digits_of(hex_str@))),
{
    let t = hex_digits_string(hex_str);
    parse_hex_u64(t.as_str())
}


/// The disassembly of a STORE (inst[6:0] = 0100011) starts with its mnemonic, which names the
/// access width from funct3 (inst[14:12]): 000 gives `sb `, 010 `sw `, 011 `sd `.
pub proof fn lemma_store_mnemonic(ins: u32, addr: u64)
    requires
        field(ins as nat, 6, 0) == 0x23,
        field(ins as nat, 14, 12) == 0 || field(ins as nat, 14, 12) == 2 || field(ins as nat, 14, 12)
            == 3,
    ensures
        asm_text(ins, addr).len() >= 3,
        asm_text(ins, addr)[0] == 's',
        asm_text(ins, addr)[1] == if field(ins as nat, 14, 12) == 0 {
            'b'
        } else if field(ins as nat, 14, 12) == 2 {
            'w'
        } else {
            'd'
        },
        asm_text(ins, addr)[2] == ' ',
{
    vstd::arithmetic::power2::lemma2_to64();
    assert(ins as nat / 1 == ins as nat);
    vstd::arithmetic::div_mod::lemma_mod_mod(ins as int, 4, 32);
    assert(ins % 4 == 3);
    reveal_strlit("sb ");
    reveal_strlit("sw ");
    reveal_strlit("sd ");
}

} // verus!
