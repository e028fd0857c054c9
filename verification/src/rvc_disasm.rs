//! Disassembler of compressed (RVC) instructions.
use crate::alu::{wrap64, Imm, I12, I6, I9};
use crate::rvc_dec::{lemma_c_fields_in_range, rv64c_decode_instr, spec_decode_c, COpcode};
use crate::text::{
    dec_str, hex_str, plus_dec, push_dec, push_hex, push_plus, push_reg, push_signed, push_text,
    reg_name, signed_dec,
};
use vstd::prelude::*;
use vstd::string::StringExecFns;

verus! {

/// The name of the operation of a compressed instruction.
pub open spec fn rvc_operation_name(c: u16) -> Seq<char> {
    match spec_decode_c(c) {
        COpcode::CNOP => "Compressed No Operation"@,
        COpcode::CADDI { .. } => "Compressed Immediate Add"@,
        COpcode::CLUI { .. } => "Compressed Load Upper Immediate"@,
        COpcode::ADDI16SP { .. } => "Add Immediate to Stack Pointer (x2)"@,
        COpcode::CSLLI { .. } => "Compressed Shift Left Logical Immediate"@,
        COpcode::CSRLI { .. } => "Compressed Shift Right Logical Immediate"@,
        COpcode::CLI { .. } => "Compressed Load Immediate"@,
        COpcode::CJR { .. } => "Compressed Jump Register"@,
        COpcode::CADD { .. } => "Compressed Add"@,
        COpcode::CADDW { .. } => "Compressed Add Word"@,
        COpcode::CSUBW { .. } => "Compressed Subtract Word"@,
        COpcode::COR { .. } => "Compressed bitwise Or"@,
        COpcode::CAND { .. } => "Compressed bitwise And"@,
        COpcode::CANDI { .. } => "Compressed bitwise AND Immediate"@,
        COpcode::CJ { .. } => "Compressed Jump"@,
        COpcode::BEQZ { .. } => "Compressed Branch Equal Zero"@,
        COpcode::BNEZ { .. } => "Compressed Branch Not Equal Zero"@,
        COpcode::SDSP { .. } => "Compressed Store Doubleword at Stack Pointer"@,
        COpcode::LDSP { .. } => "Compressed Load Doubleword at Stack Pointer"@,
        COpcode::LD { .. } => "Compressed Load Doubleword from memory"@,
        COpcode::SW { .. } => "Compressed Store Word to memory"@,
        COpcode::SD { .. } => "Compressed Store Double-word to memory"@,
        COpcode::LW { .. } => "Compressed Load Word to memory"@,
        COpcode::ADDIW { .. } => "Compressed Add Immediate Word"@,
        COpcode::ADDI4SPN { .. } => "Compressed Add Immediate * 4 to Stack Pointer (x2)"@,
        COpcode::MV { .. } => "Compressed Move"@,
        COpcode::Hint => "HINT (NOP)"@,
        COpcode::Uknown => "Unknown RVC instruction"@,
        COpcode::Reserved => "Reserved RVC instruction"@,
    }
}

/// An 8-bit immediate in hexadecimal, as its two's complement byte.
pub open spec fn hex8(v: i8) -> Seq<char> {
    hex_str((v as u8) as nat)
}

/// A 16-bit immediate in hexadecimal, as its two's complement half-word.
pub open spec fn hex16(v: i16) -> Seq<char> {
    hex_str((v as u16) as nat)
}

/// `rd = rd <op> rs2` with the register names.
pub open spec fn rr_text(rd: u8, op: Seq<char>, rs2: u8) -> Seq<char> {
    reg_name(rd) + " = "@ + reg_name(rd) + op + reg_name(rs2)
}

/// Pseudo code of a compressed instruction.
pub open spec fn rvc_pseudo_code(c: u16) -> Seq<char> {
    match spec_decode_c(c) {
        COpcode::CNOP => Seq::empty(),
        COpcode::CADDI { imm6, rd } => reg_name(rd) + " = "@ + reg_name(rd) + " + 0x"@ + hex8(
            imm6.0,
        ),
        COpcode::CLUI { imm6, rd } => reg_name(rd) + " = 0x"@ + hex8(imm6.0) + " << 12"@,
        COpcode::ADDI16SP { imm6 } => "x2 = x2 "@ + plus_dec(
            (((imm6.0 as i16) * 16) as i8) as int,
        ),
        COpcode::CSLLI { uimm6, rd } => reg_name(rd) + " = "@ + reg_name(rd) + " << "@ + dec_str(
            uimm6 as nat,
        ),
        COpcode::CSRLI { shamt6, rd } => reg_name(rd) + " = "@ + reg_name(rd) + " >> "@ + dec_str(
            shamt6 as nat,
        ),
        COpcode::CLI { imm6, rd } => reg_name(rd) + " = "@ + hex8(imm6.0),
        COpcode::CJR { rs1 } => "PC = "@ + reg_name(rs1),
        COpcode::CADD { rd, rs2 } => rr_text(rd, " + "@, rs2),
        COpcode::CADDW { rd, rs2 } => reg_name(rd) + "[31:0] = "@ + reg_name(rd) + "[31:0] + "@
            + reg_name(rs2) + "[31:0]; sign extend"@,
        COpcode::CSUBW { rd, rs2 } => reg_name(rd) + "[31:0] = "@ + reg_name(rd) + "[31:0] - "@
            + reg_name(rs2) + "[31:0]; sign extend"@,
        COpcode::COR { rd, rs2 } => rr_text(rd, " | "@, rs2),
        COpcode::CAND { rd, rs2 } => rr_text(rd, " & "@, rs2),
        COpcode::CANDI { imm6, rd } => reg_name(rd) + " = "@ + reg_name(rd) + " & 0x"@ + hex8(
            imm6.0,
        ),
        COpcode::CJ { imm12 } => "PC = PC + "@ + hex16(imm12.0),
        COpcode::BEQZ { imm9, rs1 } => "if "@ + reg_name(rs1) + " == 0 then PC = PC "@ + plus_dec(
            imm9.0 as int,
        ),
        COpcode::BNEZ { imm9, rs1 } => "if "@ + reg_name(rs1) + " != 0 then PC = PC "@ + plus_dec(
            imm9.0 as int,
        ),
        COpcode::SDSP { uimm6, rs2 } => "mem64[x2 "@ + plus_dec((uimm6 * 8) % 256) + "] = "@
            + reg_name(rs2),
        COpcode::LDSP { uimm6, rd } => reg_name(rd) + " = mem64[x2 "@ + plus_dec(
            (uimm6 * 8) % 256,
        ) + "]"@,
        COpcode::LD { uoff8, rs1, rd } => reg_name(rd) + " = mem64["@ + reg_name(rs1) + " + "@
            + dec_str(uoff8 as nat) + "]"@,
        COpcode::SW { uoff7, rs1, rs2 } => "mem32["@ + reg_name(rs1) + " + "@ + dec_str(
            uoff7 as nat,
        ) + "] = "@ + reg_name(rs2),
        COpcode::SD { uoff8, rs1, rs2 } => "mem64["@ + reg_name(rs1) + " + "@ + dec_str(
            uoff8 as nat,
        ) + "] = "@ + reg_name(rs2),
        COpcode::LW { uoff7, rs1, rd } => reg_name(rd) + "[31:0] = mem32["@ + reg_name(rs1)
            + " + "@ + dec_str(uoff7 as nat) + "]; sign extend"@,
        COpcode::ADDIW { rd, uimm6 } => reg_name(rd) + " = "@ + reg_name(rd) + " + "@ + dec_str(
            uimm6 as nat,
        ),
        COpcode::ADDI4SPN { uimm8, rd } => reg_name(rd) + " = x2 + "@ + dec_str(uimm8 as nat)
            + " * 4"@,
        COpcode::MV { rd, rs2 } => reg_name(rd) + " = "@ + reg_name(rs2),
        COpcode::Hint => "HINT (NOP)"@,
        COpcode::Uknown => "Unknown RVC instruction"@,
        COpcode::Reserved => "Reserved RVC instruction"@,
    }
}

/// The registers a compressed instruction reads and writes: (rs1, rs2, rd).
pub open spec fn rvc_used_regs(c: u16) -> (Option<u8>, Option<u8>, Option<u8>) {
    match spec_decode_c(c) {
        COpcode::CNOP => (None, None, None),
        COpcode::CADDI { rd, .. } => (Some(rd), None, Some(rd)),
        COpcode::CLUI { rd, .. } => (None, None, Some(rd)),
        COpcode::ADDI16SP { .. } => (Some(2), None, Some(2)),
        COpcode::CSLLI { rd, .. } => (Some(rd), None, Some(rd)),
        COpcode::CSRLI { rd, .. } => (Some(rd), None, Some(rd)),
        COpcode::CLI { rd, .. } => (None, None, Some(rd)),
        COpcode::CJR { rs1 } => (Some(rs1), None, None),
        COpcode::CADD { rd, rs2 } => (Some(rd), Some(rs2), Some(rd)),
        COpcode::CADDW { rd, rs2 } => (Some(rd), Some(rs2), Some(rd)),
        COpcode::CSUBW { rd, rs2 } => (Some(rd), Some(rs2), Some(rd)),
        COpcode::COR { rd, rs2 } => (Some(rd), Some(rs2), Some(rd)),
        COpcode::CAND { rd, rs2 } => (Some(rd), Some(rs2), Some(rd)),
        COpcode::CANDI { rd, .. } => (Some(rd), None, Some(rd)),
        COpcode::CJ { .. } => (None, None, None),
        COpcode::BEQZ { rs1, .. } => (Some(rs1), None, None),
        COpcode::BNEZ { rs1, .. } => (Some(rs1), None, None),
        COpcode::SDSP { rs2, .. } => (Some(2), Some(rs2), None),
        COpcode::LDSP { rd, .. } => (Some(2), None, Some(rd)),
        COpcode::LD { rs1, rd, .. } => (Some(rs1), None, Some(rd)),
        COpcode::SW { rs1, rs2, .. } => (Some(rs1), Some(rs2), None),
        COpcode::SD { rs1, rs2, .. } => (Some(rs1), Some(rs2), None),
        COpcode::LW { rs1, rd, .. } => (Some(rs1), None, Some(rd)),
        COpcode::ADDIW { rd, .. } => (Some(rd), None, Some(rd)),
        COpcode::ADDI4SPN { rd, .. } => (Some(2), None, Some(rd)),
        COpcode::MV { rd, rs2 } => (None, Some(rs2), Some(rd)),
        COpcode::Hint => (None, None, None),
        COpcode::Uknown => (None, None, None),
        COpcode::Reserved => (None, None, None),
    }
}

/// `<mnemonic> rd, rs2`.
pub open spec fn two_regs(m: Seq<char>, rd: u8, rs2: u8) -> Seq<char> {
    m + reg_name(rd) + ", "@ + reg_name(rs2)
}

/// `<mnemonic> r, <off>(base)` with the offset in decimal.
pub open spec fn mem_op(m: Seq<char>, r: u8, off: nat, base: Seq<char>) -> Seq<char> {
    m + reg_name(r) + ", "@ + dec_str(off) + "("@ + base + ")"@
}

/// Assembly text of a compressed instruction at `addr`.
pub open spec fn rvc_asm(c: u16, addr: u64) -> Seq<char> {
    match spec_decode_c(c) {
        COpcode::CNOP => "nop"@,
        COpcode::CADDI { imm6, rd } => "c.addi "@ + reg_name(rd) + ", "@ + signed_dec(
            imm6.0 as int,
        ),
        COpcode::CLUI { imm6, rd } => "c.lui "@ + reg_name(rd) + ", 0x"@ + hex8(imm6.0),
        COpcode::ADDI16SP { imm6 } => "c.addi16sp x2, "@ + plus_dec(imm6.0 * 16),
        COpcode::CSLLI { uimm6, rd } => "c.slli "@ + reg_name(rd) + ", 0x"@ + hex_str(
            uimm6 as nat,
        ),
        COpcode::CSRLI { shamt6, rd } => "c.srli "@ + reg_name(rd) + ", 0x"@ + hex_str(
            shamt6 as nat,
        ),
        COpcode::CLI { imm6, rd } => "c.li "@ + reg_name(rd) + ", "@ + signed_dec(imm6.0 as int),
        COpcode::CJR { rs1 } => "c.jr "@ + reg_name(rs1),
        COpcode::CADD { rd, rs2 } => two_regs("c.add "@, rd, rs2),
        COpcode::CADDW { rd, rs2 } => two_regs("c.addw "@, rd, rs2),
        COpcode::CSUBW { rd, rs2 } => two_regs("c.subw "@, rd, rs2),
        COpcode::COR { rd, rs2 } => two_regs("c.or "@, rd, rs2),
        COpcode::CAND { rd, rs2 } => two_regs("c.and "@, rd, rs2),
        COpcode::CANDI { imm6, rd } => "c.andi "@ + reg_name(rd) + ", "@ + signed_dec(
            imm6.0 as int,
        ),
        COpcode::CJ { imm12 } => "c.j "@ + hex_str(wrap64(addr + imm12.0) as nat),
        COpcode::BEQZ { imm9, rs1 } => "c.beqz "@ + reg_name(rs1) + ", 0x"@ + hex_str(
            wrap64(addr + imm9.0) as nat,
        ),
        COpcode::BNEZ { imm9, rs1 } => "c.bnez "@ + reg_name(rs1) + ", 0x"@ + hex_str(
            wrap64(addr + imm9.0) as nat,
        ),
        COpcode::SDSP { uimm6, rs2 } => mem_op("c.sdsp "@, rs2, ((uimm6 * 8) % 256) as nat, "x2"@),
        COpcode::LDSP { uimm6, rd } => mem_op("c.ldsp "@, rd, ((uimm6 * 8) % 256) as nat, "x2"@),
        COpcode::LD { uoff8, rs1, rd } => mem_op("c.ld "@, rd, uoff8 as nat, reg_name(rs1)),
        COpcode::SW { uoff7, rs1, rs2 } => mem_op("c.sw "@, rs2, uoff7 as nat, reg_name(rs1)),
        COpcode::SD { uoff8, rs1, rs2 } => mem_op("c.sd "@, rs2, uoff8 as nat, reg_name(rs1)),
        COpcode::LW { uoff7, rs1, rd } => mem_op("c.lw "@, rd, uoff7 as nat, reg_name(rs1)),
        COpcode::ADDIW { rd, uimm6 } => "c.addiw "@ + reg_name(rd) + ", "@ + dec_str(
            uimm6 as nat,
        ),
        COpcode::ADDI4SPN { uimm8, rd } => "c.addi4spn "@ + reg_name(rd) + ", x2, "@ + dec_str(
            ((uimm8 * 4) % 256) as nat,
        ),
        COpcode::MV { rd, rs2 } => two_regs("c.mv "@, rd, rs2),
        COpcode::Hint => "HINT (NOP)"@,
        COpcode::Uknown => "Unknown RVC instruction"@,
        COpcode::Reserved => "Reserved RVC instruction"@,
    }
}

/// The register name `x<r>` as a new string.
fn reg_string(r: u8) -> (s: String)
    ensures
        s@ == reg_name(r),
{
    let mut s = String::new();
    push_reg(&mut s, r);
    assert(s@ =~= reg_name(r));
    s
}

/// The name of the operation of a compressed instruction.
pub fn disasm_rvc_operation_name(instr: u16) -> (r: String)
    ensures
        r@ == rvc_operation_name(instr),
{
    let t = match rv64c_decode_instr(instr) {
        COpcode::CNOP => "Compressed No Operation",
        COpcode::CADDI { .. } => "Compressed Immediate Add",
        COpcode::CLUI { .. } => "Compressed Load Upper Immediate",
        COpcode::ADDI16SP { .. } => "Add Immediate to Stack Pointer (x2)",
        COpcode::CSLLI { .. } => "Compressed Shift Left Logical Immediate",
        COpcode::CSRLI { .. } => "Compressed Shift Right Logical Immediate",
        COpcode::CLI { .. } => "Compressed Load Immediate",
        COpcode::CJR { .. } => "Compressed Jump Register",
        COpcode::CADD { .. } => "Compressed Add",
        COpcode::CADDW { .. } => "Compressed Add Word",
        COpcode::CSUBW { .. } => "Compressed Subtract Word",
        COpcode::COR { .. } => "Compressed bitwise Or",
        COpcode::CAND { .. } => "Compressed bitwise And",
        COpcode::CANDI { .. } => "Compressed bitwise AND Immediate",
        COpcode::CJ { .. } => "Compressed Jump",
        COpcode::BEQZ { .. } => "Compressed Branch Equal Zero",
        COpcode::BNEZ { .. } => "Compressed Branch Not Equal Zero",
        COpcode::SDSP { .. } => "Compressed Store Doubleword at Stack Pointer",
        COpcode::LDSP { .. } => "Compressed Load Doubleword at Stack Pointer",
        COpcode::LD { .. } => "Compressed Load Doubleword from memory",
        COpcode::SW { .. } => "Compressed Store Word to memory",
        COpcode::SD { .. } => "Compressed Store Double-word to memory",
        COpcode::LW { .. } => "Compressed Load Word to memory",
        COpcode::ADDIW { .. } => "Compressed Add Immediate Word",
        COpcode::ADDI4SPN { .. } => "Compressed Add Immediate * 4 to Stack Pointer (x2)",
        COpcode::MV { .. } => "Compressed Move",
        COpcode::Hint => "HINT (NOP)",
        COpcode::Uknown => "Unknown RVC instruction",
        COpcode::Reserved => "Reserved RVC instruction",
    };
    String::from_str(t)
}

/// The registers a compressed instruction reads and writes: (rs1, rs2, rd).
pub fn disasm_rvc_get_used_regs(instr: u16) -> (r: (Option<u8>, Option<u8>, Option<u8>))
    ensures
        r == rvc_used_regs(instr),
{
    match rv64c_decode_instr(instr) {
        COpcode::CNOP => (None, None, None),
        COpcode::CADDI { rd, .. } => (Some(rd), None, Some(rd)),
        COpcode::CLUI { rd, .. } => (None, None, Some(rd)),
        COpcode::ADDI16SP { .. } => (Some(2), None, Some(2)),
        COpcode::CSLLI { rd, .. } => (Some(rd), None, Some(rd)),
        COpcode::CSRLI { rd, .. } => (Some(rd), None, Some(rd)),
        COpcode::CLI { rd, .. } => (None, None, Some(rd)),
        COpcode::CJR { rs1 } => (Some(rs1), None, None),
        COpcode::CADD { rd, rs2 } => (Some(rd), Some(rs2), Some(rd)),
        COpcode::CADDW { rd, rs2 } => (Some(rd), Some(rs2), Some(rd)),
        COpcode::CSUBW { rd, rs2 } => (Some(rd), Some(rs2), Some(rd)),
        COpcode::COR { rd, rs2 } => (Some(rd), Some(rs2), Some(rd)),
        COpcode::CAND { rd, rs2 } => (Some(rd), Some(rs2), Some(rd)),
        COpcode::CANDI { rd, .. } => (Some(rd), None, Some(rd)),
        COpcode::CJ { .. } => (None, None, None),
        COpcode::BEQZ { rs1, .. } => (Some(rs1), None, None),
        COpcode::BNEZ { rs1, .. } => (Some(rs1), None, None),
        COpcode::SDSP { rs2, .. } => (Some(2), Some(rs2), None),
        COpcode::LDSP { rd, .. } => (Some(2), None, Some(rd)),
        COpcode::LD { rs1, rd, .. } => (Some(rs1), None, Some(rd)),
        COpcode::SW { rs1, rs2, .. } => (Some(rs1), Some(rs2), None),
        COpcode::SD { rs1, rs2, .. } => (Some(rs1), Some(rs2), None),
        COpcode::LW { rs1, rd, .. } => (Some(rs1), None, Some(rd)),
        COpcode::ADDIW { rd, .. } => (Some(rd), None, Some(rd)),
        COpcode::ADDI4SPN { rd, .. } => (Some(2), None, Some(rd)),
        COpcode::MV { rd, rs2 } => (None, Some(rs2), Some(rd)),
        COpcode::Hint => (None, None, None),
        COpcode::Uknown => (None, None, None),
        COpcode::Reserved => (None, None, None),
    }
}

/// `rd = rd <op> rs2`.
fn rr_string(rd: u8, op: &str, rs2: u8) -> (s: String)
    ensures
        s@ == rr_text(rd, op@, rs2),
{
    let mut s = reg_string(rd);
    push_text(&mut s, " = ");
    push_reg(&mut s, rd);
    push_text(&mut s, op);
    push_reg(&mut s, rs2);
    s
}

/// `rd<head>rd<mid>rs2<tail>`, the shape of the word operations.
fn rrw_string(rd: u8, mid: &str, rs2: u8) -> (s: String)
    ensures
        s@ == reg_name(rd) + "[31:0] = "@ + reg_name(rd) + mid@ + reg_name(rs2)
            + "[31:0]; sign extend"@,
{
    let mut s = reg_string(rd);
    push_text(&mut s, "[31:0] = ");
    push_reg(&mut s, rd);
    push_text(&mut s, mid);
    push_reg(&mut s, rs2);
    push_text(&mut s, "[31:0]; sign extend");
    s
}

/// Pseudo code of a compressed instruction.
#[verifier::spinoff_prover]
pub fn disasm_rvc_pseudo_code(instr: u16) -> (r: String)
    ensures
        r@ == rvc_pseudo_code(instr),
{
    match rv64c_decode_instr(instr) {
        COpcode::CNOP => String::new(),
        COpcode::CADDI { imm6, rd } => {
            let mut s = reg_string(rd);
            push_text(&mut s, " = ");
            push_reg(&mut s, rd);
            push_text(&mut s, " + 0x");
            push_hex(&mut s, (imm6.0 as u8) as u64);
            s
        },
        COpcode::CLUI { imm6, rd } => {
            let mut s = reg_string(rd);
            push_text(&mut s, " = 0x");
            push_hex(&mut s, (imm6.0 as u8) as u64);
            push_text(&mut s, " << 12");
            s
        },
        COpcode::ADDI16SP { imm6 } => {
            let mut s = String::from_str("x2 = x2 ");
            push_plus(&mut s, (((imm6.0 as i16) * 16) as i8) as i64);
            s
        },
        COpcode::CSLLI { uimm6, rd } => {
            let mut s = reg_string(rd);
            push_text(&mut s, " = ");
            push_reg(&mut s, rd);
            push_text(&mut s, " << ");
            push_dec(&mut s, uimm6 as u64);
            s
        },
        COpcode::CSRLI { shamt6, rd } => {
            let mut s = reg_string(rd);
            push_text(&mut s, " = ");
            push_reg(&mut s, rd);
            push_text(&mut s, " >> ");
            push_dec(&mut s, shamt6 as u64);
            s
        },
        COpcode::CLI { imm6, rd } => {
            let mut s = reg_string(rd);
            push_text(&mut s, " = ");
            push_hex(&mut s, (imm6.0 as u8) as u64);
            s
        },
        COpcode::CJR { rs1 } => {
            let mut s = String::from_str("PC = ");
            push_reg(&mut s, rs1);
            s
        },
        COpcode::CADD { rd, rs2 } => rr_string(rd, " + ", rs2),
        COpcode::CADDW { rd, rs2 } => rrw_string(rd, "[31:0] + ", rs2),
        COpcode::CSUBW { rd, rs2 } => rrw_string(rd, "[31:0] - ", rs2),
        COpcode::COR { rd, rs2 } => rr_string(rd, " | ", rs2),
        COpcode::CAND { rd, rs2 } => rr_string(rd, " & ", rs2),
        COpcode::CANDI { imm6, rd } => {
            let mut s = reg_string(rd);
            push_text(&mut s, " = ");
            push_reg(&mut s, rd);
            push_text(&mut s, " & 0x");
            push_hex(&mut s, (imm6.0 as u8) as u64);
            s
        },
        COpcode::CJ { imm12 } => {
            let mut s = String::from_str("PC = PC + ");
            push_hex(&mut s, (imm12.0 as u16) as u64);
            s
        },
        COpcode::BEQZ { imm9, rs1 } => {
            let mut s = String::from_str("if ");
            push_reg(&mut s, rs1);
            push_text(&mut s, " == 0 then PC = PC ");
            push_plus(&mut s, imm9.0 as i64);
            s
        },
        COpcode::BNEZ { imm9, rs1 } => {
            let mut s = String::from_str("if ");
            push_reg(&mut s, rs1);
            push_text(&mut s, " != 0 then PC = PC ");
            push_plus(&mut s, imm9.0 as i64);
            s
        },
        COpcode::SDSP { uimm6, rs2 } => {
            let mut s = String::from_str("mem64[x2 ");
            push_plus(&mut s, ((uimm6 as u64 * 8) % 256) as i64);
            push_text(&mut s, "] = ");
            push_reg(&mut s, rs2);
            s
        },
        COpcode::LDSP { uimm6, rd } => {
            let mut s = reg_string(rd);
            push_text(&mut s, " = mem64[x2 ");
            push_plus(&mut s, ((uimm6 as u64 * 8) % 256) as i64);
            push_text(&mut s, "]");
            s
        },
        COpcode::LD { uoff8, rs1, rd } => {
            let mut s = reg_string(rd);
            push_text(&mut s, " = mem64[");
            push_reg(&mut s, rs1);
            push_text(&mut s, " + ");
            push_dec(&mut s, uoff8 as u64);
            push_text(&mut s, "]");
            s
        },
        COpcode::SW { uoff7, rs1, rs2 } => {
            let mut s = String::from_str("mem32[");
            push_reg(&mut s, rs1);
            push_text(&mut s, " + ");
            push_dec(&mut s, uoff7 as u64);
            push_text(&mut s, "] = ");
            push_reg(&mut s, rs2);
            s
        },
        COpcode::SD { uoff8, rs1, rs2 } => {
            let mut s = String::from_str("mem64[");
            push_reg(&mut s, rs1);
            push_text(&mut s, " + ");
            push_dec(&mut s, uoff8 as u64);
            push_text(&mut s, "] = ");
            push_reg(&mut s, rs2);
            s
        },
        COpcode::LW { uoff7, rs1, rd } => {
            let mut s = reg_string(rd);
            push_text(&mut s, "[31:0] = mem32[");
            push_reg(&mut s, rs1);
            push_text(&mut s, " + ");
            push_dec(&mut s, uoff7 as u64);
            push_text(&mut s, "]; sign extend");
            s
        },
        COpcode::ADDIW { rd, uimm6 } => {
            let mut s = reg_string(rd);
            push_text(&mut s, " = ");
            push_reg(&mut s, rd);
            push_text(&mut s, " + ");
            push_dec(&mut s, uimm6 as u64);
            s
        },
        COpcode::ADDI4SPN { uimm8, rd } => {
            let mut s = reg_string(rd);
            push_text(&mut s, " = x2 + ");
            push_dec(&mut s, uimm8 as u64);
            push_text(&mut s, " * 4");
            s
        },
        COpcode::MV { rd, rs2 } => {
            let mut s = reg_string(rd);
            push_text(&mut s, " = ");
            push_reg(&mut s, rs2);
            s
        },
        COpcode::Hint => String::from_str("HINT (NOP)"),
        COpcode::Uknown => String::from_str("Unknown RVC instruction"),
        COpcode::Reserved => String::from_str("Reserved RVC instruction"),
    }
}

/// `<m>rd, rs2`.
fn two_regs_string(m: &str, rd: u8, rs2: u8) -> (s: String)
    ensures
        s@ == two_regs(m@, rd, rs2),
{
    let mut s = String::from_str(m);
    push_reg(&mut s, rd);
    push_text(&mut s, ", ");
    push_reg(&mut s, rs2);
    s
}

/// `<m>r, <off>(x<base>)`.
fn mem_op_string(m: &str, r: u8, off: u64, base: u8) -> (s: String)
    ensures
        s@ == mem_op(m@, r, off as nat, reg_name(base)),
{
    let mut s = String::from_str(m);
    push_reg(&mut s, r);
    push_text(&mut s, ", ");
    push_dec(&mut s, off);
    push_text(&mut s, "(");
    push_reg(&mut s, base);
    push_text(&mut s, ")");
    s
}

/// `<m>r, <off>(x2)`.
fn sp_op_string(m: &str, r: u8, off: u64) -> (s: String)
    ensures
        s@ == mem_op(m@, r, off as nat, "x2"@),
{
    let mut s = String::from_str(m);
    push_reg(&mut s, r);
    push_text(&mut s, ", ");
    push_dec(&mut s, off);
    push_text(&mut s, "(");
    push_text(&mut s, "x2");
    push_text(&mut s, ")");
    s
}

/// Assembly text of a compressed instruction at `instr_addr`.
#[verifier::spinoff_prover]
pub fn disasm_rvc(c_instr: u16, instr_addr: u64) -> (r: String)
    ensures
        r@ == rvc_asm(c_instr, instr_addr),
{
    match rv64c_decode_instr(c_instr) {
        COpcode::CNOP => String::from_str("nop"),
        COpcode::CADDI { imm6, rd } => {
            let mut s = String::from_str("c.addi ");
            push_reg(&mut s, rd);
            push_text(&mut s, ", ");
            push_signed(&mut s, imm6.0 as i64);
            s
        },
        COpcode::CLUI { imm6, rd } => {
            let mut s = String::from_str("c.lui ");
            push_reg(&mut s, rd);
            push_text(&mut s, ", 0x");
            push_hex(&mut s, (imm6.0 as u8) as u64);
            s
        },
        COpcode::ADDI16SP { imm6 } => {
            let mut s = String::from_str("c.addi16sp x2, ");
            push_plus(&mut s, (imm6.0 as i64) * 16);
            s
        },
        COpcode::CSLLI { uimm6, rd } => {
            let mut s = String::from_str("c.slli ");
            push_reg(&mut s, rd);
            push_text(&mut s, ", 0x");
            push_hex(&mut s, uimm6 as u64);
            s
        },
        COpcode::CSRLI { shamt6, rd } => {
            let mut s = String::from_str("c.srli ");
            push_reg(&mut s, rd);
            push_text(&mut s, ", 0x");
            push_hex(&mut s, shamt6 as u64);
            s
        },
        COpcode::CLI { imm6, rd } => {
            let mut s = String::from_str("c.li ");
            push_reg(&mut s, rd);
            push_text(&mut s, ", ");
            push_signed(&mut s, imm6.0 as i64);
            s
        },
        COpcode::CJR { rs1 } => {
            let mut s = String::from_str("c.jr ");
            push_reg(&mut s, rs1);
            s
        },
        COpcode::CADD { rd, rs2 } => two_regs_string("c.add ", rd, rs2),
        COpcode::CADDW { rd, rs2 } => two_regs_string("c.addw ", rd, rs2),
        COpcode::CSUBW { rd, rs2 } => two_regs_string("c.subw ", rd, rs2),
        COpcode::COR { rd, rs2 } => two_regs_string("c.or ", rd, rs2),
        COpcode::CAND { rd, rs2 } => two_regs_string("c.and ", rd, rs2),
        COpcode::CANDI { imm6, rd } => {
            let mut s = String::from_str("c.andi ");
            push_reg(&mut s, rd);
            push_text(&mut s, ", ");
            push_signed(&mut s, imm6.0 as i64);
            s
        },
        COpcode::CJ { imm12 } => {
            let mut s = String::from_str("c.j ");
            push_hex(&mut s, instr_addr.add_i12(imm12));
            s
        },
        COpcode::BEQZ { imm9, rs1 } => {
            let mut s = String::from_str("c.beqz ");
            push_reg(&mut s, rs1);
            push_text(&mut s, ", 0x");
            push_hex(&mut s, instr_addr.add_i9(imm9));
            s
        },
        COpcode::BNEZ { imm9, rs1 } => {
            let mut s = String::from_str("c.bnez ");
            push_reg(&mut s, rs1);
            push_text(&mut s, ", 0x");
            push_hex(&mut s, instr_addr.add_i9(imm9));
            s
        },
        COpcode::SDSP { uimm6, rs2 } => sp_op_string("c.sdsp ", rs2, (uimm6 as u64 * 8) % 256),
        COpcode::LDSP { uimm6, rd } => sp_op_string("c.ldsp ", rd, (uimm6 as u64 * 8) % 256),
        COpcode::LD { uoff8, rs1, rd } => mem_op_string("c.ld ", rd, uoff8 as u64, rs1),
        COpcode::SW { uoff7, rs1, rs2 } => mem_op_string("c.sw ", rs2, uoff7 as u64, rs1),
        COpcode::SD { uoff8, rs1, rs2 } => mem_op_string("c.sd ", rs2, uoff8 as u64, rs1),
        COpcode::LW { uoff7, rs1, rd } => mem_op_string("c.lw ", rd, uoff7 as u64, rs1),
        COpcode::ADDIW { rd, uimm6 } => {
            let mut s = String::from_str("c.addiw ");
            push_reg(&mut s, rd);
            push_text(&mut s, ", ");
            push_dec(&mut s, uimm6 as u64);
            s
        },
        COpcode::ADDI4SPN { uimm8, rd } => {
            let mut s = String::from_str("c.addi4spn ");
            push_reg(&mut s, rd);
            push_text(&mut s, ", x2, ");
            push_dec(&mut s, (uimm8 as u64 * 4) % 256);
            s
        },
        COpcode::MV { rd, rs2 } => two_regs_string("c.mv ", rd, rs2),
        COpcode::Hint => String::from_str("HINT (NOP)"),
        COpcode::Uknown => String::from_str("Unknown RVC instruction"),
        COpcode::Reserved => String::from_str("Reserved RVC instruction"),
    }
}

} // verus!
