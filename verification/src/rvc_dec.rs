//! Decoder of 16-bit compressed (RVC) RV64 instructions.
use crate::alu::{sign_extend, I12, I6, I9};
use crate::bits::{field, BitOps};
use vstd::arithmetic::power2::lemma2_to64;
use vstd::prelude::*;

verus! {

/// A decoded compressed instruction.
pub enum COpcode {
    CNOP,
    CADDI { imm6: I6, rd: u8 },
    CLUI { imm6: I6, rd: u8 },
    ADDI16SP { imm6: I6 },
    CSLLI { uimm6: u8, rd: u8 },
    /// Shift Right Logical Immediate
    CSRLI { shamt6: u8, rd: u8 },
    CLI { imm6: I6, rd: u8 },
    CJR { rs1: u8 },
    CADD { rd: u8, rs2: u8 },
    CADDW { rd: u8, rs2: u8 },
    CSUBW { rd: u8, rs2: u8 },
    CANDI { imm6: I6, rd: u8 },
    COR { rd: u8, rs2: u8 },
    CAND { rd: u8, rs2: u8 },
    CJ { imm12: I12 },
    BEQZ { imm9: I9, rs1: u8 },
    BNEZ { imm9: I9, rs1: u8 },
    SDSP { uimm6: u8, rs2: u8 },
    LDSP { uimm6: u8, rd: u8 },
    ADDI4SPN { uimm8: u8, rd: u8 },
    LD { uoff8: u8, rs1: u8, rd: u8 },
    SW { uoff7: u8, rs1: u8, rs2: u8 },
    SD { uoff8: u8, rs1: u8, rs2: u8 },
    LW { uoff7: u8, rs1: u8, rd: u8 },
    MV { rd: u8, rs2: u8 },
    ADDIW { rd: u8, uimm6: u8 },
    Hint,
    Reserved,
    Uknown,
}

/// RVC (compressed) instruction opcodes (inst[15:13] ++ inst[1:0])
/// add immediate x 4 to SP
pub const OPC_C_ADDI4SPN: u8 = 0b_000_00;
/// Load Word
pub const OPC_C_LW: u8 = 0b_010_00;
/// Load Double-word
pub const OPC_C_LD: u8 = 0b_011_00;
/// Store Word
pub const OPC_C_SW: u8 = 0b_110_00;
/// Store Double-word
pub const OPC_C_SD: u8 = 0b_111_00;
pub const OPC_C_NOP_ADDI: u8 = 0b_000_01;
/// Add Immediate Word
pub const OPC_C_ADDIW: u8 = 0b_001_01;
pub const OPC_C_LI: u8 = 0b_010_01;
pub const OPC_C_LUI_ADDI16SP: u8 = 0b_011_01;
/// C.{SRLI, SRAI, ANDI, SUB, XOR, OR, AND, SUBW, ADDW}
pub const OPC_C_MISC_ALU: u8 = 0b_100_01;
pub const OPC_C_J: u8 = 0b_101_01;
/// Branch Equal Zero
pub const OPC_C_BEQZ: u8 = 0b_110_01;
/// Branch Not Equal Zero
pub const OPC_C_BNEZ: u8 = 0b_111_01;
/// shift logical left immediate
pub const OPC_C_SLLI: u8 = 0b_000_10;
pub const OPC_C_JR_MV_EBREAK_JALR_ADD: u8 = 0b_100_10;
/// Store (in memory) Dword by Stack Pointer
pub const OPC_C_SDSP: u8 = 0b_111_10;
/// Load (from memory) Dword by Stack Pointer
pub const OPC_C_LDSP: u8 = 0b_011_10;

/// Bits `hi..=lo` of a compressed instruction.
pub open spec fn cf(c: u16, hi: nat, lo: nat) -> nat {
    field(c as nat, hi, lo)
}

/// The 5-bit opcode: inst[15:13] ++ inst[1:0].
pub open spec fn c_opcode_of(c: u16) -> u8 {
    (cf(c, 15, 13) * 4 + cf(c, 1, 0)) as u8
}

/// inst[11:7] (rd, and rs1 where it is the same register).
pub open spec fn c_rd_of(c: u16) -> u8 {
    cf(c, 11, 7) as u8
}

/// inst[6:2]
pub open spec fn c_rs2_of(c: u16) -> u8 {
    cf(c, 6, 2) as u8
}

/// The register x8..x15 that the 3-bit field inst[4:2] names.
pub open spec fn c_rd_s_of(c: u16) -> u8 {
    (cf(c, 4, 2) + 8) as u8
}

/// The register x8..x15 that the 3-bit field inst[9:7] names.
pub open spec fn c_rs1_s_of(c: u16) -> u8 {
    (cf(c, 9, 7) + 8) as u8
}

/// inst[12] ++ inst[6:2]
pub open spec fn c_imm6_bits(c: u16) -> nat {
    cf(c, 12, 12) * 32 + cf(c, 6, 2)
}

/// The CI-format signed immediate.
pub open spec fn c_imm6(c: u16) -> int {
    sign_extend(c_imm6_bits(c), 6)
}

/// The CB-format branch offset: imm[8|4:3] in inst[12:10], imm[7:6|2:1|5] in inst[6:2].
pub open spec fn c_imm9(c: u16) -> int {
    sign_extend(
        cf(c, 12, 12) * 256 + cf(c, 6, 5) * 64 + cf(c, 2, 2) * 32 + cf(c, 11, 10) * 8 + cf(c, 4, 3)
            * 2,
        9,
    )
}

/// The CJ-format jump offset: imm[11|4|9:8|10|6|7|3:1|5] in inst[12:2].
pub open spec fn c_imm12(c: u16) -> int {
    sign_extend(
        cf(c, 12, 12) * 2048 + cf(c, 11, 11) * 16 + cf(c, 10, 9) * 256 + cf(c, 8, 8) * 1024 + cf(
            c,
            7,
            7,
        ) * 64 + cf(c, 6, 6) * 128 + cf(c, 5, 3) * 2 + cf(c, 2, 2) * 32,
        12,
    )
}

/// The C.ADDI16SP immediate nzimm[9|4|6|8:7|5] (in units of 16), sign-extended.
pub open spec fn c_imm_addi16sp(c: u16) -> int {
    sign_extend(
        cf(c, 12, 12) * 32 + cf(c, 4, 3) * 8 + cf(c, 5, 5) * 4 + cf(c, 2, 2) * 2 + cf(c, 6, 6),
        6,
    )
}

/// Decoding of the CA/CB arithmetic group (opcode 100_01).
pub open spec fn spec_decode_misc_alu(c: u16) -> COpcode {
    let bit12 = cf(c, 12, 12);
    let bits11_10 = cf(c, 11, 10);
    let bits6_5 = cf(c, 6, 5);
    let rd = c_rs1_s_of(c);
    let rs2 = c_rd_s_of(c);
    if bit12 == 0 && bits11_10 == 0 {
        COpcode::Hint
    } else if bits11_10 == 0 {
        COpcode::CSRLI { shamt6: c_imm6_bits(c) as u8, rd }
    } else if bit12 == 1 && bits11_10 == 3 && bits6_5 == 1 {
        COpcode::CADDW { rd, rs2 }
    } else if bit12 == 1 && bits11_10 == 3 && bits6_5 == 0 {
        COpcode::CSUBW { rd, rs2 }
    } else if bits11_10 == 2 {
        COpcode::CANDI { imm6: I6(c_imm6(c) as i8), rd }
    } else if bit12 == 0 && bits11_10 == 3 && bits6_5 == 2 {
        COpcode::COR { rd, rs2 }
    } else if bit12 == 0 && bits11_10 == 3 && bits6_5 == 3 {
        COpcode::CAND { rd, rs2 }
    } else {
        COpcode::Uknown
    }
}

/// Decoding of the register group (opcode 100_10): C.JR, C.MV, C.ADD.
pub open spec fn spec_decode_cr(c: u16) -> COpcode {
    let rs2 = c_rs2_of(c);
    let rs1 = c_rd_of(c);
    let bit12 = cf(c, 12, 12);
    if bit12 == 0 && rs1 == 0 && rs2 == 0 {
        COpcode::Reserved
    } else if bit12 == 0 && rs1 == 0 {
        COpcode::Hint
    } else if bit12 == 0 && rs2 == 0 {
        COpcode::CJR { rs1 }
    } else if bit12 == 0 {
        COpcode::MV { rd: rs1, rs2 }
    } else if rs1 != 0 && rs2 != 0 {
        COpcode::CADD { rd: rs1, rs2 }
    } else {
        COpcode::Uknown
    }
}

/// What a compressed instruction decodes to.
pub open spec fn spec_decode_c(c: u16) -> COpcode {
    let rd = c_rd_of(c);
    let opc = c_opcode_of(c);
    if opc == OPC_C_NOP_ADDI {
        if rd == 0 {
            COpcode::CNOP
        } else {
            COpcode::CADDI { imm6: I6(c_imm6(c) as i8), rd }
        }
    } else if opc == OPC_C_SLLI {
        if c_imm6_bits(c) != 0 && rd != 0 {
            COpcode::CSLLI { uimm6: c_imm6_bits(c) as u8, rd }
        } else {
            COpcode::Hint
        }
    } else if opc == OPC_C_LI && rd != 0 {
        COpcode::CLI { imm6: I6(c_imm6(c) as i8), rd }
    } else if opc == OPC_C_LUI_ADDI16SP {
        if rd == 0 {
            COpcode::Hint
        } else if c_imm6(c) == 0 {
            COpcode::Reserved
        } else if rd == 2 {
            COpcode::ADDI16SP { imm6: I6(c_imm_addi16sp(c) as i8) }
        } else {
            COpcode::CLUI { imm6: I6(c_imm6(c) as i8), rd }
        }
    } else if opc == OPC_C_J {
        COpcode::CJ { imm12: I12(c_imm12(c) as i16) }
    } else if opc == OPC_C_BEQZ {
        COpcode::BEQZ { imm9: I9(c_imm9(c) as i16), rs1: c_rs1_s_of(c) }
    } else if opc == OPC_C_BNEZ {
        COpcode::BNEZ { imm9: I9(c_imm9(c) as i16), rs1: c_rs1_s_of(c) }
    } else if opc == OPC_C_JR_MV_EBREAK_JALR_ADD {
        spec_decode_cr(c)
    } else if opc == OPC_C_SDSP {
        COpcode::SDSP { uimm6: (cf(c, 9, 7) * 8 + cf(c, 12, 10)) as u8, rs2: c_rs2_of(c) }
    } else if opc == OPC_C_LDSP {
        if rd != 0 {
            COpcode::LDSP {
                uimm6: (cf(c, 4, 2) * 8 + cf(c, 12, 12) * 4 + cf(c, 6, 5)) as u8,
                rd,
            }
        } else {
            COpcode::Reserved
        }
    } else if opc == OPC_C_ADDI4SPN {
        let nz_uimm8 = cf(c, 10, 7) * 16 + cf(c, 12, 11) * 4 + cf(c, 5, 5) * 2 + cf(c, 6, 6);
        if nz_uimm8 == 0 {
            COpcode::Reserved
        } else {
            COpcode::ADDI4SPN { uimm8: nz_uimm8 as u8, rd: c_rd_s_of(c) }
        }
    } else if opc == OPC_C_LD {
        COpcode::LD {
            uoff8: (cf(c, 6, 5) * 64 + cf(c, 12, 10) * 8) as u8,
            rs1: c_rs1_s_of(c),
            rd: c_rd_s_of(c),
        }
    } else if opc == OPC_C_SD {
        COpcode::SD {
            uoff8: (cf(c, 6, 5) * 64 + cf(c, 12, 10) * 8) as u8,
            rs1: c_rs1_s_of(c),
            rs2: c_rd_s_of(c),
        }
    } else if opc == OPC_C_SW {
        COpcode::SW {
            uoff7: (cf(c, 5, 5) * 64 + cf(c, 12, 10) * 8 + cf(c, 6, 6) * 4) as u8,
            rs1: c_rs1_s_of(c),
            rs2: c_rd_s_of(c),
        }
    } else if opc == OPC_C_LW {
        COpcode::LW {
            uoff7: (cf(c, 5, 5) * 64 + cf(c, 12, 10) * 8 + cf(c, 6, 6) * 4) as u8,
            rs1: c_rs1_s_of(c),
            rd: c_rd_s_of(c),
        }
    } else if opc == OPC_C_ADDIW {
        if rd != 0 {
            COpcode::ADDIW { rd, uimm6: c_imm6_bits(c) as u8 }
        } else {
            COpcode::Reserved
        }
    } else if opc == OPC_C_MISC_ALU {
        spec_decode_misc_alu(c)
    } else {
        COpcode::Uknown
    }
}

/// The register fields of a compressed instruction lie in their ranges.
pub proof fn lemma_c_fields_in_range(c: u16)
    ensures
        c_rd_of(c) < 32,
        c_rs2_of(c) < 32,
        8 <= c_rd_s_of(c) < 16,
        8 <= c_rs1_s_of(c) < 16,
{
    lemma2_to64();
}

/// Whether the low 16 bits of `instr` hold a compressed (16-bit) instruction.
pub open spec fn is_rvc(instr: u32) -> bool {
    instr % 4 != 3
}

/// Checks whether the instruction is in compressed format (16-bit).
pub fn instr_is_rvc(instr: u32) -> (r: bool)
    ensures
        r == is_rvc(instr),
{
    assert((instr & 0x3 != 0x3) == (instr % 4 != 3)) by (bit_vector);
    instr & 0x3 != 0x3
}

/// The 5-bit opcode of a compressed instruction.
pub fn c_i_opcode(c_instr: u16) -> (r: u8)
    ensures
        r == c_opcode_of(c_instr),
        r < 32,
{
    proof {
        lemma2_to64();
    }
    let a = c_instr.bits(15, 13);
    let b = c_instr.bits(1, 0);
    let v = a << 2 | b;
    assert(v == a * 4 + b && v < 32) by (bit_vector)
        requires
            a < 8,
            b < 4,
            v == a << 2 | b,
    ;
    v as u8
}

/// The `inst[12] ++ inst[6:2]` bits, as an unsigned number.
fn c_imm6_raw(c_instr: u16) -> (r: u16)
    ensures
        r == c_imm6_bits(c_instr),
        r < 64,
{
    proof {
        lemma2_to64();
    }
    let a = c_instr.bits(12, 12);
    let b = c_instr.bits(6, 2);
    let v = a << 5 | b;
    assert(v == a * 32 + b && v < 64) by (bit_vector)
        requires
            a < 2,
            b < 32,
            v == a << 5 | b,
    ;
    v
}

/// Decodes the signed 6-bit immediate of the CI format.
pub fn c_i_imm6(c_instr: u16) -> (r: I6)
    ensures
        r.0 == c_imm6(c_instr),
{
    I6::from_u16(c_imm6_raw(c_instr))
}

/// Decodes the 9-bit branch offset of C.BEQZ and C.BNEZ.
fn c_i_imm9(c_instr: u16) -> (r: I9)
    ensures
        r.0 == c_imm9(c_instr),
{
    proof {
        lemma2_to64();
    }
    let a = c_instr.bits(12, 12);
    let b = c_instr.bits(6, 5);
    let c = c_instr.bits(2, 2);
    let d = c_instr.bits(11, 10);
    let e = c_instr.bits(4, 3);
    let imm9: u16 = a << 8 | b << 6 | c << 5 | d << 3 | e << 1;
    assert(imm9 == a * 256 + b * 64 + c * 32 + d * 8 + e * 2 && imm9 < 0x200) by (bit_vector)
        requires
            a < 2,
            b < 4,
            c < 2,
            d < 4,
            e < 4,
            imm9 == a << 8 | b << 6 | c << 5 | d << 3 | e << 1,
    ;
    I9::from_u16(imm9)
}

/// Decodes the signed 12-bit jump offset of C.J and C.JAL.
pub fn c_i_imm12(c_instr: u16) -> (r: I12)
    ensures
        r.0 == c_imm12(c_instr),
{
    proof {
        lemma2_to64();
    }
    let b12 = c_instr.bits(12, 12);
    let b11 = c_instr.bits(11, 11);
    let b10_9 = c_instr.bits(10, 9);
    let b8 = c_instr.bits(8, 8);
    let b7 = c_instr.bits(7, 7);
    let b6 = c_instr.bits(6, 6);
    let b5_3 = c_instr.bits(5, 3);
    let b2 = c_instr.bits(2, 2);
    let v: u16 = b12 << 11 | b11 << 4 | b10_9 << 8 | b8 << 10 | b7 << 6 | b6 << 7 | b5_3 << 1 | b2
        << 5;
    assert(v == b12 * 2048 + b11 * 16 + b10_9 * 256 + b8 * 1024 + b7 * 64 + b6 * 128 + b5_3 * 2
        + b2 * 32 && v < 0x1000) by (bit_vector)
        requires
            b12 < 2,
            b11 < 2,
            b10_9 < 4,
            b8 < 2,
            b7 < 2,
            b6 < 2,
            b5_3 < 8,
            b2 < 2,
            v == b12 << 11 | b11 << 4 | b10_9 << 8 | b8 << 10 | b7 << 6 | b6 << 7 | b5_3 << 1 | b2
                << 5,
    ;
    I12::from_u16(v)
}

/// The rd (or rs1) field inst[11:7].
pub fn c_i_rd(c_instr: u16) -> (r: u8)
    ensures
        r == c_rd_of(c_instr),
        r < 32,
{
    proof {
        lemma2_to64();
    }
    c_instr.bits(11, 7) as u8
}

/// The rd' field inst[4:2], naming x8..x15.
pub fn c_i_rd_s(c_instr: u16) -> (r: u8)
    ensures
        r == c_rd_s_of(c_instr),
        8 <= r < 16,
{
    proof {
        lemma2_to64();
    }
    c_instr.bits(4, 2) as u8 + 8
}

/// The rs1' field inst[9:7], naming x8..x15.
pub fn c_i_rs1_s(c_instr: u16) -> (r: u8)
    ensures
        r == c_rs1_s_of(c_instr),
        8 <= r < 16,
{
    proof {
        lemma2_to64();
    }
    c_instr.bits(9, 7) as u8 + 8
}

/// The rs2' field inst[4:2], naming x8..x15.
pub fn c_i_rs2_s(c_instr: u16) -> (r: u8)
    ensures
        r == c_rd_s_of(c_instr),
        8 <= r < 16,
{
    c_i_rd_s(c_instr)
}

/// The rs1 field inst[11:7].
pub fn c_i_rs1(c_instr: u16) -> (r: u8)
    ensures
        r == c_rd_of(c_instr),
        r < 32,
{
    c_i_rd(c_instr)
}

/// The rs2 field inst[6:2].
pub fn c_i_rs2(c_instr: u16) -> (r: u8)
    ensures
        r == c_rs2_of(c_instr),
        r < 32,
{
    proof {
        lemma2_to64();
    }
    c_instr.bits(6, 2) as u8
}

fn decode_misc_alu(c_instr: u16) -> (r: COpcode)
    ensures
        r == spec_decode_misc_alu(c_instr),
{
    proof {
        lemma2_to64();
    }
    let bit12 = c_instr.bits(12, 12);
    let bits11_10 = c_instr.bits(11, 10);
    let bits6_5 = c_instr.bits(6, 5);
    let rd = c_i_rs1_s(c_instr);
    let rs2 = c_i_rd_s(c_instr);
    if bit12 == 0 && bits11_10 == 0 {
        COpcode::Hint
    } else if bits11_10 == 0 {
        COpcode::CSRLI { shamt6: c_imm6_raw(c_instr) as u8, rd }
    } else if bit12 == 1 && bits11_10 == 3 && bits6_5 == 1 {
        COpcode::CADDW { rd, rs2 }
    } else if bit12 == 1 && bits11_10 == 3 && bits6_5 == 0 {
        COpcode::CSUBW { rd, rs2 }
    } else if bits11_10 == 2 {
        COpcode::CANDI { imm6: c_i_imm6(c_instr), rd }
    } else if bit12 == 0 && bits11_10 == 3 && bits6_5 == 2 {
        COpcode::COR { rd, rs2 }
    } else if bit12 == 0 && bits11_10 == 3 && bits6_5 == 3 {
        COpcode::CAND { rd, rs2 }
    } else {
        COpcode::Uknown
    }
}

fn decode_cr(c_instr: u16) -> (r: COpcode)
    ensures
        r == spec_decode_cr(c_instr),
{
    proof {
        lemma2_to64();
    }
    let rs2 = c_i_rs2(c_instr);
    let rs1 = c_i_rs1(c_instr);
    let bit12 = c_instr.bits(12, 12);
    if bit12 == 0 && rs1 == 0 && rs2 == 0 {
        COpcode::Reserved
    } else if bit12 == 0 && rs1 == 0 {
        COpcode::Hint
    } else if bit12 == 0 && rs2 == 0 {
        COpcode::CJR { rs1 }
    } else if bit12 == 0 {
        COpcode::MV { rd: rs1, rs2 }
    } else if rs1 != 0 && rs2 != 0 {
        COpcode::CADD { rd: rs1, rs2 }
    } else {
        COpcode::Uknown
    }
}

/// Decodes a compressed (16 bit) RV64 instruction.
pub fn rv64c_decode_instr(c_instr: u16) -> (r: COpcode)
    ensures
        r == spec_decode_c(c_instr),
{
    proof {
        lemma2_to64();
    }
    let rd = c_i_rd(c_instr);
    let opc = c_i_opcode(c_instr);
    if opc == OPC_C_NOP_ADDI {
        let imm6 = c_i_imm6(c_instr);
        if rd == 0 {
            COpcode::CNOP
        } else {
            COpcode::CADDI { imm6, rd }
        }
    } else if opc == OPC_C_SLLI {
        let uimm6: u8 = c_imm6_raw(c_instr) as u8;
        if uimm6 != 0 && rd != 0 {
            COpcode::CSLLI { uimm6, rd }
        } else {
            COpcode::Hint
        }
    } else if opc == OPC_C_LI && rd != 0 {
        COpcode::CLI { imm6: c_i_imm6(c_instr), rd }
    } else if opc == OPC_C_LUI_ADDI16SP {
        let imm6 = c_i_imm6(c_instr);
        if rd == 0 {
            COpcode::Hint
        } else if imm6.0 == 0 {
            COpcode::Reserved
        } else if rd == 2 {
            let a = c_instr.bits(12, 12);
            let b = c_instr.bits(4, 3);
            let c = c_instr.bits(5, 5);
            let d = c_instr.bits(2, 2);
            let e = c_instr.bits(6, 6);
            let v: u16 = a << 5 | b << 3 | c << 2 | d << 1 | e;
            assert(v == a * 32 + b * 8 + c * 4 + d * 2 + e && v < 64) by (bit_vector)
                requires
                    a < 2,
                    b < 4,
                    c < 2,
                    d < 2,
                    e < 2,
                    v == a << 5 | b << 3 | c << 2 | d << 1 | e,
            ;
            COpcode::ADDI16SP { imm6: I6::from_u16(v) }
        } else {
            COpcode::CLUI { imm6, rd }
        }
    } else if opc == OPC_C_J {
        COpcode::CJ { imm12: c_i_imm12(c_instr) }
    } else if opc == OPC_C_BEQZ {
        COpcode::BEQZ { imm9: c_i_imm9(c_instr), rs1: c_i_rs1_s(c_instr) }
    } else if opc == OPC_C_BNEZ {
        COpcode::BNEZ { imm9: c_i_imm9(c_instr), rs1: c_i_rs1_s(c_instr) }
    } else if opc == OPC_C_JR_MV_EBREAK_JALR_ADD {
        decode_cr(c_instr)
    } else if opc == OPC_C_SDSP {
        let a = c_instr.bits(9, 7);
        let b = c_instr.bits(12, 10);
        let uimm6 = a << 3 | b;
        assert(uimm6 == a * 8 + b && uimm6 < 64) by (bit_vector)
            requires
                a < 8,
                b < 8,
                uimm6 == a << 3 | b,
        ;
        COpcode::SDSP { uimm6: uimm6 as u8, rs2: c_i_rs2(c_instr) }
    } else if opc == OPC_C_LDSP {
        if rd != 0 {
            let a = c_instr.bits(4, 2);
            let b = c_instr.bits(12, 12);
            let c = c_instr.bits(6, 5);
            let uimm6 = a << 3 | b << 2 | c;
            assert(uimm6 == a * 8 + b * 4 + c && uimm6 < 64) by (bit_vector)
                requires
                    a < 8,
                    b < 2,
                    c < 4,
                    uimm6 == a << 3 | b << 2 | c,
            ;
            COpcode::LDSP { uimm6: uimm6 as u8, rd }
        } else {
            COpcode::Reserved
        }
    } else if opc == OPC_C_ADDI4SPN {
        let a = c_instr.bits(10, 7);
        let b = c_instr.bits(12, 11);
        let c = c_instr.bits(5, 5);
        let d = c_instr.bits(6, 6);
        let nz_uimm8 = a << 4 | b << 2 | c << 1 | d;
        assert(nz_uimm8 == a * 16 + b * 4 + c * 2 + d && nz_uimm8 < 256) by (bit_vector)
            requires
                a < 16,
                b < 4,
                c < 2,
                d < 2,
                nz_uimm8 == a << 4 | b << 2 | c << 1 | d,
        ;
        if nz_uimm8 == 0 {
            COpcode::Reserved
        } else {
            COpcode::ADDI4SPN { uimm8: nz_uimm8 as u8, rd: c_i_rd_s(c_instr) }
        }
    } else if opc == OPC_C_LD || opc == OPC_C_SD {
        let a = c_instr.bits(6, 5);
        let b = c_instr.bits(12, 10);
        let uimm8 = a << 6 | b << 3;
        assert(uimm8 == a * 64 + b * 8 && uimm8 < 256) by (bit_vector)
            requires
                a < 4,
                b < 8,
                uimm8 == a << 6 | b << 3,
        ;
        if opc == OPC_C_LD {
            COpcode::LD { uoff8: uimm8 as u8, rs1: c_i_rs1_s(c_instr), rd: c_i_rd_s(c_instr) }
        } else {
            COpcode::SD { uoff8: uimm8 as u8, rs1: c_i_rs1_s(c_instr), rs2: c_i_rs2_s(c_instr) }
        }
    } else if opc == OPC_C_SW || opc == OPC_C_LW {
        let a = c_instr.bits(5, 5);
        let b = c_instr.bits(12, 10);
        let c = c_instr.bits(6, 6);
        let uimm7 = a << 6 | b << 3 | c << 2;
        assert(uimm7 == a * 64 + b * 8 + c * 4 && uimm7 < 128) by (bit_vector)
            requires
                a < 2,
                b < 8,
                c < 2,
                uimm7 == a << 6 | b << 3 | c << 2,
        ;
        if opc == OPC_C_SW {
            COpcode::SW { uoff7: uimm7 as u8, rs1: c_i_rs1_s(c_instr), rs2: c_i_rs2_s(c_instr) }
        } else {
            COpcode::LW { uoff7: uimm7 as u8, rs1: c_i_rs1_s(c_instr), rd: c_i_rd_s(c_instr) }
        }
    } else if opc == OPC_C_ADDIW {
        if rd != 0 {
            COpcode::ADDIW { rd, uimm6: c_imm6_raw(c_instr) as u8 }
        } else {
            COpcode::Reserved
        }
    } else if opc == OPC_C_MISC_ALU {
        decode_misc_alu(c_instr)
    } else {
        COpcode::Uknown
    }
}


/// The C.LDSP stack offset, bit by bit (RVC CI format, zero-extended, in bytes):
/// offset[8:6] = inst[4:2], offset[5] = inst[12], offset[4:3] = inst[6:5], offset[2:0] = 0;
/// `rd` is inst[11:7].
pub proof fn lemma_ldsp_offset_bits(c: u16)
    requires
        cf(c, 1, 0) == 2,
        cf(c, 15, 13) == 3,
        cf(c, 11, 7) != 0,
    ensures
        spec_decode_c(c) is LDSP,
        spec_decode_c(c)->LDSP_rd as nat == cf(c, 11, 7),
        ({
            let off = spec_decode_c(c)->LDSP_uimm6 as nat * 8;
            &&& off < 512
            &&& off % 8 == 0
            &&& field(off, 8, 6) == cf(c, 4, 2)
            &&& field(off, 5, 5) == cf(c, 12, 12)
            &&& field(off, 4, 3) == cf(c, 6, 5)
        }),
{
    lemma2_to64();
    let a = cf(c, 4, 2);
    let b = cf(c, 12, 12);
    let d = cf(c, 6, 5);
    assert(a < 8 && b < 2 && d < 4 && cf(c, 11, 7) < 32);
    assert(c_opcode_of(c) == OPC_C_LDSP);
    let off = (a * 8 + b * 4 + d) * 8;
    let x = off as u64;
    crate::bits::lemma_u64_field(x, 8, 6);
    crate::bits::lemma_u64_field(x, 5, 5);
    crate::bits::lemma_u64_field(x, 4, 3);
    let au = a as u64;
    let bu = b as u64;
    let du = d as u64;
    assert(((x >> 6u32) & (u64::MAX >> 61u32)) == au && ((x >> 5u32) & (u64::MAX >> 63u32)) == bu
        && ((x >> 3u32) & (u64::MAX >> 62u32)) == du) by (bit_vector)
        requires
            x == (au * 8 + bu * 4 + du) * 8,
            au < 8,
            bu < 2,
            du < 4,
    ;
}

} // verus!
