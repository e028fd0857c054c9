//! Decoder of 32-bit RV64I instructions.
use crate::alu::{sign_extend, I12, I13, I21};
use crate::bits::{bit_set, field, BitOps};
use vstd::arithmetic::power2::{lemma2_to64, pow2};
use vstd::prelude::*;

verus! {

/// A decoded 32-bit instruction.
pub enum Opcode {
    System { csr: u16, rs1: u8, funct3: u8, rd: u8 },
    Branch { off13: I13, rs2: u8, rs1: u8, funct3: u8 },
    Auipc { uimm20: u64, rd: u8 },
    OpImm { imm12: I12, rs1: u8, funct3: u8, rd: u8 },
    ADDIW { imm12: I12, rs1: u8, rd: u8 },
    /// Shift Left Logical Immediate Word
    SLLIW { shamt: u8, rs1: u8, rd: u8 },
    /// Shift Right Logical Immediate Word
    SRLIW { shamt: u8, rs1: u8, rd: u8 },
    Op { funct7: u8, rs2: u8, rs1: u8, funct3: u8, rd: u8 },
    /// Subtract Word
    SUBW { rs2: u8, rs1: u8, rd: u8 },
    Jal { imm21: I21, rd: u8 },
    Jalr { imm12: I12, rs1: u8, rd: u8 },
    LUI { uimm20: u32, rd: u8 },
    Load { imm12: I12, rs1: u8, funct3: u8, rd: u8 },
    Store { imm12: I12, rs2: u8, rs1: u8, funct3: u8 },
    /// Atomic Memory Operations
    Amo { funct5: u8, rs2: u8, rs1: u8, funct3: u8, rd: u8, aq: bool, rl: bool },
    /// Fence; the rs1 and rd fields are reserved.
    Fence { imm12: I12, funct3: u8 },
    Uknown,
}

/// RV32/RV64 instruction opcodes (inst[6:0])
pub const OPC_SYSTEM: u8 = 0b_11_100_11;
pub const OPC_BRANCH: u8 = 0b_11_000_11;
pub const OPC_AUIPC: u8 = 0b_00_101_11;
pub const OPC_OP_IMM: u8 = 0b_00_100_11;
pub const OPC_OP_IMM32: u8 = 0b_00_110_11;
pub const OPC_OP: u8 = 0b_01_100_11;
pub const OPC_OP_32: u8 = 0b_01_110_11;
pub const OPC_JALR: u8 = 0b_11_001_11;
pub const OPC_FENCE: u8 = 0b_00_011_11;
pub const OPC_AMO: u8 = 0b_01_011_11;
pub const OPC_JAL: u8 = 0b_11_011_11;
pub const OPC_LUI: u8 = 0b_01_101_11;
pub const OPC_LOAD: u8 = 0b_00_000_11;
pub const OPC_STORE: u8 = 0b_01_000_11;

/// Branch EQual
pub const F3_BRANCH_BEQ: u8 = 0b000;
/// Branch Not Equal
pub const F3_BRANCH_BNE: u8 = 0b001;
/// Branch Less Than (Signed)
pub const F3_BRANCH_BLT: u8 = 0b100;
/// Branch Less Than Unsigned
pub const F3_BRANCH_BLTU: u8 = 0b110;
/// Branch Greater or Equal (Signed)
pub const F3_BRANCH_BGE: u8 = 0b101;
/// Branch Greater or Equal (Unsigned)
pub const F3_BRANCH_BGEU: u8 = 0b111;

/// Wait For Interrupt
pub const F3_SYSTEM_WFI: u8 = 0b000;
/// atomic CSR read, write
pub const F3_SYSTEM_CSRRW: u8 = 0b001;
/// atomic CSR read, set bits
pub const F3_SYSTEM_CSRRS: u8 = 0b010;
/// atomic CSR read, write immediate
pub const F3_SYSTEM_CSRRWI: u8 = 0b101;

pub const F3_OP_IMM_ADDI: u8 = 0b000;
pub const F3_OP_IMM_SLLI: u8 = 0b001;
pub const F3_OP_IMM_SLTIU: u8 = 0b011;
pub const F3_OP_IMM_XORI: u8 = 0b100;
pub const F3_OP_IMM_SRLI: u8 = 0b101;
pub const F3_OP_IMM_ANDI: u8 = 0b111;

pub const F3_OP_IMM32_ADDIW: u8 = 0b000;
/// Shift Left Logical Immediate Word
pub const F3_OP_IMM32_SLLIW: u8 = 0b001;
/// Shift Right Logical Immediate Word
pub const F3_OP_IMM32_SRLIW: u8 = 0b101;

pub const F3_OP_ADD_SUB: u8 = 0b_000;

pub const F3_OP_LOAD_LB: u8 = 0b000;
pub const F3_OP_LOAD_LW: u8 = 0b010;
pub const F3_OP_LOAD_LD: u8 = 0b011;
pub const F3_OP_LOAD_LBU: u8 = 0b100;
pub const F3_OP_LOAD_LWU: u8 = 0b110;

pub const F3_OP_STORE_SB: u8 = 0b000;
pub const F3_OP_STORE_SW: u8 = 0b010;
pub const F3_OP_STORE_SD: u8 = 0b011;

/// funct7 field of R-type ADD
pub const F7_OP_ADD: u8 = 0b_000_0000;
/// funct7 field of R-type SUB (and SUBW)
pub const F7_OP_SUB: u8 = 0b_010_0000;

/// funct5 field of AMOADD
pub const F5_OP_AMO_ADD: u8 = 0b_00000;
/// funct5 field of AMOSWAP
pub const F5_OP_AMO_SWAP: u8 = 0b_00001;
/// funct5 field of LR
pub const F5_OP_AMO_LRW: u8 = 0b_00010;

pub const F3_OP_AMO_WORD: u8 = 0b_010;
pub const F3_OP_AMO_DWORD: u8 = 0b_011;

pub const F3_OP_FENCE: u8 = 0b_000;
pub const F3_OP_FENCE_I: u8 = 0b_001;

/// inst[6:0]
pub open spec fn opcode_of(ins: u32) -> u8 {
    field(ins as nat, 6, 0) as u8
}

/// inst[14:12]
pub open spec fn funct3_of(ins: u32) -> u8 {
    field(ins as nat, 14, 12) as u8
}

/// inst[11:7]
pub open spec fn rd_of(ins: u32) -> u8 {
    field(ins as nat, 11, 7) as u8
}

/// inst[19:15]
pub open spec fn rs1_of(ins: u32) -> u8 {
    field(ins as nat, 19, 15) as u8
}

/// inst[24:20]
pub open spec fn rs2_of(ins: u32) -> u8 {
    field(ins as nat, 24, 20) as u8
}

/// inst[31:20]
pub open spec fn csr_of(ins: u32) -> u16 {
    field(ins as nat, 31, 20) as u16
}

/// inst[31:25]
pub open spec fn funct7_of(ins: u32) -> u8 {
    field(ins as nat, 31, 25) as u8
}

/// The I-type immediate: inst[31:20], sign-extended.
pub open spec fn imm_i(ins: u32) -> int {
    sign_extend(field(ins as nat, 31, 20), 12)
}

/// The S-type immediate: inst[31:25] ++ inst[11:7], sign-extended.
pub open spec fn imm_s(ins: u32) -> int {
    sign_extend(field(ins as nat, 31, 25) * 32 + field(ins as nat, 11, 7), 12)
}

/// The B-type offset: inst[31] ++ inst[7] ++ inst[30:25] ++ inst[11:8] ++ 0, sign-extended.
pub open spec fn imm_b(ins: u32) -> int {
    sign_extend(
        field(ins as nat, 31, 31) * 4096 + field(ins as nat, 7, 7) * 2048 + field(ins as nat, 30, 25)
            * 32 + field(ins as nat, 11, 8) * 2,
        13,
    )
}

/// The J-type offset: inst[31] ++ inst[19:12] ++ inst[20] ++ inst[30:21] ++ 0, sign-extended.
pub open spec fn imm_j(ins: u32) -> int {
    sign_extend(
        field(ins as nat, 31, 31) * 0x10_0000 + field(ins as nat, 19, 12) * 0x1000 + field(
            ins as nat,
            20,
            20,
        ) * 0x800 + field(ins as nat, 30, 21) * 2,
        21,
    )
}

/// The U-type immediate: inst[31:12] followed by 12 zero bits.
pub open spec fn imm_u(ins: u32) -> u32 {
    (field(ins as nat, 31, 12) * 0x1000) as u32
}

/// The register, funct3 and funct5 fields of an instruction word lie in their ranges.
pub proof fn lemma_fields_in_range(ins: u32)
    ensures
        rd_of(ins) < 32,
        rs1_of(ins) < 32,
        rs2_of(ins) < 32,
        funct3_of(ins) < 8,
        (field(ins as nat, 31, 27) as u8) < 32,
{
    lemma2_to64();
}

/// What a 32-bit instruction word decodes to.
pub open spec fn spec_decode(ins: u32) -> Opcode {
    let opc = opcode_of(ins);
    let rd = rd_of(ins);
    let rs1 = rs1_of(ins);
    let rs2 = rs2_of(ins);
    let funct3 = funct3_of(ins);
    if opc == OPC_LUI {
        Opcode::LUI { uimm20: imm_u(ins), rd }
    } else if opc == OPC_AUIPC {
        Opcode::Auipc { uimm20: imm_u(ins) as u64, rd }
    } else if opc == OPC_JAL {
        Opcode::Jal { imm21: I21(imm_j(ins) as i32), rd }
    } else if opc == OPC_JALR {
        Opcode::Jalr { imm12: I12(imm_i(ins) as i16), rs1, rd }
    } else if opc == OPC_FENCE {
        Opcode::Fence { imm12: I12(imm_i(ins) as i16), funct3 }
    } else if opc == OPC_BRANCH {
        Opcode::Branch { off13: I13(imm_b(ins) as i16), rs2, rs1, funct3 }
    } else if opc == OPC_LOAD {
        Opcode::Load { imm12: I12(imm_i(ins) as i16), rs1, funct3, rd }
    } else if opc == OPC_STORE {
        Opcode::Store { imm12: I12(imm_s(ins) as i16), rs2, rs1, funct3 }
    } else if opc == OPC_OP_IMM {
        Opcode::OpImm { imm12: I12(imm_i(ins) as i16), rs1, funct3, rd }
    } else if opc == OPC_OP_IMM32 {
        if funct3 == F3_OP_IMM32_ADDIW {
            Opcode::ADDIW { imm12: I12(imm_i(ins) as i16), rs1, rd }
        } else if funct7_of(ins) == 0 && funct3 == F3_OP_IMM32_SLLIW {
            Opcode::SLLIW { shamt: rs2, rs1, rd }
        } else if funct7_of(ins) == 0 && funct3 == F3_OP_IMM32_SRLIW {
            Opcode::SRLIW { shamt: rs2, rs1, rd }
        } else {
            Opcode::Uknown
        }
    } else if opc == OPC_OP {
        Opcode::Op { funct7: funct7_of(ins), rs2, rs1, funct3, rd }
    } else if opc == OPC_OP_32 {
        if funct7_of(ins) == F7_OP_SUB && funct3 == F3_OP_ADD_SUB {
            Opcode::SUBW { rs2, rs1, rd }
        } else {
            Opcode::Uknown
        }
    } else if opc == OPC_SYSTEM {
        Opcode::System { csr: csr_of(ins), rs1, funct3, rd }
    } else if opc == OPC_AMO {
        Opcode::Amo {
            funct5: field(ins as nat, 31, 27) as u8,
            rs2,
            rs1,
            funct3,
            rd,
            aq: bit_set(ins as nat, 26),
            rl: bit_set(ins as nat, 25),
        }
    } else {
        Opcode::Uknown
    }
}

pub fn i_opcode(ins: u32) -> (r: u8)
    ensures
        r == opcode_of(ins),
        r < 128,
{
    proof {
        lemma2_to64();
    }
    ins.bits(6, 0) as u8
}

pub fn i_funct3(ins: u32) -> (r: u8)
    ensures
        r == funct3_of(ins),
        r < 8,
{
    proof {
        lemma2_to64();
    }
    ins.bits(14, 12) as u8
}

pub fn i_rd(ins: u32) -> (r: u8)
    ensures
        r == rd_of(ins),
        r < 32,
{
    proof {
        lemma2_to64();
    }
    ins.bits(11, 7) as u8
}

pub fn i_rs1(ins: u32) -> (r: u8)
    ensures
        r == rs1_of(ins),
        r < 32,
{
    proof {
        lemma2_to64();
    }
    ins.bits(19, 15) as u8
}

pub fn i_rs2(ins: u32) -> (r: u8)
    ensures
        r == rs2_of(ins),
        r < 32,
{
    proof {
        lemma2_to64();
    }
    ins.bits(24, 20) as u8
}

fn i_csr(ins: u32) -> (r: u16)
    ensures
        r == csr_of(ins),
{
    proof {
        lemma2_to64();
    }
    ins.bits(31, 20) as u16
}

/// Decodes the 13-bit signed offset of a B-type instruction.
pub fn i_b_off13(ins: u32) -> (r: I13)
    ensures
        r.0 == imm_b(ins),
{
    proof {
        lemma2_to64();
    }
    let off_4_1 = ins.bits(11, 8) as u16;
    let off_11 = ins.bits(7, 7) as u16;
    let off_10_5 = ins.bits(30, 25) as u16;
    let off_12 = ins.bits(31, 31) as u16;
    let v: u16 = off_12 << 12 | off_11 << 11 | off_10_5 << 5 | off_4_1 << 1;
    assert(v == off_12 * 4096 + off_11 * 2048 + off_10_5 * 32 + off_4_1 * 2 && v < 0x2000)
        by (bit_vector)
        requires
            off_4_1 < 16,
            off_11 < 2,
            off_10_5 < 64,
            off_12 < 2,
            v == off_12 << 12 | off_11 << 11 | off_10_5 << 5 | off_4_1 << 1,
    ;
    I13::from_u16(v)
}

/// The upper 20 bits of LUI and AUIPC instructions.
pub fn i_u_uimm20(ins: u32) -> (r: u32)
    ensures
        r == imm_u(ins),
{
    proof {
        lemma2_to64();
        let hi: u32 = ins >> 12u32;
        assert(ins & 0xffff_f000 == hi * 0x1000 && hi < 0x100000) by (bit_vector)
            requires
                hi == ins >> 12u32,
        ;
        vstd::bits::lemma_u32_shr_is_div(ins, 12);
        assert(hi as nat == field(ins as nat, 31, 12)) by {
            vstd::arithmetic::div_mod::lemma_small_mod(hi as nat, pow2(20));
        }
    }
    ins & 0xffff_f000
}

/// Decodes the signed 12-bit immediate of an I-type instruction.
pub fn i_i_type_imm12(ins: u32) -> (r: I12)
    ensures
        r.0 == imm_i(ins),
{
    proof {
        lemma2_to64();
    }
    I12::from_u16(ins.bits(31, 20) as u16)
}

/// Decodes the funct7 field (inst[31:25]) of an R-type instruction.
pub fn i_r_type_funct7(ins: u32) -> (r: u8)
    ensures
        r == funct7_of(ins),
        r < 128,
{
    proof {
        lemma2_to64();
    }
    ins.bits(31, 25) as u8
}

/// Decodes the signed 12-bit immediate of an S-type instruction.
pub fn i_s_type_imm12(ins: u32) -> (r: I12)
    ensures
        r.0 == imm_s(ins),
{
    proof {
        lemma2_to64();
    }
    let imm11_5 = ins.bits(31, 25) as u16;
    let imm4_0 = ins.bits(11, 7) as u16;
    let v: u16 = imm11_5 << 5 | imm4_0;
    assert(v == imm11_5 * 32 + imm4_0 && v < 0x1000) by (bit_vector)
        requires
            imm11_5 < 128,
            imm4_0 < 32,
            v == imm11_5 << 5 | imm4_0,
    ;
    I12::from_u16(v)
}

/// Decodes SYSTEM (Zicsr) opcodes: CSRRS, WFI, ...
pub fn dec_opc_system(ins: u32) -> (r: Opcode)
    ensures
        r == (Opcode::System { csr: csr_of(ins), rs1: rs1_of(ins), funct3: funct3_of(ins), rd: rd_of(ins) }),
{
    let rd = i_rd(ins);
    let funct3 = i_funct3(ins);
    let rs1 = i_rs1(ins);
    let csr = i_csr(ins);
    Opcode::System { csr, rs1, funct3, rd }
}

/// Decodes BRANCH opcodes: BEQ, BNE, BLT, ...
pub fn dec_opc_branch(instr: u32) -> (r: Opcode)
    ensures
        r == (Opcode::Branch {
            off13: I13(imm_b(instr) as i16),
            rs2: rs2_of(instr),
            rs1: rs1_of(instr),
            funct3: funct3_of(instr),
        }),
{
    let off13 = i_b_off13(instr);
    let rs2 = i_rs2(instr);
    let rs1 = i_rs1(instr);
    let funct3 = i_funct3(instr);
    Opcode::Branch { off13, rs2, rs1, funct3 }
}

/// Decodes OP-IMM (I-type) opcodes: ADDI, XORI, ...
pub fn dec_opc_op_imm(instr: u32) -> (r: Opcode)
    ensures
        r == (Opcode::OpImm {
            imm12: I12(imm_i(instr) as i16),
            rs1: rs1_of(instr),
            funct3: funct3_of(instr),
            rd: rd_of(instr),
        }),
{
    let imm12 = i_i_type_imm12(instr);
    let rs1 = i_rs1(instr);
    let funct3 = i_funct3(instr);
    let rd = i_rd(instr);
    Opcode::OpImm { imm12, rs1, funct3, rd }
}

/// Decodes R-type instructions: ADD, SUB, SLL, SLT, SLTU, XOR, SRL, SRA, OR, AND
pub fn dec_opc_op(instr: u32) -> (r: Opcode)
    ensures
        r == (Opcode::Op {
            funct7: funct7_of(instr),
            rs2: rs2_of(instr),
            rs1: rs1_of(instr),
            funct3: funct3_of(instr),
            rd: rd_of(instr),
        }),
{
    Opcode::Op {
        funct7: i_r_type_funct7(instr),
        rs2: i_rs2(instr),
        rs1: i_rs1(instr),
        funct3: i_funct3(instr),
        rd: i_rd(instr),
    }
}

/// Decodes JAL.
pub fn dec_opc_jal(instr: u32) -> (r: Opcode)
    ensures
        r == (Opcode::Jal { imm21: I21(imm_j(instr) as i32), rd: rd_of(instr) }),
{
    proof {
        lemma2_to64();
    }
    let b31 = instr.bits(31, 31);
    let b19_12 = instr.bits(19, 12);
    let b20 = instr.bits(20, 20);
    let b30_21 = instr.bits(30, 21);
    let imm21 = b31 << 20 | b19_12 << 12 | b20 << 11 | b30_21 << 1;
    assert(imm21 == b31 * 0x10_0000 + b19_12 * 0x1000 + b20 * 0x800 + b30_21 * 2 && imm21
        < 0x20_0000) by (bit_vector)
        requires
            b31 < 2,
            b19_12 < 256,
            b20 < 2,
            b30_21 < 1024,
            imm21 == b31 << 20 | b19_12 << 12 | b20 << 11 | b30_21 << 1,
    ;
    let imm21 = I21::from_u32(imm21);
    let rd = i_rd(instr);
    Opcode::Jal { imm21, rd }
}

/// Decodes JALR.
pub fn dec_opc_jalr(instr: u32) -> (r: Opcode)
    ensures
        r == (Opcode::Jalr { imm12: I12(imm_i(instr) as i16), rs1: rs1_of(instr), rd: rd_of(instr) }),
{
    let imm12 = i_i_type_imm12(instr);
    let rs1 = i_rs1(instr);
    let rd = i_rd(instr);
    Opcode::Jalr { imm12, rs1, rd }
}

/// Decodes LOAD opcodes: LB, LBU, LW, LWU, LD.
pub fn dec_opc_load(instr: u32) -> (r: Opcode)
    ensures
        r == (Opcode::Load {
            imm12: I12(imm_i(instr) as i16),
            rs1: rs1_of(instr),
            funct3: funct3_of(instr),
            rd: rd_of(instr),
        }),
{
    let imm12 = i_i_type_imm12(instr);
    let rs1 = i_rs1(instr);
    let funct3 = i_funct3(instr);
    let rd = i_rd(instr);
    Opcode::Load { imm12, rs1, funct3, rd }
}

/// Decodes STORE opcodes: SB, SW, SD.
pub fn dec_opc_store(instr: u32) -> (r: Opcode)
    ensures
        r == (Opcode::Store {
            imm12: I12(imm_s(instr) as i16),
            rs2: rs2_of(instr),
            rs1: rs1_of(instr),
            funct3: funct3_of(instr),
        }),
{
    let imm12 = i_s_type_imm12(instr);
    let rs2 = i_rs2(instr);
    let rs1 = i_rs1(instr);
    let funct3 = i_funct3(instr);
    Opcode::Store { imm12, rs2, rs1, funct3 }
}

/// Decodes a 32-bit instruction.
pub fn decode_instr(instr: u32) -> (r: Opcode)
    ensures
        r == spec_decode(instr),
{
    let opc = i_opcode(instr);
    if opc == OPC_LUI {
        Opcode::LUI { uimm20: i_u_uimm20(instr), rd: i_rd(instr) }
    } else if opc == OPC_AUIPC {
        Opcode::Auipc { uimm20: i_u_uimm20(instr) as u64, rd: i_rd(instr) }
    } else if opc == OPC_JAL {
        dec_opc_jal(instr)
    } else if opc == OPC_JALR {
        dec_opc_jalr(instr)
    } else if opc == OPC_FENCE {
        Opcode::Fence { imm12: i_i_type_imm12(instr), funct3: i_funct3(instr) }
    } else if opc == OPC_BRANCH {
        dec_opc_branch(instr)
    } else if opc == OPC_LOAD {
        dec_opc_load(instr)
    } else if opc == OPC_STORE {
        dec_opc_store(instr)
    } else if opc == OPC_OP_IMM {
        dec_opc_op_imm(instr)
    } else if opc == OPC_OP_IMM32 {
        let funct3 = i_funct3(instr);
        let rs1 = i_rs1(instr);
        let rd = i_rd(instr);
        if funct3 == F3_OP_IMM32_ADDIW {
            Opcode::ADDIW { imm12: i_i_type_imm12(instr), rs1, rd }
        } else {
            let bits31_25 = i_r_type_funct7(instr);
            if bits31_25 == 0 && funct3 == F3_OP_IMM32_SLLIW {
                Opcode::SLLIW { shamt: i_rs2(instr), rs1, rd }
            } else if bits31_25 == 0 && funct3 == F3_OP_IMM32_SRLIW {
                Opcode::SRLIW { shamt: i_rs2(instr), rs1, rd }
            } else {
                Opcode::Uknown
            }
        }
    } else if opc == OPC_OP {
        dec_opc_op(instr)
    } else if opc == OPC_OP_32 {
        if i_r_type_funct7(instr) == F7_OP_SUB && i_funct3(instr) == F3_OP_ADD_SUB {
            Opcode::SUBW { rs2: i_rs2(instr), rs1: i_rs1(instr), rd: i_rd(instr) }
        } else {
            Opcode::Uknown
        }
    } else if opc == OPC_SYSTEM {
        dec_opc_system(instr)
    } else if opc == OPC_AMO {
        proof {
            lemma2_to64();
        }
        Opcode::Amo {
            // The aq and rl ordering bits are decoded but not acted upon.
            funct5: instr.bits(31, 27) as u8,
            aq: instr.bit(26),
            rl: instr.bit(25),
            rs2: i_rs2(instr),
            rs1: i_rs1(instr),
            funct3: i_funct3(instr),
            rd: i_rd(instr),
        }
    } else {
        Opcode::Uknown
    }
}


/// The J-type offset of a JAL, bit by bit (RISC-V J-type layout): offset[20] = inst[31] (the
/// sign), offset[19:12] = inst[19:12], offset[11] = inst[20], offset[10:1] = inst[30:21], and
/// offset[0] = 0; `rd` is inst[11:7].
pub proof fn lemma_jal_offset_bits(ins: u32)
    requires
        field(ins as nat, 6, 0) == 0x6f,
    ensures
        spec_decode(ins) is Jal,
        spec_decode(ins)->Jal_rd as nat == field(ins as nat, 11, 7),
        ({
            let off = spec_decode(ins)->Jal_imm21.0 as int;
            let u = if off < 0 {
                off + 0x20_0000
            } else {
                off
            };
            &&& -0x10_0000 <= off < 0x10_0000
            &&& (off < 0 <==> field(ins as nat, 31, 31) == 1)
            &&& u % 2 == 0
            &&& field(u as nat, 19, 12) == field(ins as nat, 19, 12)
            &&& field(u as nat, 11, 11) == field(ins as nat, 20, 20)
            &&& field(u as nat, 10, 1) == field(ins as nat, 30, 21)
        }),
{
    lemma2_to64();
    let a = field(ins as nat, 31, 31);
    let b = field(ins as nat, 19, 12);
    let c = field(ins as nat, 20, 20);
    let d = field(ins as nat, 30, 21);
    assert(a < 2 && b < 256 && c < 2 && d < 1024);
    assert(rd_of(ins) as nat == field(ins as nat, 11, 7)) by {
        assert(field(ins as nat, 11, 7) < 32);
    }
    let v = a * 0x10_0000 + b * 0x1000 + c * 0x800 + d * 2;
    assert(imm_j(ins) == sign_extend(v, 21));
    assert(v < 0x20_0000);
    let x = v as u64;
    crate::bits::lemma_u64_field(x, 19, 12);
    crate::bits::lemma_u64_field(x, 11, 11);
    crate::bits::lemma_u64_field(x, 10, 1);
    let au = a as u64;
    let bu = b as u64;
    let cu = c as u64;
    let du = d as u64;
    assert(((x >> 12u32) & (u64::MAX >> 56u32)) == bu && ((x >> 11u32) & (u64::MAX >> 63u32))
        == cu && ((x >> 1u32) & (u64::MAX >> 54u32)) == du) by (bit_vector)
        requires
            x == au * 0x10_0000 + bu * 0x1000 + cu * 0x800 + du * 2,
            au < 2,
            bu < 256,
            cu < 2,
            du < 1024,
    ;
}

} // verus!
