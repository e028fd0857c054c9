//! A small decoder of compressed instructions that knows C.LI only, and its disassembler.
use crate::alu::I6;
use crate::rvc_dec::{
    c_imm6, c_opcode_of, c_rd_of, is_rvc, lemma_c_fields_in_range, OPC_C_LI,
};
use crate::text::{push_reg, push_signed, push_text, reg_name, signed_dec};
use vstd::prelude::*;
use vstd::string::StringExecFns;

verus! {

/// A compressed instruction as this decoder sees it.
pub enum COpcode {
    CLI { imm6: I6, rd: u8 },
    Uknown,
}

/// What this decoder makes of a compressed instruction.
pub open spec fn spec_decode_16b(c: u16) -> COpcode {
    if c_opcode_of(c) == OPC_C_LI && c_rd_of(c) != 0 {
        COpcode::CLI { imm6: I6(c_imm6(c) as i8), rd: c_rd_of(c) }
    } else {
        COpcode::Uknown
    }
}

/// Checks whether the instruction is in compressed format (16-bit).
pub fn instr_is_16b(instr: u32) -> (r: bool)
    ensures
        r == is_rvc(instr),
{
    crate::rvc_dec::instr_is_rvc(instr)
}

/// The 5-bit opcode of a compressed instruction: inst[15:13] ++ inst[1:0].
pub fn c_i_opcode(c_instr: u16) -> (r: u8)
    ensures
        r == c_opcode_of(c_instr),
{
    crate::rvc_dec::c_i_opcode(c_instr)
}

/// The signed 6-bit immediate of the CI format: inst[12] ++ inst[6:2].
pub fn c_i_imm6(c_instr: u16) -> (r: I6)
    ensures
        r.0 == c_imm6(c_instr),
{
    crate::rvc_dec::c_i_imm6(c_instr)
}

/// The rd field inst[11:7].
pub fn c_i_rd(c_instr: u16) -> (r: u8)
    ensures
        r == c_rd_of(c_instr),
{
    crate::rvc_dec::c_i_rd(c_instr)
}

/// Decodes a compressed instruction; anything but C.LI is unknown here.
pub fn decode_c_instr(c_instr: u16) -> (r: COpcode)
    ensures
        r == spec_decode_16b(c_instr),
{
    let rd = c_i_rd(c_instr);
    if c_i_opcode(c_instr) == OPC_C_LI && rd != 0 {
        COpcode::CLI { imm6: c_i_imm6(c_instr), rd }
    } else {
        COpcode::Uknown
    }
}

/// Assembly text of a compressed instruction as this decoder sees it.
pub open spec fn asm_16b(c: u16) -> Seq<char> {
    match spec_decode_16b(c) {
        COpcode::CLI { imm6, rd } => "c.li "@ + reg_name(rd) + ", "@ + signed_dec(imm6.0 as int),
        COpcode::Uknown => "Unknown 16b instruction"@,
    }
}

/// Disassembles a compressed instruction; the address is not used.
pub fn disasm_16b(c_instr: u16, _instr_addr: u64) -> (r: String)
    ensures
        r@ == asm_16b(c_instr),
{
    match decode_c_instr(c_instr) {
        COpcode::CLI { imm6, rd } => {
            let mut s = String::from_str("c.li ");
            push_reg(&mut s, rd);
            push_text(&mut s, ", ");
            push_signed(&mut s, imm6.0 as i64);
            s
        },
        COpcode::Uknown => String::from_str("Unknown 16b instruction"),
    }
}

} // verus!
