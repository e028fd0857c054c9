//! The RV64I (+ RVC, + a few A and Zicsr instructions) hart.
use crate::alu::{sign_extend, wrap32, wrap64, Imm, I12, I13, I21, I6, I9};
use crate::bits::field;
use vstd::arithmetic::power2::lemma2_to64;
use crate::bits::{field_mask64, BitOps};
use crate::bus::{Bus, BusView};
use crate::csr::{csr_known, csr_read, csr_write, CsrView, Csrs, MHARTID, MSCRATCH, MTVEC};
use crate::rv64i_dec::{
    decode_instr, lemma_fields_in_range, spec_decode, Opcode, F3_BRANCH_BEQ, F3_BRANCH_BGE, F3_BRANCH_BGEU,
    F3_BRANCH_BLT, F3_BRANCH_BLTU, F3_BRANCH_BNE, F3_OP_ADD_SUB, F3_OP_AMO_WORD, F3_OP_IMM_ADDI,
    F3_OP_IMM_ANDI, F3_OP_IMM_SLLI, F3_OP_IMM_SLTIU, F3_OP_IMM_SRLI, F3_OP_IMM_XORI, F3_OP_LOAD_LB,
    F3_OP_LOAD_LBU, F3_OP_LOAD_LD, F3_OP_LOAD_LW, F3_OP_LOAD_LWU, F3_OP_STORE_SB, F3_OP_STORE_SD,
    F3_OP_STORE_SW, F3_SYSTEM_CSRRS, F3_SYSTEM_CSRRW, F3_SYSTEM_CSRRWI, F3_SYSTEM_WFI, F5_OP_AMO_ADD,
    F5_OP_AMO_LRW, F5_OP_AMO_SWAP, F7_OP_ADD, F7_OP_SUB,
};
use crate::rvc_dec::{
    instr_is_rvc, is_rvc, lemma_c_fields_in_range, rv64c_decode_instr, spec_decode_c, COpcode,
};
use crate::rv64i_disasm::abi_name;
use crate::text::{bin_str, hex_str, pad0, push_char, push_digits_pad, push_reg, push_text, reg_name};
use vstd::prelude::*;

verus! {

/// Why `exec_continue()` stopped.
#[derive(Debug, Clone, Copy, PartialEq, Eq, Structural)]
pub enum ExecEvent {
    /// The CPU executed the maximum number of instructions; holds the PC.
    MaxInstructions(u64),
    /// The CPU hit a breakpoint; holds the PC.
    Breakpoint(u64),
    /// The next instruction would access memory or a CSR that does not exist (or the
    /// instruction counter is exhausted); nothing of it was executed. Holds the PC.
    Fault(u64),
}

/// Length of a 32-bit instruction in bytes.
pub const ILEN_32B: u8 = 4;

/// Length of a compressed instruction in bytes.
pub const ILEN_RVC: u8 = 2;

/// RV64I unprivileged registers; x0 reads as zero when the CPU keeps it so.
pub struct RV64IURegs {
    pub x: [u64; 32],
    pub pc: u64,
}

impl Clone for RV64IURegs {
    fn clone(&self) -> (r: Self)
        ensures
            r.x@ == self.x@,
            r.pc == self.pc,
    {
        RV64IURegs { x: self.x, pc: self.pc }
    }
}

impl Default for RV64IURegs {
    fn default() -> (r: Self)
        ensures
            r.x@ == Seq::new(32, |i: int| 0u64),
            r.pc == 0,
    {
        let r = RV64IURegs { x: [0u64; 32], pc: 0 };
        assert(r.x@ =~= Seq::new(32, |i: int| 0u64));
        r
    }
}

/// The trace line of a register value: the register named `label` with the ABI name of
/// register `abi`, the value in hexadecimal and in binary.
pub open spec fn reg_trace_line(label: u8, abi: u8, v: u64) -> Seq<char> {
    seq![' '] + reg_name(label) + seq![' ', '('] + abi_name(abi) + seq![')', ':', ' ', '0', 'x']
        + pad0(hex_str(v as nat), 16) + seq![' ', '|', ' ', 'b', '\''] + pad0(bin_str(v as nat), 64)
        + seq!['\n']
}

impl RV64IURegs {
    /// The ABI name of register `ri`.
    pub fn reg_idx2abi(ri: u8) -> (n: &'static str)
        requires
            ri < 32,
        ensures
            n@ == abi_name(ri),
    {
        crate::rv64i_disasm::reg_idx2abi(ri)
    }

    fn push_trace_line(s: &mut String, label: u8, abi: u8, v: u64)
        requires
            label < 32,
            abi < 32,
        ensures
            final(s)@ == old(s)@ + reg_trace_line(label, abi, v),
    {
        let ghost s0 = s@;
        push_char(s, ' ');
        push_reg(s, label);
        push_char(s, ' ');
        push_char(s, '(');
        push_text(s, Self::reg_idx2abi(abi));
        push_char(s, ')');
        push_char(s, ':');
        push_char(s, ' ');
        push_char(s, '0');
        push_char(s, 'x');
        push_digits_pad(s, v, 16, 16);
        push_char(s, ' ');
        push_char(s, '|');
        push_char(s, ' ');
        push_char(s, 'b');
        push_char(s, '\'');
        push_digits_pad(s, v, 2, 64);
        push_char(s, '\n');
        assert(s@ =~= s0 + reg_trace_line(label, abi, v));
    }

    /// The trace text of register `ri` (nothing for `x0`).
    pub fn reg_trace(&self, ri: u8) -> (r: String)
        requires
            ri < 32,
        ensures
            r@ == if ri == 0 {
                Seq::<char>::empty()
            } else {
                reg_trace_line(ri, ri, self.x@[ri as int])
            },
    {
        let mut s = String::new();
        if ri != 0 {
            Self::push_trace_line(&mut s, ri, ri, self.x[ri as usize]);
        }
        s
    }

    /// The trace text of registers `ri1` and `ri2` (nothing for `x0`); the second line is
    /// labelled with the name of the first register.
    pub fn two_regs_trace(&self, ri1: u8, ri2: u8) -> (r: String)
        requires
            ri1 < 32,
            ri2 < 32,
        ensures
            r@ == (if ri1 == 0 {
                Seq::<char>::empty()
            } else {
                reg_trace_line(ri1, ri1, self.x@[ri1 as int])
            }) + (if ri2 == 0 {
                Seq::<char>::empty()
            } else {
                reg_trace_line(ri1, ri2, self.x@[ri2 as int])
            }),
    {
        let mut s = String::new();
        if ri1 != 0 {
            Self::push_trace_line(&mut s, ri1, ri1, self.x[ri1 as usize]);
        }
        let ghost s1 = s@;
        if ri2 != 0 {
            Self::push_trace_line(&mut s, ri1, ri2, self.x[ri2 as usize]);
        }
        assert(s@ =~= s1 + (if ri2 == 0 {
            Seq::<char>::empty()
        } else {
            reg_trace_line(ri1, ri2, self.x@[ri2 as int])
        }));
        s
    }
}

/// An instruction that could not be executed: its address, its encoding, and whether it was a
/// compressed one.
#[derive(Clone, Copy, Debug, PartialEq, Eq)]
pub struct ExecError {
    pub pc: u64,
    pub instr: u32,
    pub rvc: bool,
}

/// The architectural state that instructions read and write.
pub struct CpuState {
    pub x: Seq<u64>,
    pub pc: u64,
    pub bus: BusView,
    pub csrs: CsrView,
    /// The word registered by the last LR.W.
    pub reservation: u64,
}

/// Reads register `r`.
pub open spec fn rr(s: CpuState, r: u8) -> u64 {
    s.x[r as int]
}

/// Writes `v` to register `rd`; writes to x0 are ignored.
pub open spec fn wr(s: CpuState, rd: u8, v: u64) -> CpuState {
    if rd == 0 {
        s
    } else {
        CpuState { x: s.x.update(rd as int, v), ..s }
    }
}

/// Moves the PC on by `n` bytes.
pub open spec fn adv(s: CpuState, n: u8) -> CpuState {
    CpuState { pc: wrap64(s.pc + n), ..s }
}

/// Sets the PC.
pub open spec fn jump(s: CpuState, pc: u64) -> CpuState {
    CpuState { pc, ..s }
}

/// Replaces the bus.
pub open spec fn with_bus(s: CpuState, bus: BusView) -> CpuState {
    CpuState { bus, ..s }
}

/// The 32-bit value `v` sign-extended to 64 bits.
pub open spec fn sext32(v: u32) -> u64 {
    if v >= 0x8000_0000 {
        (v + 0xffff_ffff_0000_0000) as u64
    } else {
        v as u64
    }
}

/// The 8-bit value `v` sign-extended to 64 bits.
pub open spec fn sext8(v: u8) -> u64 {
    if v >= 0x80 {
        (v + 0xffff_ffff_ffff_ff00) as u64
    } else {
        v as u64
    }
}

/// Outcome of an instruction: the new state, and whether the instruction was recognized.
pub type Outcome = (CpuState, bool);

/// A conditional branch: `taken` jumps by `off`, otherwise the PC moves on by `ilen`.
pub open spec fn spec_branch(s: CpuState, off: int, rs2: u8, rs1: u8, funct3: u8, ilen: u8) -> Outcome {
    let a = rr(s, rs1);
    let b = rr(s, rs2);
    let sa = a as i64;
    let sb = b as i64;
    let taken = if funct3 == F3_BRANCH_BNE {
        a != b
    } else if funct3 == F3_BRANCH_BEQ {
        a == b
    } else if funct3 == F3_BRANCH_BLT {
        (a as i64) < (b as i64)
    } else if funct3 == F3_BRANCH_BLTU {
        a < b
    } else if funct3 == F3_BRANCH_BGE {
        (a as i64) >= (b as i64)
    } else {
        a >= b
    };
    if funct3 == F3_BRANCH_BNE || funct3 == F3_BRANCH_BEQ || funct3 == F3_BRANCH_BLT || funct3
        == F3_BRANCH_BLTU || funct3 == F3_BRANCH_BGE || funct3 == F3_BRANCH_BGEU {
        (if taken { jump(s, wrap64(s.pc + off)) } else { adv(s, ilen) }, true)
    } else {
        (s, false)
    }
}

/// OP-IMM with the immediate `imm`; the PC moves on by `ilen` when recognized.
pub open spec fn spec_op_imm(s: CpuState, imm: int, rs1: u8, funct3: u8, rd: u8, ilen: u8) -> Outcome {
    let a = rr(s, rs1);
    let m = wrap64(imm);
    let shamt = (imm % 64) as u64;
    if funct3 == F3_OP_IMM_ADDI {
        (adv(wr(s, rd, wrap64(a + imm)), ilen), true)
    } else if funct3 == F3_OP_IMM_SLTIU {
        (adv(wr(s, rd, if a < m { 1 } else { 0 }), ilen), true)
    } else if funct3 == F3_OP_IMM_XORI {
        (adv(wr(s, rd, a ^ m), ilen), true)
    } else if funct3 == F3_OP_IMM_ANDI {
        (adv(wr(s, rd, a & m), ilen), true)
    } else if funct3 == F3_OP_IMM_SLLI {
        (adv(wr(s, rd, a << shamt), ilen), true)
    } else if funct3 == F3_OP_IMM_SRLI {
        (adv(wr(s, rd, a >> shamt), ilen), true)
    } else {
        (s, false)
    }
}

/// Register-register OP (ADD, SUB); the PC is not moved here.
pub open spec fn spec_op(s: CpuState, funct7: u8, rs2: u8, rs1: u8, funct3: u8, rd: u8) -> Outcome {
    if funct7 == F7_OP_ADD && funct3 == F3_OP_ADD_SUB {
        (wr(s, rd, wrap64(rr(s, rs1) + rr(s, rs2))), true)
    } else if funct7 == F7_OP_SUB && funct3 == F3_OP_ADD_SUB {
        (wr(s, rd, wrap64(rr(s, rs1) - rr(s, rs2))), true)
    } else {
        (s, false)
    }
}

/// The effective address `x[rs1] + off`.
pub open spec fn ea(s: CpuState, rs1: u8, off: int) -> u64 {
    wrap64(rr(s, rs1) + off)
}

/// Whether a LOAD can access its memory.
pub open spec fn load_ok(s: CpuState, off: int, rs1: u8, funct3: u8) -> bool {
    let addr = ea(s, rs1, off);
    if funct3 == F3_OP_LOAD_LB || funct3 == F3_OP_LOAD_LBU {
        s.bus.readable8(addr)
    } else if funct3 == F3_OP_LOAD_LW || funct3 == F3_OP_LOAD_LWU {
        s.bus.readable32(addr)
    } else if funct3 == F3_OP_LOAD_LD {
        s.bus.readable64(addr)
    } else {
        true
    }
}

/// LOAD; the PC is not moved here.
pub open spec fn spec_load(s: CpuState, off: int, rs1: u8, funct3: u8, rd: u8) -> Outcome {
    let addr = ea(s, rs1, off);
    if funct3 == F3_OP_LOAD_LB {
        (wr(s, rd, sext8(s.bus.read8(addr))), true)
    } else if funct3 == F3_OP_LOAD_LBU {
        (wr(s, rd, s.bus.read8(addr) as u64), true)
    } else if funct3 == F3_OP_LOAD_LW {
        (wr(s, rd, sext32(s.bus.read32(addr))), true)
    } else if funct3 == F3_OP_LOAD_LWU {
        (wr(s, rd, s.bus.read32(addr) as u64), true)
    } else if funct3 == F3_OP_LOAD_LD {
        (wr(s, rd, s.bus.read64(addr)), true)
    } else {
        (s, false)
    }
}

/// Whether a STORE can access its memory.
pub open spec fn store_ok(s: CpuState, off: int, rs1: u8, funct3: u8) -> bool {
    let addr = ea(s, rs1, off);
    if funct3 == F3_OP_STORE_SB {
        s.bus.writable8(addr)
    } else if funct3 == F3_OP_STORE_SW {
        s.bus.writable32(addr)
    } else if funct3 == F3_OP_STORE_SD {
        s.bus.writable64(addr)
    } else {
        true
    }
}

/// STORE; the PC is not moved here.
pub open spec fn spec_store(s: CpuState, off: int, rs2: u8, rs1: u8, funct3: u8) -> Outcome {
    let addr = ea(s, rs1, off);
    let v = rr(s, rs2);
    if funct3 == F3_OP_STORE_SB {
        (with_bus(s, s.bus.write8(addr, (v % 0x100) as u8)), true)
    } else if funct3 == F3_OP_STORE_SW {
        (with_bus(s, s.bus.write32(addr, (v % 0x1_0000_0000) as u32)), true)
    } else if funct3 == F3_OP_STORE_SD {
        (with_bus(s, s.bus.write64(addr, v)), true)
    } else {
        (s, false)
    }
}

/// Whether an AMO can access its memory.
pub open spec fn amo_ok(s: CpuState, funct5: u8, rs2: u8, rs1: u8, funct3: u8) -> bool {
    let addr = rr(s, rs1);
    if funct3 == F3_OP_AMO_WORD && (funct5 == F5_OP_AMO_ADD || funct5 == F5_OP_AMO_SWAP) {
        s.bus.readable32(addr) && s.bus.writable32(addr)
    } else if funct3 == F3_OP_AMO_WORD && funct5 == F5_OP_AMO_LRW && rs2 == 0 {
        s.bus.readable32(addr)
    } else {
        true
    }
}

/// AMOADD.W, AMOSWAP.W and LR.W; the PC moves on by 4 when recognized. The value stored is
/// computed from the registers after rd received the loaded word.
pub open spec fn spec_amo(s: CpuState, funct5: u8, rs2: u8, rs1: u8, funct3: u8, rd: u8) -> Outcome {
    let addr = rr(s, rs1);
    let word = s.bus.read32(addr);
    let s1 = wr(s, rd, sext32(word));
    if funct3 == F3_OP_AMO_WORD && funct5 == F5_OP_AMO_ADD {
        (
            adv(
                with_bus(s1, s1.bus.write32(addr, (wrap64(rr(s1, rs2) + rr(s1, rd)) % 0x1_0000_0000) as u32)),
                ILEN_32B,
            ),
            true,
        )
    } else if funct3 == F3_OP_AMO_WORD && funct5 == F5_OP_AMO_SWAP {
        (adv(with_bus(s1, s1.bus.write32(addr, (rr(s1, rs2) % 0x1_0000_0000) as u32)), ILEN_32B), true)
    } else if funct3 == F3_OP_AMO_WORD && funct5 == F5_OP_AMO_LRW && rs2 == 0 {
        (adv(CpuState { reservation: word as u64, ..s1 }, ILEN_32B), true)
    } else {
        (s, false)
    }
}

/// Whether a SYSTEM instruction touches only implemented CSRs.
pub open spec fn system_ok(csr: u16, funct3: u8) -> bool {
    (funct3 == F3_SYSTEM_CSRRS || funct3 == F3_SYSTEM_CSRRW || funct3 == F3_SYSTEM_CSRRWI)
        ==> csr_known(csr)
}

/// CSRRS, CSRRW, CSRRWI and WFI; the PC moves on by 4 when recognized. The CSR value written
/// is computed from the registers after rd received the old CSR value.
pub open spec fn spec_system(s: CpuState, csr: u16, rs1: u8, funct3: u8, rd: u8) -> Outcome {
    let c = csr_read(s.csrs, csr);
    let s1 = wr(s, rd, c);
    if funct3 == F3_SYSTEM_CSRRS {
        (adv(CpuState { csrs: csr_write(s1.csrs, csr, c | rr(s1, rs1)), ..s1 }, ILEN_32B), true)
    } else if funct3 == F3_SYSTEM_CSRRW {
        (adv(CpuState { csrs: csr_write(s1.csrs, csr, rr(s1, rs1)), ..s1 }, ILEN_32B), true)
    } else if funct3 == F3_SYSTEM_CSRRWI {
        (adv(CpuState { csrs: csr_write(s1.csrs, csr, rs1 as u64), ..s1 }, ILEN_32B), true)
    } else if funct3 == F3_SYSTEM_WFI {
        (adv(s, ILEN_32B), true)
    } else {
        (s, false)
    }
}

/// JAL: rd gets the address of the next 32-bit instruction.
pub open spec fn spec_jal(s: CpuState, off: int, rd: u8) -> CpuState {
    jump(wr(s, rd, wrap64(s.pc + 4)), wrap64(s.pc + off))
}

/// JALR: jumps to `x[rs1] + off` with bit 0 cleared; rd gets the address of the next 32-bit
/// instruction.
pub open spec fn spec_jalr(s: CpuState, off: int, rs1: u8, rd: u8) -> CpuState {
    let target = ea(s, rs1, off);
    jump(wr(s, rd, wrap64(s.pc + 4)), (target - target % 2) as u64)
}

/// Whether executing the 32-bit instruction `instr` accesses only what exists.
pub open spec fn can_exec32(s: CpuState, instr: u32) -> bool {
    match spec_decode(instr) {
        Opcode::Load { imm12, rs1, funct3, .. } => load_ok(s, imm12.0 as int, rs1, funct3),
        Opcode::Store { imm12, rs1, funct3, .. } => store_ok(s, imm12.0 as int, rs1, funct3),
        Opcode::Amo { funct5, rs2, rs1, funct3, .. } => amo_ok(s, funct5, rs2, rs1, funct3),
        Opcode::System { csr, funct3, .. } => system_ok(csr, funct3),
        _ => true,
    }
}

/// What executing the 32-bit instruction `instr` does to the state.
pub open spec fn exec32(s: CpuState, instr: u32) -> Outcome {
    match spec_decode(instr) {
        Opcode::LUI { uimm20, rd } => (adv(wr(s, rd, sext32(uimm20)), ILEN_32B), true),
        Opcode::Auipc { uimm20, rd } => (
            adv(wr(s, rd, wrap64(s.pc + sext32(uimm20 as u32))), ILEN_32B),
            true,
        ),
        Opcode::Branch { off13, rs2, rs1, funct3 } => spec_branch(
            s,
            off13.0 as int,
            rs2,
            rs1,
            funct3,
            ILEN_32B,
        ),
        Opcode::Jal { imm21, rd } => (spec_jal(s, imm21.0 as int, rd), true),
        Opcode::Jalr { imm12, rs1, rd } => (spec_jalr(s, imm12.0 as int, rs1, rd), true),
        Opcode::Fence { .. } => (adv(s, ILEN_32B), true),
        Opcode::Load { imm12, rs1, funct3, rd } => {
            let (s1, ok) = spec_load(s, imm12.0 as int, rs1, funct3, rd);
            (adv(s1, ILEN_32B), ok)
        },
        Opcode::Store { imm12, rs2, rs1, funct3 } => {
            let (s1, ok) = spec_store(s, imm12.0 as int, rs2, rs1, funct3);
            (adv(s1, ILEN_32B), ok)
        },
        Opcode::OpImm { imm12, rs1, funct3, rd } => spec_op_imm(
            s,
            imm12.0 as int,
            rs1,
            funct3,
            rd,
            ILEN_32B,
        ),
        Opcode::ADDIW { imm12, rs1, rd } => (
            adv(wr(s, rd, sext32(wrap32((rr(s, rs1) % 0x1_0000_0000) + imm12.0))), ILEN_32B),
            true,
        ),
        Opcode::SLLIW { shamt, rs1, rd } => (
            adv(wr(s, rd, sext32(((rr(s, rs1) % 0x1_0000_0000) as u32) << shamt)), ILEN_32B),
            true,
        ),
        Opcode::SRLIW { shamt, rs1, rd } => (
            adv(wr(s, rd, sext32(((rr(s, rs1) % 0x1_0000_0000) as u32) >> shamt)), ILEN_32B),
            true,
        ),
        Opcode::Op { funct7, rs2, rs1, funct3, rd } => {
            let (s1, ok) = spec_op(s, funct7, rs2, rs1, funct3, rd);
            (adv(s1, ILEN_32B), ok)
        },
        Opcode::SUBW { rs2, rs1, rd } => (
            adv(wr(s, rd, sext32(wrap32(rr(s, rs1) % 0x1_0000_0000 - rr(s, rs2) % 0x1_0000_0000))), ILEN_32B),
            true,
        ),
        Opcode::Amo { funct5, rs2, rs1, funct3, rd, .. } => spec_amo(s, funct5, rs2, rs1, funct3, rd),
        Opcode::System { csr, rs1, funct3, rd } => spec_system(s, csr, rs1, funct3, rd),
        Opcode::Uknown => (s, false),
    }
}

/// Whether executing the compressed instruction `c` accesses only what exists.
pub open spec fn can_exec16(s: CpuState, c: u16) -> bool {
    match spec_decode_c(c) {
        COpcode::SDSP { uimm6, .. } => store_ok(s, uimm6 * 8, 2, F3_OP_STORE_SD),
        COpcode::LDSP { uimm6, .. } => load_ok(s, uimm6 * 8, 2, F3_OP_LOAD_LD),
        COpcode::LD { uoff8, rs1, .. } => load_ok(s, uoff8 as int, rs1, F3_OP_LOAD_LD),
        COpcode::SW { uoff7, rs1, .. } => store_ok(s, uoff7 as int, rs1, F3_OP_STORE_SW),
        COpcode::SD { uoff8, rs1, .. } => store_ok(s, uoff8 as int, rs1, F3_OP_STORE_SD),
        COpcode::LW { uoff7, rs1, .. } => load_ok(s, uoff7 as int, rs1, F3_OP_LOAD_LW),
        _ => true,
    }
}

/// What executing the compressed instruction `c` does to the state.
pub open spec fn exec16(s: CpuState, c: u16) -> Outcome {
    match spec_decode_c(c) {
        COpcode::CNOP => (adv(s, ILEN_RVC), true),
        COpcode::Hint => (adv(s, ILEN_RVC), true),
        COpcode::Reserved => (s, false),
        COpcode::CADDI { imm6, rd } => spec_op_imm(s, imm6.0 as int, rd, F3_OP_IMM_ADDI, rd, ILEN_RVC),
        COpcode::CLUI { imm6, rd } => (adv(wr(s, rd, wrap64(imm6.0 * 0x1000)), ILEN_RVC), true),
        COpcode::ADDI16SP { imm6 } => spec_op_imm(s, imm6.0 * 16, 2, F3_OP_IMM_ADDI, 2, ILEN_RVC),
        COpcode::CSLLI { uimm6, rd } => spec_op_imm(s, uimm6 as int, rd, F3_OP_IMM_SLLI, rd, ILEN_RVC),
        COpcode::CSRLI { shamt6, rd } => spec_op_imm(s, shamt6 as int, rd, F3_OP_IMM_SRLI, rd, ILEN_RVC),
        COpcode::CLI { imm6, rd } => (adv(wr(s, rd, wrap64(imm6.0 as int)), ILEN_RVC), true),
        COpcode::CJR { rs1 } => (spec_jalr(s, 0, rs1, 0), true),
        COpcode::CADD { rd, rs2 } => {
            let (s1, ok) = spec_op(s, F7_OP_ADD, rs2, rd, F3_OP_ADD_SUB, rd);
            (adv(s1, ILEN_RVC), ok)
        },
        COpcode::CADDW { rd, rs2 } => (
            adv(wr(s, rd, sext32(wrap32(rr(s, rd) % 0x1_0000_0000 + rr(s, rs2) % 0x1_0000_0000))), ILEN_RVC),
            true,
        ),
        COpcode::CSUBW { rd, rs2 } => (
            adv(wr(s, rd, sext32(wrap32(rr(s, rd) % 0x1_0000_0000 - rr(s, rs2) % 0x1_0000_0000))), ILEN_RVC),
            true,
        ),
        COpcode::SDSP { uimm6, rs2 } => {
            let (s1, ok) = spec_store(s, uimm6 * 8, rs2, 2, F3_OP_STORE_SD);
            (adv(s1, ILEN_RVC), ok)
        },
        COpcode::LDSP { uimm6, rd } => {
            let (s1, ok) = spec_load(s, uimm6 * 8, 2, F3_OP_LOAD_LD, rd);
            (adv(s1, ILEN_RVC), ok)
        },
        COpcode::LD { uoff8, rs1, rd } => {
            let (s1, ok) = spec_load(s, uoff8 as int, rs1, F3_OP_LOAD_LD, rd);
            (adv(s1, ILEN_RVC), ok)
        },
        COpcode::SW { uoff7, rs1, rs2 } => {
            let (s1, ok) = spec_store(s, uoff7 as int, rs2, rs1, F3_OP_STORE_SW);
            (adv(s1, ILEN_RVC), ok)
        },
        COpcode::SD { uoff8, rs1, rs2 } => {
            let (s1, ok) = spec_store(s, uoff8 as int, rs2, rs1, F3_OP_STORE_SD);
            (adv(s1, ILEN_RVC), ok)
        },
        COpcode::LW { uoff7, rs1, rd } => {
            let (s1, ok) = spec_load(s, uoff7 as int, rs1, F3_OP_LOAD_LW, rd);
            (adv(s1, ILEN_RVC), ok)
        },
        COpcode::ADDI4SPN { uimm8, rd } => spec_op_imm(s, uimm8 * 4, 2, F3_OP_IMM_ADDI, rd, ILEN_RVC),
        COpcode::MV { rd, rs2 } => {
            let (s1, ok) = spec_op(s, F7_OP_ADD, rs2, 0, F3_OP_ADD_SUB, rd);
            (adv(s1, ILEN_RVC), ok)
        },
        COpcode::ADDIW { rd, uimm6 } => (
            adv(wr(s, rd, sext32(wrap32(rr(s, rd) % 0x1_0000_0000 + uimm6))), ILEN_RVC),
            true,
        ),
        COpcode::COR { rd, rs2 } => (adv(wr(s, rd, rr(s, rd) | rr(s, rs2)), ILEN_RVC), true),
        COpcode::CAND { rd, rs2 } => (adv(wr(s, rd, rr(s, rd) & rr(s, rs2)), ILEN_RVC), true),
        COpcode::CANDI { imm6, rd } => (adv(wr(s, rd, rr(s, rd) & wrap64(imm6.0 as int)), ILEN_RVC), true),
        COpcode::CJ { imm12 } => (spec_jal(s, imm12.0 as int, 0), true),
        COpcode::BEQZ { imm9, rs1 } => spec_branch(s, imm9.0 as int, 0, rs1, F3_BRANCH_BEQ, ILEN_RVC),
        COpcode::BNEZ { imm9, rs1 } => spec_branch(s, imm9.0 as int, 0, rs1, F3_BRANCH_BNE, ILEN_RVC),
        COpcode::Uknown => (s, false),
    }
}

/// The instruction word fetched at the PC.
pub open spec fn fetch(s: CpuState) -> u32 {
    s.bus.read32(s.pc)
}

/// The compressed instruction held in the low 16 bits of `instr`.
pub open spec fn low16(instr: u32) -> u16 {
    (instr % 0x1_0000) as u16
}

/// Whether the next instruction can be fetched and executed.
#[verifier::opaque]
pub open spec fn can_step(s: CpuState) -> bool {
    &&& s.bus.readable32(s.pc)
    &&& if is_rvc(fetch(s)) {
        can_exec16(s, low16(fetch(s)))
    } else {
        can_exec32(s, fetch(s))
    }
}

/// Fetches and executes the next instruction.
#[verifier::opaque]
pub open spec fn step(s: CpuState) -> Outcome {
    if is_rvc(fetch(s)) {
        exec16(s, low16(fetch(s)))
    } else {
        exec32(s, fetch(s))
    }
}

/// The record of the next instruction, should it not be recognized.
pub open spec fn step_error(s: CpuState) -> ExecError {
    if is_rvc(fetch(s)) {
        ExecError { pc: s.pc, instr: low16(fetch(s)) as u32, rvc: true }
    } else {
        ExecError { pc: s.pc, instr: fetch(s), rvc: false }
    }
}

/// The state after `n` steps, and the records of the instructions among them that were not
/// recognized.
pub open spec fn run(s: CpuState, n: nat) -> (CpuState, Seq<ExecError>)
    decreases n,
{
    if n == 0 {
        (s, Seq::empty())
    } else {
        let (p, errs) = run(s, (n - 1) as nat);
        let (q, ok) = step(p);
        (q, if ok { errs } else { errs.push(step_error(p)) })
    }
}

/// Running `n` instructions and then `m` more gives the state, and the records of the
/// instructions that could not be executed, that running `n + m` in one go gives.
pub proof fn lemma_run_additive(s: CpuState, n: nat, m: nat)
    ensures
        run(run(s, n).0, m).0 == run(s, n + m).0,
        run(s, n).1 + run(run(s, n).0, m).1 == run(s, n + m).1,
    decreases m,
{
    if m == 0 {
        assert(run(s, n).1 + Seq::<ExecError>::empty() =~= run(s, n).1);
    } else {
        lemma_run_additive(s, n, (m - 1) as nat);
        let p = run(run(s, n).0, (m - 1) as nat);
        assert((n + m - 1) as nat == n + (m - 1) as nat);
        let (q, ok) = step(p.0);
        if !ok {
            assert(run(s, n).1 + p.1.push(step_error(p.0)) =~= (run(s, n).1 + p.1).push(
                step_error(p.0),
            ));
        }
    }
}

/// Register x0 stays zero, and there stay 32 registers, over any number of steps.
pub proof fn lemma_run_keeps_x0(s: CpuState, n: nat)
    requires
        s.x.len() == 32,
        s.x[0] == 0,
    ensures
        run(s, n).0.x.len() == 32,
        run(s, n).0.x[0] == 0,
    decreases n,
{
    if n > 0 {
        lemma_run_keeps_x0(s, (n - 1) as nat);
        let p = run(s, (n - 1) as nat).0;
        reveal(step);
        if is_rvc(fetch(p)) {
            lemma_exec16_keeps_x0(p, low16(fetch(p)));
        } else {
            lemma_exec32_keeps_x0(p, fetch(p));
        }
    }
}

/// Whether execution stops at `pc`: at any of the breakpoints.
pub open spec fn breaks_at(breakpoints: Seq<u64>, pc: u64) -> bool {
    breakpoints.contains(pc)
}

/// The compressed instruction held in the low 16 bits of `instr`.
pub fn low_half(instr: u32) -> (c: u16)
    ensures
        c == low16(instr),
{
    let c: u16 = (instr & 0xffff) as u16;
    assert(c == low16(instr)) by (bit_vector)
        requires
            c == (instr & 0xffff) as u16,
    ;
    c
}

/// `v` sign-extended to 64 bits.
fn sext32_to_u64(v: u32) -> (r: u64)
    ensures
        r == sext32(v),
{
    let w: u64 = v as u64;
    if v >= 0x8000_0000 {
        assert(w | 0xffff_ffff_0000_0000u64 == w + 0xffff_ffff_0000_0000u64) by (bit_vector)
            requires
                w < 0x1_0000_0000u64,
        ;
        w | 0xffff_ffff_0000_0000
    } else {
        w
    }
}

/// Bits 31..0 of `v`.
fn low32(v: u64) -> (r: u32)
    ensures
        r == v % 0x1_0000_0000,
{
    assert(v & 0xffff_ffffu64 == v % 0x1_0000_0000u64) by (bit_vector);
    (v & 0xffff_ffff) as u32
}

/// The low six bits of `v`, as a shift amount.
fn lowest6(v: i16) -> (r: u64)
    ensures
        r == (v % 64) as u64,
{
    let u: u16 = v as u16;
    let low: u16 = u & 0x3f;
    assert(low as int == v as int % 64) by (bit_vector)
        requires
            u == v as u16,
            low == u & 0x3f,
    ;
    low as u64
}

/// An RV64I hart (with the C extension and a few A and Zicsr instructions) on a bus.
pub struct RV64ICpu {
    pub regs: RV64IURegs,
    /// The word registered by the last LR.W.
    pub lr_sc_reservation: u64,
    pub bus: Bus,
    pub csrs: Csrs,
    /// Breakpoint addresses, in the order they were added.
    pub breakpoints: Vec<u64>,
    /// Number of executed instructions
    pub num_exec_instr: u64,
    /// Instructions that could not be executed and were not taken yet, oldest first.
    pub errors: Vec<ExecError>,
    /// Whether the user asked to follow the execution on the console.
    pub tracing: bool,
}

impl RV64ICpu {
    /// The architectural state.
    pub open spec fn st(&self) -> CpuState {
        CpuState {
            x: self.regs.x@,
            pc: self.regs.pc,
            bus: self.bus@,
            csrs: self.csrs@,
            reservation: self.lr_sc_reservation,
        }
    }

    /// Register x0 reads as zero: every constructor gives such a CPU and every instruction,
    /// register write and run keeps it so.
    pub open spec fn x0_zero(&self) -> bool {
        self.regs.x@[0] == 0
    }

    /// What instructions do not change: breakpoints, counter, error log and tracing.
    pub open spec fn same_control(&self, other: &RV64ICpu) -> bool {
        &&& self.breakpoints@ == other.breakpoints@
        &&& self.num_exec_instr == other.num_exec_instr
        &&& self.errors@ == other.errors@
        &&& self.tracing == other.tracing
    }

    /// A CPU with all registers zero, no breakpoints, and the given bus.
    pub fn new(bus: Bus) -> (r: RV64ICpu)
        ensures
            r.st() == (CpuState {
                x: Seq::new(32, |i: int| 0u64),
                pc: 0,
                bus: bus@,
                csrs: CsrView { mtvec: 0, mscratch: 0 },
                reservation: 0,
            }),
            r.bus.wf() == bus.wf(),
            r.breakpoints@ == Seq::<u64>::empty(),
            r.num_exec_instr == 0,
            r.errors@ == Seq::<ExecError>::empty(),
            !r.tracing,
            r.x0_zero(),
    {
        RV64ICpu {
            bus,
            regs: RV64IURegs::default(),
            lr_sc_reservation: 0,
            breakpoints: Vec::with_capacity(2),
            csrs: Csrs::new(),
            num_exec_instr: 0,
            errors: Vec::new(),
            tracing: false,
        }
    }

    /// The number of executed instructions.
    pub fn get_num_exec_instr(&self) -> (r: u64)
        ensures
            r == self.num_exec_instr,
    {
        self.num_exec_instr
    }

    /// The PC.
    pub fn get_pc(&self) -> (r: u64)
        ensures
            r == self.regs.pc,
    {
        self.regs.pc
    }

    /// The registers.
    pub fn get_regs(&self) -> (r: &RV64IURegs)
        ensures
            r == &self.regs,
    {
        &self.regs
    }

    /// Adds a breakpoint; execution stops at any of them.
    pub fn add_breakpoint(&mut self, breakpoint: u64)
        ensures
            final(self).tracing == old(self).tracing,
            final(self).st() == old(self).st(),
            final(self).bus == old(self).bus,
            final(self).breakpoints@ == old(self).breakpoints@.push(breakpoint),
            final(self).num_exec_instr == old(self).num_exec_instr,
            final(self).errors@ == old(self).errors@,
    {
        self.breakpoints.push(breakpoint)
    }

    /// Writes register `reg_i` (0 - 31); writes to x0 are ignored.
    pub fn regs_w64(&mut self, reg_i: u8, val: u64)
        requires
            reg_i < 32,
            old(self).regs.x@.len() == 32,
        ensures
            final(self).st() == wr(old(self).st(), reg_i, val),
            final(self).bus == old(self).bus,
            final(self).same_control(old(self)),
            old(self).x0_zero() ==> final(self).x0_zero(),
            reg_i == 0 ==> final(self).regs.x@ == old(self).regs.x@,
    {
        if reg_i == 0 {
            return;
        }
        self.regs.x[reg_i as usize] = val;
    }

    /// Writes the 32-bit value sign-extended to 64 bits.
    pub fn regs_wi32(&mut self, reg_i: u8, val_i32: u32)
        requires
            reg_i < 32,
            old(self).regs.x@.len() == 32,
        ensures
            final(self).st() == wr(old(self).st(), reg_i, sext32(val_i32)),
            final(self).bus == old(self).bus,
            final(self).same_control(old(self)),
            old(self).x0_zero() ==> final(self).x0_zero(),
            reg_i == 0 ==> final(self).regs.x@ == old(self).regs.x@,
    {
        let val_u64 = sext32_to_u64(val_i32);
        self.regs_w64(reg_i, val_u64)
    }

    /// Writes the 32-bit value zero-extended to 64 bits.
    pub fn regs_w32(&mut self, reg_i: u8, val_i32: u32)
        requires
            reg_i < 32,
            old(self).regs.x@.len() == 32,
        ensures
            final(self).st() == wr(old(self).st(), reg_i, val_i32 as u64),
            final(self).bus == old(self).bus,
            final(self).same_control(old(self)),
            old(self).x0_zero() ==> final(self).x0_zero(),
            reg_i == 0 ==> final(self).regs.x@ == old(self).regs.x@,
    {
        self.regs_w64(reg_i, val_i32 as u64)
    }

    /// Writes the byte sign-extended to 64 bits.
    fn regs_wi8(&mut self, reg_i: u8, val: u8)
        requires
            reg_i < 32,
            old(self).regs.x@.len() == 32,
        ensures
            final(self).st() == wr(old(self).st(), reg_i, sext8(val)),
            final(self).bus == old(self).bus,
            final(self).same_control(old(self)),
    {
        let v: u64 = val as u64;
        let val_u64: u64 = if val >= 0x80 {
            assert(v | 0xffff_ffff_ffff_ff00u64 == v + 0xffff_ffff_ffff_ff00u64) by (bit_vector)
                requires
                    v < 0x100u64,
            ;
            v | 0xffff_ffff_ffff_ff00
        } else {
            v
        };
        self.regs_w64(reg_i, val_u64)
    }

    /// Writes the byte zero-extended to 64 bits.
    fn regs_wu8(&mut self, reg_i: u8, val: u8)
        requires
            reg_i < 32,
            old(self).regs.x@.len() == 32,
        ensures
            final(self).st() == wr(old(self).st(), reg_i, val as u64),
            final(self).bus == old(self).bus,
            final(self).same_control(old(self)),
    {
        self.regs_w64(reg_i, val as u64)
    }

    /// Reads register `reg_i` (0 - 31).
    pub fn regs_r64(&self, reg_i: u8) -> (r: u64)
        requires
            reg_i < 32,
            self.regs.x@.len() == 32,
        ensures
            r == rr(self.st(), reg_i),
            self.x0_zero() && reg_i == 0 ==> r == 0,
    {
        self.regs.x[reg_i as usize]
    }

    /// Reads bits 31..0 of register `reg_i`.
    fn regs_r32(&self, reg_i: u8) -> (r: u32)
        requires
            reg_i < 32,
            self.regs.x@.len() == 32,
        ensures
            r == rr(self.st(), reg_i) % 0x1_0000_0000,
    {
        low32(self.regs.x[reg_i as usize])
    }

    /// Reads register `reg_i` as a signed number.
    fn regs_ri64(&self, reg_i: u8) -> (r: i64)
        requires
            reg_i < 32,
            self.regs.x@.len() == 32,
        ensures
            r == rr(self.st(), reg_i) as i64,
    {
        self.regs.x[reg_i as usize] as i64
    }

    /// Moves the PC on by `inc` bytes.
    fn pc_inc(&mut self, inc: u8)
        ensures
            final(self).st() == adv(old(self).st(), inc),
            final(self).bus == old(self).bus,
            final(self).regs.x == old(self).regs.x,
            final(self).same_control(old(self)),
    {
        self.regs.pc = self.regs.pc.wrapping_add(inc as u64);
    }

    /// Sets the PC.
    pub fn pc_jump(&mut self, new_addr: u64)
        ensures
            final(self).st() == jump(old(self).st(), new_addr),
            final(self).bus == old(self).bus,
            final(self).regs.x == old(self).regs.x,
            final(self).same_control(old(self)),
    {
        self.regs.pc = new_addr;
    }

    fn pc_add_i13(&mut self, off13: I13)
        ensures
            final(self).st() == jump(old(self).st(), wrap64(old(self).regs.pc + off13.0)),
            final(self).bus == old(self).bus,
            final(self).regs.x == old(self).regs.x,
            final(self).same_control(old(self)),
    {
        self.regs.pc = self.regs.pc.add_i13(off13);
    }

    fn pc_add_i21(&mut self, off21: I21)
        ensures
            final(self).st() == jump(old(self).st(), wrap64(old(self).regs.pc + off21.0)),
            final(self).bus == old(self).bus,
            final(self).regs.x == old(self).regs.x,
            final(self).same_control(old(self)),
    {
        self.regs.pc = self.regs.pc.add_i21(off21);
    }
}

impl RV64ICpu {
    /// SYSTEM: CSRRS, CSRRW, CSRRWI, WFI.
    fn exe_opc_system(&mut self, csr: u16, rs1: u8, funct3: u8, rd: u8) -> (r: bool)
        requires
            rs1 < 32,
            rd < 32,
            system_ok(csr, funct3),
        ensures
            (final(self).st(), r) == spec_system(old(self).st(), csr, rs1, funct3, rd),
            final(self).bus == old(self).bus,
            final(self).same_control(old(self)),
    {
        if funct3 == F3_SYSTEM_CSRRS {
            let csr_v = self.csrs.r64(csr);
            self.regs_w64(rd, csr_v);
            let v = csr_v | self.regs_r64(rs1);
            self.csrs.w64(csr, v);
        } else if funct3 == F3_SYSTEM_CSRRW {
            let csr_v = self.csrs.r64(csr);
            self.regs_w64(rd, csr_v);
            let v = self.regs_r64(rs1);
            self.csrs.w64(csr, v);
        } else if funct3 == F3_SYSTEM_CSRRWI {
            let csr_v = self.csrs.r64(csr);
            self.regs_w64(rd, csr_v);
            // rs1 holds uimm[4:0]
            self.csrs.w64(csr, rs1 as u64);
        } else if funct3 == F3_SYSTEM_WFI {
            // No interrupts are modelled: WFI moves on.
        } else {
            return false;
        }
        self.pc_inc(ILEN_32B);
        true
    }

    /// BRANCH: BEQ, BNE, BLT, BLTU, BGE, BGEU.
    fn exe_opc_branch(&mut self, off13: I13, rs2: u8, rs1: u8, funct3: u8, ilen: u8) -> (r: bool)
        requires
            rs1 < 32,
            rs2 < 32,
        ensures
            (final(self).st(), r) == spec_branch(old(self).st(), off13.0 as int, rs2, rs1, funct3, ilen),
            final(self).bus == old(self).bus,
            final(self).same_control(old(self)),
    {
        let taken = if funct3 == F3_BRANCH_BNE {
            self.regs_r64(rs1) != self.regs_r64(rs2)
        } else if funct3 == F3_BRANCH_BEQ {
            self.regs_r64(rs1) == self.regs_r64(rs2)
        } else if funct3 == F3_BRANCH_BLT {
            self.regs_ri64(rs1) < self.regs_ri64(rs2)
        } else if funct3 == F3_BRANCH_BLTU {
            self.regs_r64(rs1) < self.regs_r64(rs2)
        } else if funct3 == F3_BRANCH_BGE {
            self.regs_ri64(rs1) >= self.regs_ri64(rs2)
        } else if funct3 == F3_BRANCH_BGEU {
            self.regs_r64(rs1) >= self.regs_r64(rs2)
        } else {
            return false;
        };
        if taken {
            self.pc_add_i13(off13);
        } else {
            self.pc_inc(ilen);
        }
        true
    }

    /// LUI: rd gets the upper immediate, sign-extended.
    fn exe_opc_lui(&mut self, uimm20: u32, rd: u8)
        requires
            rd < 32,
        ensures
            final(self).st() == wr(old(self).st(), rd, sext32(uimm20)),
            final(self).bus == old(self).bus,
            final(self).same_control(old(self)),
    {
        self.regs_wi32(rd, uimm20);
    }

    /// AUIPC: rd gets the PC plus the sign-extended upper immediate.
    fn exe_opc_auipc(&mut self, uimm20: u64, rd: u8)
        requires
            rd < 32,
            uimm20 < 0x1_0000_0000,
        ensures
            final(self).st() == adv(
                wr(old(self).st(), rd, wrap64(old(self).regs.pc + sext32(uimm20 as u32))),
                ILEN_32B,
            ),
            final(self).bus == old(self).bus,
            final(self).same_control(old(self)),
    {
        let off = sext32_to_u64(uimm20 as u32);
        let pc = self.regs.pc;
        self.regs_w64(rd, pc.wrapping_add(off));
        self.pc_inc(ILEN_32B);
    }

    /// OP-IMM: ADDI, SLTIU, XORI, ANDI, SLLI, SRLI.
    fn exe_opc_op_imm(&mut self, imm12: I12, rs1: u8, funct3: u8, rd: u8, isize: u8) -> (r: bool)
        requires
            rs1 < 32,
            rd < 32,
        ensures
            (final(self).st(), r) == spec_op_imm(old(self).st(), imm12.0 as int, rs1, funct3, rd, isize),
            final(self).bus == old(self).bus,
            final(self).same_control(old(self)),
    {
        let a = self.regs_r64(rs1);
        let m: u64 = 0u64.wrapping_add_signed(imm12.0 as i64);
        let shamt: u64 = lowest6(imm12.0);
        if funct3 == F3_OP_IMM_ADDI {
            self.regs_w64(rd, a.add_i12(imm12));
        } else if funct3 == F3_OP_IMM_SLTIU {
            self.regs_w64(rd, if a < m { 1 } else { 0 });
        } else if funct3 == F3_OP_IMM_XORI {
            self.regs_w64(rd, a ^ m);
        } else if funct3 == F3_OP_IMM_ANDI {
            self.regs_w64(rd, a & m);
        } else if funct3 == F3_OP_IMM_SLLI {
            self.regs_w64(rd, a << shamt);
        } else if funct3 == F3_OP_IMM_SRLI {
            self.regs_w64(rd, a >> shamt);
        } else {
            return false;
        }
        self.pc_inc(isize);
        true
    }

    /// OP: ADD and SUB; the PC is left to the caller.
    fn exe_opc_op(&mut self, funct7: u8, rs2: u8, rs1: u8, funct3: u8, rd: u8) -> (r: bool)
        requires
            rs1 < 32,
            rs2 < 32,
            rd < 32,
        ensures
            (final(self).st(), r) == spec_op(old(self).st(), funct7, rs2, rs1, funct3, rd),
            final(self).bus == old(self).bus,
            final(self).same_control(old(self)),
    {
        if funct7 == F7_OP_ADD && funct3 == F3_OP_ADD_SUB {
            let v = self.regs_r64(rs1).wrapping_add(self.regs_r64(rs2));
            self.regs_w64(rd, v);
            true
        } else if funct7 == F7_OP_SUB && funct3 == F3_OP_ADD_SUB {
            let v = self.regs_r64(rs1).wrapping_sub(self.regs_r64(rs2));
            self.regs_w64(rd, v);
            true
        } else {
            false
        }
    }

    /// JAL: jump and link.
    fn exe_opc_jal(&mut self, imm21: I21, rd: u8)
        requires
            rd < 32,
        ensures
            final(self).st() == spec_jal(old(self).st(), imm21.0 as int, rd),
            final(self).bus == old(self).bus,
            final(self).same_control(old(self)),
    {
        let link = self.regs.pc.wrapping_add(4);
        self.regs_w64(rd, link);
        self.pc_add_i21(imm21);
    }

    /// JALR: jump and link register.
    fn exe_opc_jalr(&mut self, imm12: I12, rs1: u8, rd: u8)
        requires
            rs1 < 32,
            rd < 32,
        ensures
            final(self).st() == spec_jalr(old(self).st(), imm12.0 as int, rs1, rd),
            final(self).bus == old(self).bus,
            final(self).same_control(old(self)),
    {
        let target = self.regs_r64(rs1).add_i12(imm12);
        let new_addr = target.rst_bits(0, 0);
        assert(target & !field_mask64(0, 0) == target - target % 2) by (bit_vector);
        let link = self.regs.pc.wrapping_add(4);
        self.regs_w64(rd, link);
        self.pc_jump(new_addr);
    }
}

impl RV64ICpu {
    /// LOAD: LB, LBU, LW, LWU, LD; the PC is left to the caller.
    fn exe_opc_load(&mut self, imm12: I12, rs1: u8, funct3: u8, rd: u8) -> (r: bool)
        requires
            rs1 < 32,
            rd < 32,
            old(self).bus.wf(),
            load_ok(old(self).st(), imm12.0 as int, rs1, funct3),
        ensures
            (final(self).st(), r) == spec_load(old(self).st(), imm12.0 as int, rs1, funct3, rd),
            final(self).bus == old(self).bus,
            final(self).same_control(old(self)),
    {
        let addr = self.regs_r64(rs1).add_i12(imm12);
        if funct3 == F3_OP_LOAD_LB {
            let v = self.bus.read8(addr);
            self.regs_wi8(rd, v);
        } else if funct3 == F3_OP_LOAD_LBU {
            let v = self.bus.read8(addr);
            self.regs_wu8(rd, v);
        } else if funct3 == F3_OP_LOAD_LW {
            let v = self.bus.read32(addr);
            self.regs_wi32(rd, v);
        } else if funct3 == F3_OP_LOAD_LWU {
            let v = self.bus.read32(addr);
            self.regs_w32(rd, v);
        } else if funct3 == F3_OP_LOAD_LD {
            let v = self.bus.read64(addr);
            self.regs_w64(rd, v);
        } else {
            return false;
        }
        true
    }

    /// STORE: SB, SW, SD; the PC is left to the caller.
    fn exe_opc_store(&mut self, imm12: I12, rs2: u8, rs1: u8, funct3: u8) -> (r: bool)
        requires
            rs1 < 32,
            rs2 < 32,
            old(self).bus.wf(),
            store_ok(old(self).st(), imm12.0 as int, rs1, funct3),
        ensures
            (final(self).st(), r) == spec_store(old(self).st(), imm12.0 as int, rs2, rs1, funct3),
            final(self).bus.wf(),
            final(self).same_control(old(self)),
    {
        let addr = self.regs_r64(rs1).add_i12(imm12);
        if funct3 == F3_OP_STORE_SB {
            let v = self.regs_r64(rs2);
            assert(v & 0xffu64 == v % 0x100u64) by (bit_vector);
            self.bus.write8(addr, (v & 0xff) as u8);
        } else if funct3 == F3_OP_STORE_SW {
            let v = self.regs_r32(rs2);
            self.bus.write32(addr, v);
        } else if funct3 == F3_OP_STORE_SD {
            let v = self.regs_r64(rs2);
            self.bus.write64(addr, v);
        } else {
            return false;
        }
        true
    }

    /// AMO: AMOADD.W, AMOSWAP.W, LR.W. The ordering bits (aq, rl) have no effect here.
    #[verifier::rlimit(50)]
    fn exe_opc_amo(&mut self, funct5: u8, rs2: u8, rs1: u8, funct3: u8, rd: u8) -> (r: bool)
        requires
            rs1 < 32,
            rs2 < 32,
            rd < 32,
            old(self).bus.wf(),
            amo_ok(old(self).st(), funct5, rs2, rs1, funct3),
        ensures
            (final(self).st(), r) == spec_amo(old(self).st(), funct5, rs2, rs1, funct3, rd),
            final(self).bus.wf(),
            final(self).same_control(old(self)),
    {
        if funct3 == F3_OP_AMO_WORD && funct5 == F5_OP_AMO_ADD {
            // amoadd.w rd, rs2, (rs1): rd <= mem[rs1]; mem[rs1] <= rd + rs2
            let address = self.regs_r64(rs1);
            let w = self.bus.read32(address);
            self.regs_wi32(rd, w);
            let sum = self.regs_r64(rs2).wrapping_add(self.regs_r64(rd));
            self.bus.write32(address, low32(sum));
        } else if funct3 == F3_OP_AMO_WORD && funct5 == F5_OP_AMO_SWAP {
            // amoswap.w rd, rs2, (rs1): rd <= mem[rs1]; mem[rs1] <= rs2
            let address = self.regs_r64(rs1);
            let w = self.bus.read32(address);
            self.regs_wi32(rd, w);
            let v = self.regs_r32(rs2);
            self.bus.write32(address, v);
        } else if funct3 == F3_OP_AMO_WORD && funct5 == F5_OP_AMO_LRW && rs2 == 0 {
            // lr.w rd, (rs1): registers the addressed word as the reservation
            let address = self.regs_r64(rs1);
            let w = self.bus.read32(address);
            self.regs_wi32(rd, w);
            self.lr_sc_reservation = w as u64;
        } else {
            return false;
        }
        self.pc_inc(ILEN_32B);
        true
    }

    /// Executes one 32-bit instruction. An instruction that is not recognized is recorded in
    /// the error log (with the PC it was executed at); the counter of executed instructions
    /// grows in any case.
    #[verifier::spinoff_prover]
    #[verifier::rlimit(80)]
    pub fn execute_instr(&mut self, instr: u32)
        requires
            old(self).bus.wf(),
            can_exec32(old(self).st(), instr),
            old(self).num_exec_instr < u64::MAX,
        ensures
            final(self).tracing == old(self).tracing,
            old(self).x0_zero() ==> final(self).x0_zero(),
            final(self).st() == exec32(old(self).st(), instr).0,
            final(self).bus.wf(),
            final(self).num_exec_instr == old(self).num_exec_instr + 1,
            final(self).breakpoints@ == old(self).breakpoints@,
            final(self).errors@ == if exec32(old(self).st(), instr).1 {
                old(self).errors@
            } else {
                old(self).errors@.push(ExecError { pc: old(self).regs.pc, instr, rvc: false })
            },
    {
        proof {
            if self.x0_zero() {
                lemma_exec32_keeps_x0(self.st(), instr);
            }
        }
        let pc = self.regs.pc;
        proof {
            lemma_fields_in_range(instr);
        }
        let ok = match decode_instr(instr) {
            Opcode::LUI { uimm20, rd } => {
                self.exe_opc_lui(uimm20, rd);
                self.pc_inc(ILEN_32B);
                true
            },
            Opcode::Auipc { uimm20, rd } => {
                self.exe_opc_auipc(uimm20, rd);
                true
            },
            Opcode::Branch { off13, rs2, rs1, funct3 } => self.exe_opc_branch(
                off13,
                rs2,
                rs1,
                funct3,
                ILEN_32B,
            ),
            Opcode::Jal { imm21, rd } => {
                self.exe_opc_jal(imm21, rd);
                true
            },
            Opcode::Jalr { imm12, rs1, rd } => {
                self.exe_opc_jalr(imm12, rs1, rd);
                true
            },
            Opcode::Fence { .. } => {
                // FENCE and FENCE.I have no effect on a single in-order hart.
                self.pc_inc(ILEN_32B);
                true
            },
            Opcode::Load { imm12, rs1, funct3, rd } => {
                let res = self.exe_opc_load(imm12, rs1, funct3, rd);
                self.pc_inc(ILEN_32B);
                res
            },
            Opcode::Store { imm12, rs2, rs1, funct3 } => {
                let res = self.exe_opc_store(imm12, rs2, rs1, funct3);
                self.pc_inc(ILEN_32B);
                res
            },
            Opcode::OpImm { imm12, rs1, funct3, rd } => self.exe_opc_op_imm(
                imm12,
                rs1,
                funct3,
                rd,
                ILEN_32B,
            ),
            Opcode::ADDIW { imm12, rs1, rd } => {
                let v = self.regs_r32(rs1).wrapping_add_signed(imm12.0 as i32);
                self.regs_wi32(rd, v);
                self.pc_inc(ILEN_32B);
                true
            },
            Opcode::SLLIW { shamt, rs1, rd } => {
                let v = self.regs_r32(rs1) << shamt;
                self.regs_wi32(rd, v);
                self.pc_inc(ILEN_32B);
                true
            },
            Opcode::SRLIW { shamt, rs1, rd } => {
                let v = self.regs_r32(rs1) >> shamt;
                self.regs_wi32(rd, v);
                self.pc_inc(ILEN_32B);
                true
            },
            Opcode::Op { funct7, rs2, rs1, funct3, rd } => {
                let res = self.exe_opc_op(funct7, rs2, rs1, funct3, rd);
                self.pc_inc(ILEN_32B);
                res
            },
            Opcode::SUBW { rs2, rs1, rd } => {
                let v = self.regs_r32(rs1).wrapping_sub(self.regs_r32(rs2));
                self.regs_wi32(rd, v);
                self.pc_inc(ILEN_32B);
                true
            },
            Opcode::Amo { funct5, rs2, rs1, funct3, rd, .. } => self.exe_opc_amo(
                funct5,
                rs2,
                rs1,
                funct3,
                rd,
            ),
            Opcode::System { csr, rs1, funct3, rd } => self.exe_opc_system(csr, rs1, funct3, rd),
            Opcode::Uknown => false,
        };
        if !ok {
            self.errors.push(ExecError { pc, instr, rvc: false });
        }
        self.num_exec_instr = self.num_exec_instr + 1;
    }
}

impl RV64ICpu {
    /// C.LI: rd gets the sign-extended 6-bit immediate.
    pub fn exe_opc_c_li(&mut self, imm6: I6, rd: u8) -> (r: Result<(), String>)
        requires
            rd < 32,
        ensures
            r is Ok,
            final(self).st() == adv(wr(old(self).st(), rd, wrap64(imm6.0 as int)), ILEN_RVC),
            final(self).bus == old(self).bus,
            final(self).same_control(old(self)),
    {
        self.regs_w64(rd, 0u64.wrapping_add_signed(imm6.0 as i64));
        self.pc_inc(ILEN_RVC);
        Ok(())
    }

    /// Executes one compressed instruction. An instruction that is not recognized (or is
    /// reserved) is recorded in the error log; the counter of executed instructions grows in
    /// any case.
    #[verifier::spinoff_prover]
    #[verifier::rlimit(80)]
    pub fn execute_rvc_instr(&mut self, c_instr: u16)
        requires
            old(self).bus.wf(),
            can_exec16(old(self).st(), c_instr),
            old(self).num_exec_instr < u64::MAX,
        ensures
            final(self).tracing == old(self).tracing,
            old(self).x0_zero() ==> final(self).x0_zero(),
            final(self).st() == exec16(old(self).st(), c_instr).0,
            final(self).bus.wf(),
            final(self).num_exec_instr == old(self).num_exec_instr + 1,
            final(self).breakpoints@ == old(self).breakpoints@,
            final(self).errors@ == if exec16(old(self).st(), c_instr).1 {
                old(self).errors@
            } else {
                old(self).errors@.push(
                    ExecError { pc: old(self).regs.pc, instr: c_instr as u32, rvc: true },
                )
            },
    {
        proof {
            if self.x0_zero() {
                lemma_exec16_keeps_x0(self.st(), c_instr);
            }
        }
        let pc = self.regs.pc;
        proof {
            lemma_c_fields_in_range(c_instr);
        }
        let ok = match rv64c_decode_instr(c_instr) {
            COpcode::CNOP => {
                self.pc_inc(ILEN_RVC);
                true
            },
            // HINTs execute as no-ops.
            COpcode::Hint => {
                self.pc_inc(ILEN_RVC);
                true
            },
            COpcode::Reserved => false,
            // c.addi expands into addi rd, rd, nzimm[5:0]
            COpcode::CADDI { imm6, rd } => self.exe_opc_op_imm(
                I12::from_i16(imm6.0 as i16),
                rd,
                F3_OP_IMM_ADDI,
                rd,
                ILEN_RVC,
            ),
            COpcode::CLUI { imm6, rd } => {
                let v: i64 = (imm6.0 as i64) * 0x1000;
                self.regs_w64(rd, 0u64.wrapping_add_signed(v));
                self.pc_inc(ILEN_RVC);
                true
            },
            // c.addi16sp expands into addi x2, x2, nzimm[9:4]
            COpcode::ADDI16SP { imm6 } => self.exe_opc_op_imm(
                I12::from_i16((imm6.0 as i16) * 16),
                2,
                F3_OP_IMM_ADDI,
                2,
                ILEN_RVC,
            ),
            // c.slli rd, nzimm[5:0] expands into slli rd, rd, nzimm[5:0]
            COpcode::CSLLI { uimm6, rd } => self.exe_opc_op_imm(
                I12::from_i16(uimm6 as i16),
                rd,
                F3_OP_IMM_SLLI,
                rd,
                ILEN_RVC,
            ),
            COpcode::CSRLI { shamt6, rd } => self.exe_opc_op_imm(
                I12::from_i16(shamt6 as i16),
                rd,
                F3_OP_IMM_SRLI,
                rd,
                ILEN_RVC,
            ),
            COpcode::CLI { imm6, rd } => {
                let _ = self.exe_opc_c_li(imm6, rd);
                true
            },
            // c.jr expands to jalr x0, 0(rs1)
            COpcode::CJR { rs1 } => {
                self.exe_opc_jalr(I12::from_i16(0), rs1, 0);
                true
            },
            COpcode::CADD { rd, rs2 } => {
                let res = self.exe_opc_op(F7_OP_ADD, rs2, rd, F3_OP_ADD_SUB, rd);
                self.pc_inc(ILEN_RVC);
                res
            },
            COpcode::CADDW { rd, rs2 } => {
                let v = self.regs_r32(rd).wrapping_add(self.regs_r32(rs2));
                self.regs_wi32(rd, v);
                self.pc_inc(ILEN_RVC);
                true
            },
            COpcode::CSUBW { rd, rs2 } => {
                let v = self.regs_r32(rd).wrapping_sub(self.regs_r32(rs2));
                self.regs_wi32(rd, v);
                self.pc_inc(ILEN_RVC);
                true
            },
            COpcode::SDSP { uimm6, rs2 } => {
                let res = self.exe_opc_store(
                    I12::from_i16((uimm6 as i16) * 8),
                    rs2,
                    2,
                    F3_OP_STORE_SD,
                );
                self.pc_inc(ILEN_RVC);
                res
            },
            COpcode::LDSP { uimm6, rd } => {
                let res = self.exe_opc_load(
                    I12::from_i16((uimm6 as i16) * 8),
                    2,
                    F3_OP_LOAD_LD,
                    rd,
                );
                self.pc_inc(ILEN_RVC);
                res
            },
            // c.ld expands to ld rd', offset[7:3](rs1')
            COpcode::LD { uoff8, rs1, rd } => {
                let res = self.exe_opc_load(I12::from_i16(uoff8 as i16), rs1, F3_OP_LOAD_LD, rd);
                self.pc_inc(ILEN_RVC);
                res
            },
            // c.sw expands to sw rs2', offset[6:2](rs1')
            COpcode::SW { uoff7, rs1, rs2 } => {
                let res = self.exe_opc_store(I12::from_i16(uoff7 as i16), rs2, rs1, F3_OP_STORE_SW);
                self.pc_inc(ILEN_RVC);
                res
            },
            // c.sd expands to sd rs2', offset[7:3](rs1')
            COpcode::SD { uoff8, rs1, rs2 } => {
                let res = self.exe_opc_store(I12::from_i16(uoff8 as i16), rs2, rs1, F3_OP_STORE_SD);
                self.pc_inc(ILEN_RVC);
                res
            },
            // c.lw expands to lw rd', offset[6:2](rs1')
            COpcode::LW { uoff7, rs1, rd } => {
                let res = self.exe_opc_load(I12::from_i16(uoff7 as i16), rs1, F3_OP_LOAD_LW, rd);
                self.pc_inc(ILEN_RVC);
                res
            },
            // c.addi4spn expands to addi rd', x2, nzuimm[9:2]
            COpcode::ADDI4SPN { uimm8, rd } => self.exe_opc_op_imm(
                I12::from_i16((uimm8 as i16) * 4),
                2,
                F3_OP_IMM_ADDI,
                rd,
                ILEN_RVC,
            ),
            // c.mv expands to add rd, x0, rs2
            COpcode::MV { rd, rs2 } => {
                let res = self.exe_opc_op(F7_OP_ADD, rs2, 0, F3_OP_ADD_SUB, rd);
                self.pc_inc(ILEN_RVC);
                res
            },
            // c.addiw expands to addiw rd, rd, imm[5:0]
            COpcode::ADDIW { rd, uimm6 } => {
                let v = self.regs_r32(rd).wrapping_add(uimm6 as u32);
                self.regs_wi32(rd, v);
                self.pc_inc(ILEN_RVC);
                true
            },
            COpcode::COR { rd, rs2 } => {
                let v = self.regs_r64(rd) | self.regs_r64(rs2);
                self.regs_w64(rd, v);
                self.pc_inc(ILEN_RVC);
                true
            },
            COpcode::CAND { rd, rs2 } => {
                let v = self.regs_r64(rd) & self.regs_r64(rs2);
                self.regs_w64(rd, v);
                self.pc_inc(ILEN_RVC);
                true
            },
            COpcode::CANDI { imm6, rd } => {
                let v = self.regs_r64(rd) & 0u64.wrapping_add_signed(imm6.0 as i64);
                self.regs_w64(rd, v);
                self.pc_inc(ILEN_RVC);
                true
            },
            // c.j expands to jal x0, offset[11:1]
            COpcode::CJ { imm12 } => {
                self.exe_opc_jal(I21::from_i32(imm12.0 as i32), 0);
                true
            },
            // c.beqz expands to beq rs1', x0, offset[8:1]
            COpcode::BEQZ { imm9, rs1 } => self.exe_opc_branch(
                I13::from_i16(imm9.0),
                0,
                rs1,
                F3_BRANCH_BEQ,
                ILEN_RVC,
            ),
            // c.bnez expands to bne rs1', x0, offset[8:1]
            COpcode::BNEZ { imm9, rs1 } => self.exe_opc_branch(
                I13::from_i16(imm9.0),
                0,
                rs1,
                F3_BRANCH_BNE,
                ILEN_RVC,
            ),
            COpcode::Uknown => false,
        };
        if !ok {
            self.errors.push(ExecError { pc, instr: c_instr as u32, rvc: true });
        }
        self.num_exec_instr = self.num_exec_instr + 1;
    }

    /// Executes one compressed instruction (the same as `execute_rvc_instr`).
    pub fn execute_16b_instr(&mut self, c_instr: u16)
        requires
            old(self).bus.wf(),
            can_exec16(old(self).st(), c_instr),
            old(self).num_exec_instr < u64::MAX,
        ensures
            final(self).tracing == old(self).tracing,
            old(self).x0_zero() ==> final(self).x0_zero(),
            final(self).st() == exec16(old(self).st(), c_instr).0,
            final(self).bus.wf(),
            final(self).num_exec_instr == old(self).num_exec_instr + 1,
            final(self).breakpoints@ == old(self).breakpoints@,
            final(self).errors@ == if exec16(old(self).st(), c_instr).1 {
                old(self).errors@
            } else {
                old(self).errors@.push(
                    ExecError { pc: old(self).regs.pc, instr: c_instr as u32, rvc: true },
                )
            },
    {
        self.execute_rvc_instr(c_instr)
    }
}

impl RV64ICpu {
    fn load_can_run(&self, imm12: I12, rs1: u8, funct3: u8) -> (r: bool)
        requires
            rs1 < 32,
            self.bus.wf(),
        ensures
            r == load_ok(self.st(), imm12.0 as int, rs1, funct3),
    {
        let addr = self.regs_r64(rs1).add_i12(imm12);
        if funct3 == F3_OP_LOAD_LB || funct3 == F3_OP_LOAD_LBU {
            self.bus.is_readable8(addr)
        } else if funct3 == F3_OP_LOAD_LW || funct3 == F3_OP_LOAD_LWU {
            self.bus.is_readable32(addr)
        } else if funct3 == F3_OP_LOAD_LD {
            self.bus.is_readable64(addr)
        } else {
            true
        }
    }

    fn store_can_run(&self, imm12: I12, rs1: u8, funct3: u8) -> (r: bool)
        requires
            rs1 < 32,
            self.bus.wf(),
        ensures
            r == store_ok(self.st(), imm12.0 as int, rs1, funct3),
    {
        let addr = self.regs_r64(rs1).add_i12(imm12);
        if funct3 == F3_OP_STORE_SB {
            self.bus.is_writable8(addr)
        } else if funct3 == F3_OP_STORE_SW {
            self.bus.is_writable32(addr)
        } else if funct3 == F3_OP_STORE_SD {
            self.bus.is_writable64(addr)
        } else {
            true
        }
    }

    /// Whether the 32-bit instruction `instr` touches only memory and CSRs that exist, so
    /// that `execute_instr` can run it.
    pub fn can_execute_instr(&self, instr: u32) -> (r: bool)
        requires
            self.bus.wf(),
        ensures
            r == can_exec32(self.st(), instr),
    {
        proof {
            lemma_fields_in_range(instr);
        }
        match decode_instr(instr) {
            Opcode::Load { imm12, rs1, funct3, .. } => self.load_can_run(imm12, rs1, funct3),
            Opcode::Store { imm12, rs1, funct3, .. } => self.store_can_run(imm12, rs1, funct3),
            Opcode::Amo { funct5, rs2, rs1, funct3, .. } => {
                let addr = self.regs_r64(rs1);
                if funct3 == F3_OP_AMO_WORD && (funct5 == F5_OP_AMO_ADD || funct5 == F5_OP_AMO_SWAP) {
                    self.bus.is_readable32(addr) && self.bus.is_writable32(addr)
                } else if funct3 == F3_OP_AMO_WORD && funct5 == F5_OP_AMO_LRW && rs2 == 0 {
                    self.bus.is_readable32(addr)
                } else {
                    true
                }
            },
            Opcode::System { csr, funct3, .. } => {
                !(funct3 == F3_SYSTEM_CSRRS || funct3 == F3_SYSTEM_CSRRW || funct3
                    == F3_SYSTEM_CSRRWI) || csr == MTVEC || csr == MHARTID || csr == MSCRATCH
            },
            _ => true,
        }
    }

    /// Whether the compressed instruction `c_instr` touches only memory that exists, so that
    /// `execute_rvc_instr` can run it.
    pub fn can_execute_rvc_instr(&self, c_instr: u16) -> (r: bool)
        requires
            self.bus.wf(),
        ensures
            r == can_exec16(self.st(), c_instr),
    {
        proof {
            lemma_c_fields_in_range(c_instr);
        }
        match rv64c_decode_instr(c_instr) {
            COpcode::SDSP { uimm6, .. } => self.store_can_run(
                I12::from_i16((uimm6 as i16) * 8),
                2,
                F3_OP_STORE_SD,
            ),
            COpcode::LDSP { uimm6, .. } => self.load_can_run(
                I12::from_i16((uimm6 as i16) * 8),
                2,
                F3_OP_LOAD_LD,
            ),
            COpcode::LD { uoff8, rs1, .. } => self.load_can_run(
                I12::from_i16(uoff8 as i16),
                rs1,
                F3_OP_LOAD_LD,
            ),
            COpcode::SW { uoff7, rs1, .. } => self.store_can_run(
                I12::from_i16(uoff7 as i16),
                rs1,
                F3_OP_STORE_SW,
            ),
            COpcode::SD { uoff8, rs1, .. } => self.store_can_run(
                I12::from_i16(uoff8 as i16),
                rs1,
                F3_OP_STORE_SD,
            ),
            COpcode::LW { uoff7, rs1, .. } => self.load_can_run(
                I12::from_i16(uoff7 as i16),
                rs1,
                F3_OP_LOAD_LW,
            ),
            _ => true,
        }
    }
}

/// LB sign-extends and LBU zero-extends the byte they load: for a LOAD word (inst[6:0] =
/// 0000011) with funct3 (inst[14:12]) 000 or 100 and rd = inst[11:7] not x0, the byte `b` at
/// x[inst[19:15]] + the sign-extended inst[31:20] lands in rd as `b + 0xffff_ffff_ffff_ff00`
/// when LB reads a byte with bit 7 set, and as `b` otherwise; nothing else but the PC (on by
/// 4) changes.
pub proof fn lemma_lb_lbu_extension(s: CpuState, ins: u32)
    requires
        s.x.len() == 32,
        field(ins as nat, 6, 0) == 0x03,
        field(ins as nat, 14, 12) == 0 || field(ins as nat, 14, 12) == 4,
        field(ins as nat, 11, 7) != 0,
    ensures
        ({
            let rd = field(ins as nat, 11, 7) as int;
            let rs1 = field(ins as nat, 19, 15) as int;
            let addr = wrap64(s.x[rs1] + sign_extend(field(ins as nat, 31, 20), 12));
            let b = s.bus.read8(addr);
            let t = exec32(s, ins).0;
            &&& exec32(s, ins).1
            &&& t.x[rd] as int == if field(ins as nat, 14, 12) == 0 && b >= 0x80 {
                b + 0xffff_ffff_ffff_ff00
            } else {
                b as int
            }
            &&& t.x.len() == 32
            &&& forall|r: int| 0 <= r < 32 && r != rd ==> t.x[r] == s.x[r]
            &&& t.pc == wrap64(s.pc + 4)
            &&& t.bus == s.bus
        }),
{
    lemma2_to64();
    lemma_fields_in_range(ins);
    assert(field(ins as nat, 31, 20) < 4096);
    assert(field(ins as nat, 11, 7) < 32 && field(ins as nat, 19, 15) < 32);
}

/// C.ANDI ands rd' (x8 + inst[9:7]) with its 6-bit immediate inst[12] ++ inst[6:2]
/// sign-extended to 64 bits, as ANDI does: a set inst[12] makes the immediate
/// `0xffff_ffff_ffff_ffe0 + inst[6:2]`. Nothing else but the PC (on by 2) changes.
pub proof fn lemma_c_andi(s: CpuState, c: u16)
    requires
        s.x.len() == 32,
        field(c as nat, 1, 0) == 1,
        field(c as nat, 15, 13) == 4,
        field(c as nat, 11, 10) == 2,
    ensures
        ({
            let rd = (field(c as nat, 9, 7) + 8) as int;
            let imm: u64 = if field(c as nat, 12, 12) == 1 {
                (0xffff_ffff_ffff_ffe0 + field(c as nat, 6, 2)) as u64
            } else {
                field(c as nat, 6, 2) as u64
            };
            let t = exec16(s, c).0;
            &&& exec16(s, c).1
            &&& t.x[rd] == s.x[rd] & imm
            &&& t.x.len() == 32
            &&& forall|r: int| 0 <= r < 32 && r != rd ==> t.x[r] == s.x[r]
            &&& t.pc == wrap64(s.pc + 2)
            &&& t.bus == s.bus
        }),
{
    lemma2_to64();
    assert(field(c as nat, 9, 7) < 8 && field(c as nat, 6, 2) < 32 && field(c as nat, 12, 12) < 2);
    assert(crate::rvc_dec::c_opcode_of(c) == crate::rvc_dec::OPC_C_MISC_ALU);
}

impl RV64ICpu {
    /// The instruction word at the PC.
    pub fn fetch_instr(&self) -> (r: u32)
        requires
            self.bus.wf(),
            self.bus@.readable32(self.regs.pc),
        ensures
            r == fetch(self.st()),
    {
        self.get_instr(self.get_pc())
    }

    /// The instruction word at `addr`.
    pub fn get_instr(&self, addr: u64) -> (r: u32)
        requires
            self.bus.wf(),
            self.bus@.readable32(addr),
        ensures
            r == self.bus@.read32(addr),
    {
        self.bus.read32(addr)
    }

    /// The `n_instr` words at `addr`, `addr + 4`, ... (compressed instructions are not told
    /// apart).
    pub fn get_n_instr(&self, addr: u64, n_instr: usize) -> (r: Vec<u32>)
        requires
            self.bus.wf(),
            addr + 4 * n_instr <= u64::MAX,
            forall|i: int| 0 <= i < n_instr ==> #[trigger] self.bus@.readable32((addr + 4 * i) as u64),
        ensures
            r@.len() == n_instr,
            forall|i: int| 0 <= i < n_instr ==> #[trigger] r@[i] == self.bus@.read32((addr + 4 * i) as u64),
    {
        let mut instructions: Vec<u32> = Vec::with_capacity(n_instr);
        let mut i: usize = 0;
        while i < n_instr
            invariant
                self.bus.wf(),
                i <= n_instr,
                addr + 4 * n_instr <= u64::MAX,
                forall|k: int| 0 <= k < n_instr ==> #[trigger] self.bus@.readable32((addr + 4 * k) as u64),
                instructions@.len() == i,
                forall|k: int| 0 <= k < i ==> #[trigger] instructions@[k] == self.bus@.read32((addr + 4 * k) as u64),
            decreases n_instr - i,
        {
            let a: u64 = addr + 4 * (i as u64);
            assert(self.bus@.readable32((addr + 4 * (i as int)) as u64));
            instructions.push(self.get_instr(a));
            i = i + 1;
        }
        instructions
    }

    /// Resizes the RAM; new bytes are zero.
    pub fn set_ram_sz(&mut self, ram_sz: u64)
        requires
            old(self).bus.wf(),
            ram_sz <= usize::MAX,
            ({
                let i = old(self).bus@.find_w(old(self).bus@.ram_start as int, 4);
                i >= 0 && old(self).bus@.regions[i].agent is Ram
            }),
        ensures
            final(self).bus.wf(),
            ({
                let v = old(self).bus@;
                let i = v.find_w(v.ram_start as int, 4);
                let b = v.ram_bytes(i);
                final(self).bus@ == v.with_ram(
                    i,
                    if ram_sz <= b.len() {
                        b.subrange(0, ram_sz as int)
                    } else {
                        b + Seq::new((ram_sz - b.len()) as nat, |k: int| 0u8)
                    },
                )
            }),
            final(self).regs == old(self).regs,
            final(self).csrs@ == old(self).csrs@,
            final(self).lr_sc_reservation == old(self).lr_sc_reservation,
            final(self).same_control(old(self)),
    {
        self.bus.set_ram_sz(ram_sz);
    }

    /// The memory bytes `addr..addr+size`, if they lie in RAM.
    pub fn get_ram(&self, addr: u64, size: u64) -> (r: Option<&[u8]>)
        requires
            self.bus.wf(),
            addr + size <= u64::MAX,
            ({
                let i = self.bus@.find(addr as int, size as int);
                i >= 0 && self.bus@.regions[i].agent is Ram ==> addr - self.bus@.regions[i].start + size
                    <= self.bus@.ram_bytes(i).len()
            }),
        ensures
            ({
                let i = self.bus@.find(addr as int, size as int);
                &&& r is Some <==> (i >= 0 && self.bus@.regions[i].agent is Ram)
                &&& r is Some ==> r->0@ == self.bus@.ram_bytes(i).subrange(
                    addr - self.bus@.regions[i].start,
                    addr - self.bus@.regions[i].start + size,
                )
            }),
    {
        self.bus.get_ram(addr, size)
    }

    /// Takes the records of the instructions that could not be executed, oldest first.
    pub fn take_errors(&mut self) -> (r: Vec<ExecError>)
        ensures
            final(self).tracing == old(self).tracing,
            r@ == old(self).errors@,
            final(self).errors@ == Seq::<ExecError>::empty(),
            final(self).st() == old(self).st(),
            final(self).bus == old(self).bus,
            final(self).breakpoints@ == old(self).breakpoints@,
            final(self).num_exec_instr == old(self).num_exec_instr,
    {
        let mut r: Vec<ExecError> = Vec::new();
        std::mem::swap(&mut r, &mut self.errors);
        r
    }

    /// Whether execution stops at `addr`: whether it is one of the breakpoints.
    fn check_break_points(&self, addr: u64) -> (r: bool)
        ensures
            r == breaks_at(self.breakpoints@, addr),
    {
        let mut i: usize = 0;
        while i < self.breakpoints.len()
            invariant
                i <= self.breakpoints@.len(),
                forall|j: int| 0 <= j < i ==> self.breakpoints@[j] != addr,
            decreases self.breakpoints@.len() - i,
        {
            if self.breakpoints[i] == addr {
                assert(self.breakpoints@[i as int] == addr);
                return true;
            }
            i = i + 1;
        }
        false
    }

    /// Fetches and executes the next instruction, if it can be fetched and run and the counter
    /// of executed instructions is not exhausted; otherwise changes nothing.
    fn step_instr(&mut self) -> (r: bool)
        requires
            old(self).bus.wf(),
        ensures
            final(self).bus.wf(),
            final(self).tracing == old(self).tracing,
            r == (can_step(old(self).st()) && old(self).num_exec_instr < u64::MAX),
            final(self).breakpoints@ == old(self).breakpoints@,
            r ==> final(self).st() == step(old(self).st()).0,
            r ==> final(self).num_exec_instr == old(self).num_exec_instr + 1,
            r ==> final(self).errors@ == if step(old(self).st()).1 {
                old(self).errors@
            } else {
                old(self).errors@.push(step_error(old(self).st()))
            },
            !r ==> final(self).st() == old(self).st(),
            !r ==> final(self).num_exec_instr == old(self).num_exec_instr,
            !r ==> final(self).errors@ == old(self).errors@,
    {
        proof {
            reveal(step);
            reveal(can_step);
        }
        let pc = self.regs.pc;
        if self.num_exec_instr == u64::MAX || !self.bus.is_readable32(pc) {
            return false;
        }
        let instr = self.fetch_instr();
        if instr_is_rvc(instr) {
            let c = low_half(instr);
            if !self.can_execute_rvc_instr(c) {
                return false;
            }
            self.execute_rvc_instr(c);
        } else {
            if !self.can_execute_instr(instr) {
                return false;
            }
            self.execute_instr(instr);
        }
        true
    }

    /// Runs up to `max_instr` instructions and returns where it stopped: after
    /// `max_instr` instructions, after an instruction that leads to the breakpoint, or before
    /// an instruction that would access memory or a CSR that does not exist (or once the
    /// counter of executed instructions is exhausted).
    pub fn exec_continue(&mut self, max_instr: u64) -> (r: ExecEvent)
        requires
            old(self).bus.wf(),
        ensures
            final(self).tracing == old(self).tracing,
            old(self).x0_zero() ==> final(self).x0_zero(),
            final(self).bus.wf(),
            final(self).breakpoints@ == old(self).breakpoints@,
            exists|k: nat|
                #![trigger run(old(self).st(), k)]
                {
                    let bps = old(self).breakpoints@;
                    &&& k <= max_instr
                    &&& final(self).st() == run(old(self).st(), k).0
                    &&& final(self).errors@ == old(self).errors@ + run(old(self).st(), k).1
                    &&& final(self).num_exec_instr == old(self).num_exec_instr + k
                    &&& forall|j: nat|
                        1 <= j < k ==> !breaks_at(bps, #[trigger] run(old(self).st(), j).0.pc)
                    &&& (r is Breakpoint <==> (k >= 1 && breaks_at(bps, final(self).regs.pc)))
                    &&& match r {
                        ExecEvent::MaxInstructions(pc) => k == max_instr && pc == final(self).regs.pc,
                        ExecEvent::Breakpoint(pc) => pc == final(self).regs.pc,
                        ExecEvent::Fault(pc) => {
                            &&& k < max_instr
                            &&& pc == final(self).regs.pc
                            &&& (!can_step(final(self).st()) || final(self).num_exec_instr == u64::MAX)
                        },
                    }
                },
    {
        let ghost s0 = self.st();
        let ghost e0 = self.errors@;
        let ghost n0 = self.num_exec_instr;
        let ghost bps = self.breakpoints@;
        let mut i: u64 = 0;
        assert(self.errors@ =~= e0 + run(s0, 0).1);
        while i < max_instr
            invariant
                self.bus.wf(),
                i <= max_instr,
                s0 == old(self).st(),
                e0 == old(self).errors@,
                n0 == old(self).num_exec_instr,
                bps == old(self).breakpoints@,
                self.breakpoints@ == bps,
                self.st() == run(s0, i as nat).0,
                self.errors@ == e0 + run(s0, i as nat).1,
                self.num_exec_instr == n0 + i,
                forall|j: nat| 1 <= j <= i ==> !breaks_at(bps, #[trigger] run(s0, j).0.pc),
                s0.x[0] == 0 ==> self.regs.x@[0] == 0,
                self.tracing == old(self).tracing,
            decreases max_instr - i,
        {
            let ghost p = run(s0, i as nat);
            if !self.step_instr() {
                let pc = self.regs.pc;
                assert(i >= 1 ==> !breaks_at(bps, run(s0, i as nat).0.pc));
                assert(run(s0, i as nat) == run(old(self).st(), i as nat));
                return ExecEvent::Fault(pc);
            }
            proof {
                if s0.x[0] == 0 {
                    lemma_run_keeps_x0(s0, (i + 1) as nat);
                }
                assert(run(s0, (i + 1) as nat) == (step(p.0).0, if step(p.0).1 {
                    p.1
                } else {
                    p.1.push(step_error(p.0))
                }));
                assert(self.errors@ =~= e0 + run(s0, (i + 1) as nat).1);
            }
            if self.check_break_points(self.regs.pc) {
                return ExecEvent::Breakpoint(self.regs.pc);
            }
            i = i + 1;
        }
        assert(i >= 1 ==> !breaks_at(bps, run(s0, i as nat).0.pc));
        assert(run(s0, i as nat) == run(old(self).st(), i as nat));
        ExecEvent::MaxInstructions(self.regs.pc)
    }
}

impl Default for RV64ICpu {
    /// A CPU with all registers zero and an empty bus.
    fn default() -> (r: Self)
        ensures
            r.st() == (CpuState {
                x: Seq::new(32, |i: int| 0u64),
                pc: 0,
                bus: BusView { regions: Seq::empty(), ram_start: 0 },
                csrs: CsrView { mtvec: 0, mscratch: 0 },
                reservation: 0,
            }),
            r.bus.wf(),
            r.breakpoints@ == Seq::<u64>::empty(),
            r.num_exec_instr == 0,
            r.errors@ == Seq::<ExecError>::empty(),
            r.x0_zero(),
    {
        RV64ICpu::new(Bus::new())
    }
}

/// The control-flow instructions among the compressed ones.
pub open spec fn is_rvc_jump(op: COpcode) -> bool {
    op is CJ || op is CJR || op is BEQZ || op is BNEZ
}

/// The control-flow instructions among the 32-bit ones.
pub open spec fn is_jump(op: Opcode) -> bool {
    op is Jal || op is Jalr || op is Branch
}

/// Register x0 stays zero, and there stay 32 registers, whatever 32-bit instruction runs.
pub proof fn lemma_exec32_keeps_x0(s: CpuState, instr: u32)
    requires
        s.x.len() == 32,
        s.x[0] == 0,
    ensures
        exec32(s, instr).0.x.len() == 32,
        exec32(s, instr).0.x[0] == 0,
{
    lemma_fields_in_range(instr);
}

/// Register x0 stays zero, and there stay 32 registers, whatever compressed instruction runs.
pub proof fn lemma_exec16_keeps_x0(s: CpuState, c: u16)
    requires
        s.x.len() == 32,
        s.x[0] == 0,
    ensures
        exec16(s, c).0.x.len() == 32,
        exec16(s, c).0.x[0] == 0,
{
    lemma_c_fields_in_range(c);
}

/// Whether the compressed instruction `c` is a branch that is taken in state `s`.
pub open spec fn rvc_branch_taken(s: CpuState, c: u16) -> bool {
    match spec_decode_c(c) {
        COpcode::BEQZ { rs1, .. } => rr(s, rs1) == 0,
        COpcode::BNEZ { rs1, .. } => rr(s, rs1) != 0,
        _ => false,
    }
}

/// Every recognized compressed instruction that is not a jump and not a taken branch moves the
/// PC on by 2 bytes (x0 reading as zero, as the branches compare with it).
pub proof fn lemma_rvc_moves_pc_by_2(s: CpuState, c: u16)
    requires
        s.x.len() == 32,
        s.x[0] == 0,
        !(spec_decode_c(c) is CJ || spec_decode_c(c) is CJR),
        !rvc_branch_taken(s, c),
        exec16(s, c).1,
    ensures
        exec16(s, c).0.pc == wrap64(s.pc + 2),
{
    if spec_decode_c(c) is BEQZ || spec_decode_c(c) is BNEZ {
        lemma_rvc_untaken_branch(s, c);
    } else {
        lemma_rvc_plain_moves_pc_by_2(s, c);
    }
}

proof fn lemma_rvc_untaken_branch(s: CpuState, c: u16)
    requires
        s.x.len() == 32,
        s.x[0] == 0,
        spec_decode_c(c) is BEQZ || spec_decode_c(c) is BNEZ,
        !rvc_branch_taken(s, c),
    ensures
        exec16(s, c).0.pc == wrap64(s.pc + 2),
{
}

proof fn lemma_rvc_plain_moves_pc_by_2(s: CpuState, c: u16)
    requires
        !is_rvc_jump(spec_decode_c(c)),
        exec16(s, c).1,
    ensures
        exec16(s, c).0.pc == wrap64(s.pc + 2),
{
}

/// Every recognized 32-bit instruction that is not a jump or a branch moves the PC on by 4
/// bytes.
pub proof fn lemma_rv64i_moves_pc_by_4(s: CpuState, instr: u32)
    requires
        !is_jump(spec_decode(instr)),
        exec32(s, instr).1,
    ensures
        exec32(s, instr).0.pc == wrap64(s.pc + 4),
{
}

/// The address that the 32-bit LOAD or STORE `instr` accesses in state `s` (0 for other
/// instructions).
pub open spec fn mem_addr(s: CpuState, instr: u32) -> u64 {
    match spec_decode(instr) {
        Opcode::Load { imm12, rs1, .. } => ea(s, rs1, imm12.0 as int),
        Opcode::Store { imm12, rs1, .. } => ea(s, rs1, imm12.0 as int),
        _ => 0,
    }
}

/// A doubleword stored by SD and then loaded by LD from the same address comes back
/// unchanged, where that address is RAM that both reach through the same region.
pub proof fn lemma_sd_then_ld(s: CpuState, sd: u32, ld: u32)
    requires
        s.x.len() == 32,
        spec_decode(sd) matches Opcode::Store { funct3, .. } && funct3 == F3_OP_STORE_SD,
        spec_decode(ld) matches Opcode::Load { funct3, rd, .. } && funct3 == F3_OP_LOAD_LD && rd
            != 0,
        mem_addr(exec32(s, sd).0, ld) == mem_addr(s, sd),
        s.bus.writable64(mem_addr(s, sd)),
        s.bus.readable64(mem_addr(s, sd)),
        s.bus.find(mem_addr(s, sd) as int, 8) == s.bus.find_w(mem_addr(s, sd) as int, 8),
    ensures
        exec32(exec32(s, sd).0, ld).0.x[spec_decode(ld)->Load_rd as int] == s.x[spec_decode(
            sd,
        )->Store_rs2 as int],
{
    lemma_fields_in_range(ld);
    lemma_fields_in_range(sd);
    let a = mem_addr(s, sd);
    crate::bus::lemma_bus_write64_read64(s.bus, a, rr(s, spec_decode(sd)->Store_rs2));
}

/// An instruction that is not recognized changes nothing but, where it is a load, store or
/// register-register operation, the PC.
pub proof fn lemma_exec32_unrecognized(s: CpuState, instr: u32)
    requires
        !exec32(s, instr).1,
    ensures
        exec32(s, instr).0.x == s.x,
        exec32(s, instr).0.bus == s.bus,
        exec32(s, instr).0.csrs == s.csrs,
        exec32(s, instr).0.reservation == s.reservation,
{
}

impl RV64ICpu {
    /// The instruction word at the PC.
    pub fn get_cur_instr(&self) -> (r: u32)
        requires
            self.bus.wf(),
            self.bus@.readable32(self.regs.pc),
        ensures
            r == fetch(self.st()),
    {
        self.fetch_instr()
    }

    /// Turns following the execution on the console on or off.
    pub fn enable_tracing(&mut self, enable: bool)
        ensures
            final(self).tracing == enable,
            final(self).st() == old(self).st(),
            final(self).bus == old(self).bus,
            final(self).breakpoints@ == old(self).breakpoints@,
            final(self).num_exec_instr == old(self).num_exec_instr,
            final(self).errors@ == old(self).errors@,
    {
        self.tracing = enable;
    }

    /// Whether following the execution on the console is on.
    pub fn tracing(&self) -> (r: bool)
        ensures
            r == self.tracing,
    {
        self.tracing
    }
}

} // verus!
