use vstd::arithmetic::power2::lemma2_to64;
use vstd::prelude::*;

use super::bitfield::{
    as_signed, bits, field, lemma_bits_shift_mask, sign_extend, signed, signed_value,
};
use super::register::XRegisters;
use super::ProcessorErrorTrait;

verus! {

pub const OP_LOAD: u32 = 0x03;
pub const OP_MISC_MEM: u32 = 0x0f;
pub const OP_IMM: u32 = 0x13;
pub const OP_AUIPC: u32 = 0x17;
pub const OP_STORE: u32 = 0x23;
pub const OP_REG: u32 = 0x33;
pub const OP_LUI: u32 = 0x37;
pub const OP_BRANCH: u32 = 0x63;
pub const OP_JALR: u32 = 0x67;
pub const OP_JAL: u32 = 0x6f;
pub const OP_SYSTEM: u32 = 0x73;

/// The whole ECALL instruction word.
pub const ECALL_WORD: u32 = 0x0000_0073;

/// The whole MRET instruction word.
pub const MRET_WORD: u32 = 0x3020_0073;

#[derive(Debug, Clone, Copy, PartialEq, Eq, Structural)]
pub enum DecodeErrorType {
    UnmatchedOpcode,
}

/// An instruction word that matches no known encoding.
#[derive(Debug, Clone, Copy, PartialEq, Eq, Structural)]
pub struct DecodeError {
    pub error_type: DecodeErrorType,
}

impl DecodeError {
    pub fn new(error_type: DecodeErrorType) -> (r: Self)
        ensures
            r.error_type == error_type,
    {
        DecodeError { error_type }
    }
}

impl ProcessorErrorTrait for DecodeError {
    fn message(&self) -> &'static str {
        match self.error_type {
            DecodeErrorType::UnmatchedOpcode => "Not match opcode.",
        }
    }
}

#[allow(non_camel_case_types)]
#[derive(Debug, Clone, Copy, PartialEq, Eq, Structural)]
pub enum Opcode {
    LW,
    SW,
    ADD,
    ADDI,
    SUB,
    AND,
    OR,
    XOR,
    ANDI,
    ORI,
    XORI,
    SLL,
    SRL,
    SRA,
    SLLI,
    SRLI,
    SRAI,
    SLT,
    SLTU,
    SLTI,
    SLTIU,
    BEQ,
    BNE,
    BLT,
    BGE,
    BLTU,
    BGEU,
    JAL,
    JALR,
    LUI,
    AUIPC,
    CSRRW,
    CSRRWI,
    CSRRS,
    CSRRSI,
    CSRRC,
    CSRRCI,
    ECALL,
    MRET,
    FENCE,
}

/// Everything later stages need from one instruction: its class, the source
/// register values, the destination index and every immediate encoding.
#[derive(Debug, Clone, Copy, PartialEq, Eq, Structural)]
pub struct DecodeResult {
    pub opcode: Opcode,
    pub rs1_data: u32,
    pub rs2_data: u32,
    pub rd: u32,
    pub imm_i: u32,
    pub imm_i_sext: i32,
    pub imm_s: u32,
    pub imm_s_sext: i32,
    pub imm_b: u32,
    pub imm_b_sext: i32,
    pub imm_j: u32,
    pub imm_j_sext: i32,
    pub imm_u: u32,
    pub imm_u_sext_shifted: i32,
    pub imm_z: u32,
    pub csr: u32,
}

pub open spec fn major_opcode(inst: u32) -> nat {
    bits(inst, 0, 7)
}

pub open spec fn rd_index(inst: u32) -> nat {
    bits(inst, 7, 5)
}

pub open spec fn funct3(inst: u32) -> nat {
    bits(inst, 12, 3)
}

pub open spec fn rs1_index(inst: u32) -> nat {
    bits(inst, 15, 5)
}

pub open spec fn rs2_index(inst: u32) -> nat {
    bits(inst, 20, 5)
}

pub open spec fn funct7(inst: u32) -> nat {
    bits(inst, 25, 7)
}

/// I-type immediate: bits 20..31.
pub open spec fn imm_i_raw(inst: u32) -> nat {
    bits(inst, 20, 12)
}

/// S-type immediate: bits 7..11 low, bits 25..31 high.
pub open spec fn imm_s_raw(inst: u32) -> nat {
    bits(inst, 25, 7) * 0x20 + bits(inst, 7, 5)
}

/// B-type immediate: [31] [7] [30:25] [11:8] 0.
pub open spec fn imm_b_raw(inst: u32) -> nat {
    bits(inst, 31, 1) * 0x1000 + bits(inst, 7, 1) * 0x800 + bits(inst, 25, 6) * 0x20 + bits(
        inst,
        8,
        4,
    ) * 2
}

/// J-type immediate: [31] [19:12] [20] [30:21] 0.
pub open spec fn imm_j_raw(inst: u32) -> nat {
    bits(inst, 31, 1) * 0x10_0000 + bits(inst, 12, 8) * 0x1000 + bits(inst, 20, 1) * 0x800
        + bits(inst, 21, 10) * 2
}

/// U-type immediate: bits 12..31, not yet shifted.
pub open spec fn imm_u_raw(inst: u32) -> nat {
    bits(inst, 12, 20)
}

/// The RV32I encoding table: the class of `inst`, if it has one.
pub open spec fn classify(inst: u32) -> Option<Opcode> {
    let op = major_opcode(inst);
    let f3 = funct3(inst);
    let f7 = funct7(inst);
    if op == OP_LOAD {
        if f3 == 2 { Some(Opcode::LW) } else { None }
    } else if op == OP_STORE {
        if f3 == 2 { Some(Opcode::SW) } else { None }
    } else if op == OP_REG {
        if f7 == 0 {
            if f3 == 0 { Some(Opcode::ADD) }
            else if f3 == 1 { Some(Opcode::SLL) }
            else if f3 == 2 { Some(Opcode::SLT) }
            else if f3 == 3 { Some(Opcode::SLTU) }
            else if f3 == 4 { Some(Opcode::XOR) }
            else if f3 == 5 { Some(Opcode::SRL) }
            else if f3 == 6 { Some(Opcode::OR) }
            else { Some(Opcode::AND) }
        } else if f7 == 0x20 {
            if f3 == 0 { Some(Opcode::SUB) }
            else if f3 == 5 { Some(Opcode::SRA) }
            else { None }
        } else {
            None
        }
    } else if op == OP_IMM {
        if f3 == 0 { Some(Opcode::ADDI) }
        else if f3 == 1 { if f7 == 0 { Some(Opcode::SLLI) } else { None } }
        else if f3 == 2 { Some(Opcode::SLTI) }
        else if f3 == 3 { Some(Opcode::SLTIU) }
        else if f3 == 4 { Some(Opcode::XORI) }
        else if f3 == 5 {
            if f7 == 0 { Some(Opcode::SRLI) }
            else if f7 == 0x20 { Some(Opcode::SRAI) }
            else { None }
        }
        else if f3 == 6 { Some(Opcode::ORI) }
        else { Some(Opcode::ANDI) }
    } else if op == OP_BRANCH {
        if f3 == 0 { Some(Opcode::BEQ) }
        else if f3 == 1 { Some(Opcode::BNE) }
        else if f3 == 4 { Some(Opcode::BLT) }
        else if f3 == 5 { Some(Opcode::BGE) }
        else if f3 == 6 { Some(Opcode::BLTU) }
        else if f3 == 7 { Some(Opcode::BGEU) }
        else { None }
    } else if op == OP_JAL {
        Some(Opcode::JAL)
    } else if op == OP_JALR {
        if f3 == 0 { Some(Opcode::JALR) } else { None }
    } else if op == OP_LUI {
        Some(Opcode::LUI)
    } else if op == OP_AUIPC {
        Some(Opcode::AUIPC)
    } else if op == OP_SYSTEM {
        if f3 == 0 {
            if inst == ECALL_WORD { Some(Opcode::ECALL) }
            else if inst == MRET_WORD { Some(Opcode::MRET) }
            else { None }
        }
        else if f3 == 1 { Some(Opcode::CSRRW) }
        else if f3 == 2 { Some(Opcode::CSRRS) }
        else if f3 == 3 { Some(Opcode::CSRRC) }
        else if f3 == 5 { Some(Opcode::CSRRWI) }
        else if f3 == 6 { Some(Opcode::CSRRSI) }
        else if f3 == 7 { Some(Opcode::CSRRCI) }
        else { None }
    } else if op == OP_MISC_MEM {
        if f3 == 0 && rd_index(inst) == 0 && rs1_index(inst) == 0 && bits(inst, 28, 4) == 0 {
            Some(Opcode::FENCE)
        } else {
            None
        }
    } else {
        None
    }
}

/// The decoded form of `inst`, of class `opcode`, with source values read from `regs`.
pub open spec fn decoded(inst: u32, regs: Seq<u32>, opcode: Opcode) -> DecodeResult {
    DecodeResult {
        opcode,
        rs1_data: regs[rs1_index(inst) as int],
        rs2_data: regs[rs2_index(inst) as int],
        rd: rd_index(inst) as u32,
        imm_i: imm_i_raw(inst) as u32,
        imm_i_sext: signed_value(imm_i_raw(inst), 12) as i32,
        imm_s: imm_s_raw(inst) as u32,
        imm_s_sext: signed_value(imm_s_raw(inst), 12) as i32,
        imm_b: imm_b_raw(inst) as u32,
        imm_b_sext: signed_value(imm_b_raw(inst), 13) as i32,
        imm_j: imm_j_raw(inst) as u32,
        imm_j_sext: signed_value(imm_j_raw(inst), 21) as i32,
        imm_u: imm_u_raw(inst) as u32,
        imm_u_sext_shifted: signed((imm_u_raw(inst) * 0x1000) as u32) as i32,
        imm_z: rs1_index(inst) as u32,
        csr: imm_i_raw(inst) as u32,
    }
}

/// Decoding `inst` against register contents `regs`.
pub open spec fn decode_spec(inst: u32, regs: Seq<u32>) -> Result<DecodeResult, DecodeError> {
    match classify(inst) {
        Some(opcode) => Ok(decoded(inst, regs, opcode)),
        None => Err(DecodeError { error_type: DecodeErrorType::UnmatchedOpcode }),
    }
}

/// Decoding is a function of the instruction word and the register snapshot: two
/// snapshots that agree on the instruction's source registers (in particular, the
/// same snapshot twice) give identical results.
pub proof fn lemma_decode_deterministic(inst: u32, a: Seq<u32>, b: Seq<u32>)
    requires
        a[rs1_index(inst) as int] == b[rs1_index(inst) as int],
        a[rs2_index(inst) as int] == b[rs2_index(inst) as int],
    ensures
        decode_spec(inst, a) == decode_spec(inst, b),
{
}

/// Bits an encoding fixes when it is known by its major opcode alone.
pub const MASK_OPCODE: u32 = 0x0000_007f;

/// Bits an encoding fixes when it is known by major opcode and funct3.
pub const MASK_FUNCT3: u32 = 0x0000_707f;

/// Bits an encoding fixes when it is known by major opcode, funct3 and funct7.
pub const MASK_FUNCT7: u32 = 0xfe00_707f;

/// Bits FENCE fixes: all but its ordering fields (bits 20..27).
pub const MASK_FENCE: u32 = 0xf00f_ffff;

/// Every bit: the encoding is a single word.
pub const MASK_WORD: u32 = 0xffff_ffff;

/// Shift-and-mask forms of the fields the encoding table tests.
proof fn lemma_field_masks(inst: u32)
    ensures
        inst & 0x7f == major_opcode(inst),
        (inst >> 7) & 0x1f == rd_index(inst),
        (inst >> 12) & 0x7 == funct3(inst),
        (inst >> 15) & 0x1f == rs1_index(inst),
        inst >> 25 == funct7(inst),
        inst >> 28 == bits(inst, 28, 4),
{
    lemma2_to64();
    assert(inst >> 0 == inst && (inst >> 25) & 0x7f == inst >> 25 && (inst >> 28) & 0xf == inst
        >> 28) by (bit_vector);
    lemma_bits_shift_mask(inst, 0, 7, 0x7f);
    lemma_bits_shift_mask(inst, 7, 5, 0x1f);
    lemma_bits_shift_mask(inst, 12, 3, 0x7);
    lemma_bits_shift_mask(inst, 15, 5, 0x1f);
    lemma_bits_shift_mask(inst, 25, 7, 0x7f);
    lemma_bits_shift_mask(inst, 28, 4, 0xf);
}

/// What each (mask, pattern) pair of the encoding table says of the instruction's fields.
proof fn lemma_encoding_masks(inst: u32)
    by (bit_vector)
    ensures
        (inst >> 12) & 0x7 <= 7,
        inst & 0xffffffff == inst,
        (inst & 0x707f == 0x2003) == (inst & 0x7f == 0x3 && (inst >> 12) & 0x7 == 2),
        (inst & 0x707f == 0x2023) == (inst & 0x7f == 0x23 && (inst >> 12) & 0x7 == 2),
        (inst & 0xfe00707f == 0x33) == (inst & 0x7f == 0x33 && (inst >> 12) & 0x7 == 0 && inst >> 25 == 0x0),
        (inst & 0x707f == 0x13) == (inst & 0x7f == 0x13 && (inst >> 12) & 0x7 == 0),
        (inst & 0xfe00707f == 0x40000033) == (inst & 0x7f == 0x33 && (inst >> 12) & 0x7 == 0 && inst >> 25 == 0x20),
        (inst & 0xfe00707f == 0x7033) == (inst & 0x7f == 0x33 && (inst >> 12) & 0x7 == 7 && inst >> 25 == 0x0),
        (inst & 0xfe00707f == 0x6033) == (inst & 0x7f == 0x33 && (inst >> 12) & 0x7 == 6 && inst >> 25 == 0x0),
        (inst & 0xfe00707f == 0x4033) == (inst & 0x7f == 0x33 && (inst >> 12) & 0x7 == 4 && inst >> 25 == 0x0),
        (inst & 0x707f == 0x7013) == (inst & 0x7f == 0x13 && (inst >> 12) & 0x7 == 7),
        (inst & 0x707f == 0x6013) == (inst & 0x7f == 0x13 && (inst >> 12) & 0x7 == 6),
        (inst & 0x707f == 0x4013) == (inst & 0x7f == 0x13 && (inst >> 12) & 0x7 == 4),
        (inst & 0xfe00707f == 0x1033) == (inst & 0x7f == 0x33 && (inst >> 12) & 0x7 == 1 && inst >> 25 == 0x0),
        (inst & 0xfe00707f == 0x5033) == (inst & 0x7f == 0x33 && (inst >> 12) & 0x7 == 5 && inst >> 25 == 0x0),
        (inst & 0xfe00707f == 0x40005033) == (inst & 0x7f == 0x33 && (inst >> 12) & 0x7 == 5 && inst >> 25 == 0x20),
        (inst & 0xfe00707f == 0x1013) == (inst & 0x7f == 0x13 && (inst >> 12) & 0x7 == 1 && inst >> 25 == 0x0),
        (inst & 0xfe00707f == 0x5013) == (inst & 0x7f == 0x13 && (inst >> 12) & 0x7 == 5 && inst >> 25 == 0x0),
        (inst & 0xfe00707f == 0x40005013) == (inst & 0x7f == 0x13 && (inst >> 12) & 0x7 == 5 && inst >> 25 == 0x20),
        (inst & 0xfe00707f == 0x2033) == (inst & 0x7f == 0x33 && (inst >> 12) & 0x7 == 2 && inst >> 25 == 0x0),
        (inst & 0xfe00707f == 0x3033) == (inst & 0x7f == 0x33 && (inst >> 12) & 0x7 == 3 && inst >> 25 == 0x0),
        (inst & 0x707f == 0x2013) == (inst & 0x7f == 0x13 && (inst >> 12) & 0x7 == 2),
        (inst & 0x707f == 0x3013) == (inst & 0x7f == 0x13 && (inst >> 12) & 0x7 == 3),
        (inst & 0x707f == 0x63) == (inst & 0x7f == 0x63 && (inst >> 12) & 0x7 == 0),
        (inst & 0x707f == 0x1063) == (inst & 0x7f == 0x63 && (inst >> 12) & 0x7 == 1),
        (inst & 0x707f == 0x4063) == (inst & 0x7f == 0x63 && (inst >> 12) & 0x7 == 4),
        (inst & 0x707f == 0x5063) == (inst & 0x7f == 0x63 && (inst >> 12) & 0x7 == 5),
        (inst & 0x707f == 0x6063) == (inst & 0x7f == 0x63 && (inst >> 12) & 0x7 == 6),
        (inst & 0x707f == 0x7063) == (inst & 0x7f == 0x63 && (inst >> 12) & 0x7 == 7),
        (inst & 0x7f == 0x6f) == (inst & 0x7f == 0x6f),
        (inst & 0x707f == 0x67) == (inst & 0x7f == 0x67 && (inst >> 12) & 0x7 == 0),
        (inst & 0x7f == 0x37) == (inst & 0x7f == 0x37),
        (inst & 0x7f == 0x17) == (inst & 0x7f == 0x17),
        (inst & 0x707f == 0x1073) == (inst & 0x7f == 0x73 && (inst >> 12) & 0x7 == 1),
        (inst & 0x707f == 0x5073) == (inst & 0x7f == 0x73 && (inst >> 12) & 0x7 == 5),
        (inst & 0x707f == 0x2073) == (inst & 0x7f == 0x73 && (inst >> 12) & 0x7 == 2),
        (inst & 0x707f == 0x6073) == (inst & 0x7f == 0x73 && (inst >> 12) & 0x7 == 6),
        (inst & 0x707f == 0x3073) == (inst & 0x7f == 0x73 && (inst >> 12) & 0x7 == 3),
        (inst & 0x707f == 0x7073) == (inst & 0x7f == 0x73 && (inst >> 12) & 0x7 == 7),
        inst & 0xffffffff == 0x73 ==> inst == 0x73 && inst & 0x7f == 0x73 && (inst >> 12) & 0x7 == 0,
        inst & 0xffffffff == 0x30200073 ==> inst == 0x30200073 && inst & 0x7f == 0x73 && (inst >> 12) & 0x7 == 0,
        (inst & 0xf00fffff == 0xf) == (inst & 0x7f == 0xf && (inst >> 7) & 0x1f == 0 && (inst >> 12) & 0x7 == 0 && (inst >> 15) & 0x1f == 0 && inst >> 28 == 0),
{
}

pub struct Decode();

impl Decode {
    /// Extracts every field and immediate of `inst`, reads its source registers and classifies it.
    pub fn decode(&self, inst: u32, xregs: &XRegisters) -> (r: Result<DecodeResult, DecodeError>)
        requires
            xregs.wf(),
        ensures
            r == decode_spec(inst, xregs@),
    {
        proof {
            lemma2_to64();
        }
        let rs1_addr = field(inst, 15, 5);
        let rs2_addr = field(inst, 20, 5);
        let rd = field(inst, 7, 5);
        let rs1_data = xregs.read(rs1_addr);
        let rs2_data = xregs.read(rs2_addr);

        let imm_i = field(inst, 20, 12);
        let imm_i_sext = sign_extend(imm_i, 12);

        let imm_s = field(inst, 25, 7) * 0x20 + field(inst, 7, 5);
        let imm_s_sext = sign_extend(imm_s, 12);

        let imm_b = field(inst, 31, 1) * 0x1000 + field(inst, 7, 1) * 0x800 + field(inst, 25, 6)
            * 0x20 + field(inst, 8, 4) * 2;
        let imm_b_sext = sign_extend(imm_b, 13);

        let imm_j = field(inst, 31, 1) * 0x10_0000 + field(inst, 12, 8) * 0x1000 + field(
            inst,
            20,
            1,
        ) * 0x800 + field(inst, 21, 10) * 2;
        let imm_j_sext = sign_extend(imm_j, 21);

        let imm_u = field(inst, 12, 20);
        let imm_u_sext_shifted = as_signed(imm_u * 0x1000);

        let imm_z = field(inst, 15, 5);
        let csr = field(inst, 20, 12);

        match self.match_opcode(inst) {
            Some(opcode) => Ok(
                DecodeResult {
                    opcode,
                    rs1_data,
                    rs2_data,
                    rd,
                    imm_i,
                    imm_i_sext,
                    imm_s,
                    imm_s_sext,
                    imm_b,
                    imm_b_sext,
                    imm_j,
                    imm_j_sext,
                    imm_u,
                    imm_u_sext_shifted,
                    imm_z,
                    csr,
                },
            ),
            None => Err(DecodeError::new(DecodeErrorType::UnmatchedOpcode)),
        }
    }

    /// Classifies `inst` by testing the encoding table in order; the first match wins.
    pub fn match_opcode(&self, inst: u32) -> (r: Option<Opcode>)
        ensures
            r == classify(inst),
    {
        proof {
            lemma_field_masks(inst);
            lemma_encoding_masks(inst);
        }
        if inst & MASK_FUNCT3 == 0x00002003 {
            return Some(Opcode::LW);
        }
        if inst & MASK_FUNCT3 == 0x00002023 {
            return Some(Opcode::SW);
        }
        if inst & MASK_FUNCT7 == 0x00000033 {
            return Some(Opcode::ADD);
        }
        if inst & MASK_FUNCT3 == 0x00000013 {
            return Some(Opcode::ADDI);
        }
        if inst & MASK_FUNCT7 == 0x40000033 {
            return Some(Opcode::SUB);
        }
        if inst & MASK_FUNCT7 == 0x00007033 {
            return Some(Opcode::AND);
        }
        if inst & MASK_FUNCT7 == 0x00006033 {
            return Some(Opcode::OR);
        }
        if inst & MASK_FUNCT7 == 0x00004033 {
            return Some(Opcode::XOR);
        }
        if inst & MASK_FUNCT3 == 0x00007013 {
            return Some(Opcode::ANDI);
        }
        if inst & MASK_FUNCT3 == 0x00006013 {
            return Some(Opcode::ORI);
        }
        if inst & MASK_FUNCT3 == 0x00004013 {
            return Some(Opcode::XORI);
        }
        if inst & MASK_FUNCT7 == 0x00001033 {
            return Some(Opcode::SLL);
        }
        if inst & MASK_FUNCT7 == 0x00005033 {
            return Some(Opcode::SRL);
        }
        if inst & MASK_FUNCT7 == 0x40005033 {
            return Some(Opcode::SRA);
        }
        if inst & MASK_FUNCT7 == 0x00001013 {
            return Some(Opcode::SLLI);
        }
        if inst & MASK_FUNCT7 == 0x00005013 {
            return Some(Opcode::SRLI);
        }
        if inst & MASK_FUNCT7 == 0x40005013 {
            return Some(Opcode::SRAI);
        }
        if inst & MASK_FUNCT7 == 0x00002033 {
            return Some(Opcode::SLT);
        }
        if inst & MASK_FUNCT7 == 0x00003033 {
            return Some(Opcode::SLTU);
        }
        if inst & MASK_FUNCT3 == 0x00002013 {
            return Some(Opcode::SLTI);
        }
        if inst & MASK_FUNCT3 == 0x00003013 {
            return Some(Opcode::SLTIU);
        }
        if inst & MASK_FUNCT3 == 0x00000063 {
            return Some(Opcode::BEQ);
        }
        if inst & MASK_FUNCT3 == 0x00001063 {
            return Some(Opcode::BNE);
        }
        if inst & MASK_FUNCT3 == 0x00004063 {
            return Some(Opcode::BLT);
        }
        if inst & MASK_FUNCT3 == 0x00005063 {
            return Some(Opcode::BGE);
        }
        if inst & MASK_FUNCT3 == 0x00006063 {
            return Some(Opcode::BLTU);
        }
        if inst & MASK_FUNCT3 == 0x00007063 {
            return Some(Opcode::BGEU);
        }
        if inst & MASK_OPCODE == 0x0000006f {
            return Some(Opcode::JAL);
        }
        if inst & MASK_FUNCT3 == 0x00000067 {
            return Some(Opcode::JALR);
        }
        if inst & MASK_OPCODE == 0x00000037 {
            return Some(Opcode::LUI);
        }
        if inst & MASK_OPCODE == 0x00000017 {
            return Some(Opcode::AUIPC);
        }
        if inst & MASK_FUNCT3 == 0x00001073 {
            return Some(Opcode::CSRRW);
        }
        if inst & MASK_FUNCT3 == 0x00005073 {
            return Some(Opcode::CSRRWI);
        }
        if inst & MASK_FUNCT3 == 0x00002073 {
            return Some(Opcode::CSRRS);
        }
        if inst & MASK_FUNCT3 == 0x00006073 {
            return Some(Opcode::CSRRSI);
        }
        if inst & MASK_FUNCT3 == 0x00003073 {
            return Some(Opcode::CSRRC);
        }
        if inst & MASK_FUNCT3 == 0x00007073 {
            return Some(Opcode::CSRRCI);
        }
        if inst & MASK_WORD == 0x00000073 {
            return Some(Opcode::ECALL);
        }
        if inst & MASK_WORD == 0x30200073 {
            return Some(Opcode::MRET);
        }
        if inst & MASK_FENCE == 0x0000000f {
            return Some(Opcode::FENCE);
        }
        None
    }
}

} // verus!
