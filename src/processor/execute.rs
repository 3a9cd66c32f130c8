use vstd::prelude::*;

use super::bitfield::{as_signed, as_unsigned, signed, wrap32};
use super::decode::{DecodeResult, Opcode};

verus! {

/// The ALU output, and where control goes if the instruction redirects it.
#[derive(Debug, Clone, Copy, PartialEq, Eq, Structural)]
pub struct ExecuteResult {
    pub alu_out: u32,
    pub br_target: Option<u32>,
    pub jmp_target: Option<u32>,
}

/// The ALU output of `d` at program counter `pc`.
pub open spec fn alu_spec(d: DecodeResult, pc: u32) -> u32 {
    let a = d.rs1_data;
    let b = d.rs2_data;
    let imm = d.imm_i_sext as int;
    match d.opcode {
        Opcode::LW => wrap32(a + imm),
        Opcode::SW => wrap32(a + d.imm_s_sext),
        Opcode::ADD => wrap32(a + b),
        Opcode::ADDI => wrap32(a + imm),
        Opcode::SUB => wrap32(a - b),
        Opcode::AND => a & b,
        Opcode::OR => a | b,
        Opcode::XOR => a ^ b,
        Opcode::ANDI => a & wrap32(imm),
        Opcode::ORI => a | wrap32(imm),
        Opcode::XORI => a ^ wrap32(imm),
        Opcode::SLL => a << (b % 32),
        Opcode::SRL => a >> (b % 32),
        Opcode::SRA => ((signed(a) as i32) >> (b % 32)) as u32,
        Opcode::SLLI => a << (d.imm_i % 32),
        Opcode::SRLI => a >> (d.imm_i % 32),
        Opcode::SRAI => ((signed(a) as i32) >> (d.imm_i % 32)) as u32,
        Opcode::SLT => if signed(a) < signed(b) { 1 } else { 0 },
        Opcode::SLTU => if a < b { 1 } else { 0 },
        Opcode::SLTI => if signed(a) < imm { 1 } else { 0 },
        Opcode::SLTIU => if a < wrap32(imm) { 1 } else { 0 },
        Opcode::JAL => wrap32(pc + 4),
        Opcode::JALR => wrap32(pc + 4),
        Opcode::LUI => wrap32(d.imm_u_sext_shifted as int),
        Opcode::AUIPC => wrap32(pc + d.imm_u_sext_shifted),
        _ => 0,
    }
}

/// Whether `d` is a branch whose condition holds.
pub open spec fn branch_taken(d: DecodeResult) -> bool {
    let a = d.rs1_data;
    let b = d.rs2_data;
    match d.opcode {
        Opcode::BEQ => a == b,
        Opcode::BNE => a != b,
        Opcode::BLT => signed(a) < signed(b),
        Opcode::BGE => signed(a) >= signed(b),
        Opcode::BLTU => a < b,
        Opcode::BGEU => a >= b,
        _ => false,
    }
}

/// The target of JALR: base plus offset, with bit 0 cleared.
pub open spec fn jalr_target(d: DecodeResult) -> u32 {
    wrap32(d.rs1_data + d.imm_i_sext) & !1u32
}

/// The result of executing `d` at program counter `pc`.
pub open spec fn execute_spec(d: DecodeResult, pc: u32) -> ExecuteResult {
    ExecuteResult {
        alu_out: alu_spec(d, pc),
        br_target: if branch_taken(d) {
            Some(wrap32(pc + d.imm_b_sext))
        } else {
            None
        },
        jmp_target: match d.opcode {
            Opcode::JAL => Some(wrap32(pc + d.imm_j_sext)),
            Opcode::JALR => Some(jalr_target(d)),
            _ => None,
        },
    }
}

/// 32-bit wrapping sum of a word and a signed offset.
fn add_signed(a: u32, offset: i32) -> (r: u32)
    ensures
        r == wrap32(a + offset),
{
    a.wrapping_add_signed(offset)
}

pub struct Execute();

impl Execute {
    /// Computes the ALU output, the branch target of a taken branch and the jump target of JAL/JALR.
    pub fn execute(&self, decode: DecodeResult, pc: u32) -> (r: ExecuteResult)
        ensures
            r == execute_spec(decode, pc),
    {
        let a = decode.rs1_data;
        let b = decode.rs2_data;
        let imm = decode.imm_i_sext;
        let alu_out: u32 = match decode.opcode {
            Opcode::LW => add_signed(a, imm),
            Opcode::SW => add_signed(a, decode.imm_s_sext),
            Opcode::ADD => a.wrapping_add(b),
            Opcode::ADDI => add_signed(a, imm),
            Opcode::SUB => a.wrapping_sub(b),
            Opcode::AND => a & b,
            Opcode::OR => a | b,
            Opcode::XOR => a ^ b,
            Opcode::ANDI => a & as_unsigned(imm),
            Opcode::ORI => a | as_unsigned(imm),
            Opcode::XORI => a ^ as_unsigned(imm),
            Opcode::SLL => a << (b % 32),
            Opcode::SRL => a >> (b % 32),
            Opcode::SRA => (as_signed(a) >> (b % 32)) as u32,
            Opcode::SLLI => a << (decode.imm_i % 32),
            Opcode::SRLI => a >> (decode.imm_i % 32),
            Opcode::SRAI => (as_signed(a) >> (decode.imm_i % 32)) as u32,
            Opcode::SLT => if as_signed(a) < as_signed(b) { 1 } else { 0 },
            Opcode::SLTU => if a < b { 1 } else { 0 },
            Opcode::SLTI => if as_signed(a) < imm { 1 } else { 0 },
            Opcode::SLTIU => if a < as_unsigned(imm) { 1 } else { 0 },
            Opcode::JAL => pc.wrapping_add(4),
            Opcode::JALR => pc.wrapping_add(4),
            Opcode::LUI => as_unsigned(decode.imm_u_sext_shifted),
            Opcode::AUIPC => add_signed(pc, decode.imm_u_sext_shifted),
            _ => 0,
        };

        let br_flg: bool = match decode.opcode {
            Opcode::BEQ => a == b,
            Opcode::BNE => a != b,
            Opcode::BLT => as_signed(a) < as_signed(b),
            Opcode::BGE => as_signed(a) >= as_signed(b),
            Opcode::BLTU => a < b,
            Opcode::BGEU => a >= b,
            _ => false,
        };

        let br_target: Option<u32> = if br_flg {
            Some(add_signed(pc, decode.imm_b_sext))
        } else {
            None
        };

        let jmp_target: Option<u32> = match decode.opcode {
            Opcode::JAL => Some(add_signed(pc, decode.imm_j_sext)),
            Opcode::JALR => Some(add_signed(a, imm) & !1u32),
            _ => None,
        };

        ExecuteResult { alu_out, br_target, jmp_target }
    }
}

/// No instruction produces both a branch target and a jump target.
pub proof fn lemma_at_most_one_target(d: DecodeResult, pc: u32)
    ensures
        execute_spec(d, pc).br_target is None || execute_spec(d, pc).jmp_target is None,
{
}

/// JALR's target is the sum of base and offset rounded down to even: an odd sum
/// loses its low bit, an even one is kept.
pub proof fn lemma_jalr_clears_low_bit(d: DecodeResult)
    ensures
        jalr_target(d) as int == wrap32(d.rs1_data + d.imm_i_sext) - wrap32(
            d.rs1_data + d.imm_i_sext,
        ) % 2,
        jalr_target(d) % 2 == 0,
{
    let s = wrap32(d.rs1_data + d.imm_i_sext);
    assert((s & !1u32) as int == s - s % 2 && (s & !1u32) % 2 == 0) by (bit_vector);
}

} // verus!
