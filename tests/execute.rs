use riscv_emu::processor::decode::{Decode, DecodeResult, Opcode};
use riscv_emu::processor::execute::Execute;
use riscv_emu::processor::register::XRegisters;

fn decoded(opcode: Opcode, rs1: u32, rs2: u32) -> DecodeResult {
    DecodeResult {
        opcode,
        rs1_data: rs1,
        rs2_data: rs2,
        rd: 1,
        imm_i: 0,
        imm_i_sext: 0,
        imm_s: 0,
        imm_s_sext: 0,
        imm_b: 0,
        imm_b_sext: 0,
        imm_j: 0,
        imm_j_sext: 0,
        imm_u: 0,
        imm_u_sext_shifted: 0,
        imm_z: 0,
        csr: 0,
    }
}

#[test]
fn add_wraps_around() {
    let r = Execute().execute(decoded(Opcode::ADD, 0xFFFF_FFFF, 1), 0);
    assert_eq!(r.alu_out, 0);
    assert_eq!(r.br_target, None);
    assert_eq!(r.jmp_target, None);
}

#[test]
fn addi_wraps_around() {
    let mut d = decoded(Opcode::ADDI, 0xFFFF_FFFF, 0);
    d.imm_i = 1;
    d.imm_i_sext = 1;
    assert_eq!(Execute().execute(d, 0).alu_out, 0);
    d.rs1_data = 0;
    d.imm_i = 0xfff;
    d.imm_i_sext = -1;
    assert_eq!(Execute().execute(d, 0).alu_out, 0xFFFF_FFFF);
}

#[test]
fn arithmetic_and_logic() {
    let e = Execute();
    assert_eq!(e.execute(decoded(Opcode::SUB, 0, 1), 0).alu_out, 0xFFFF_FFFF);
    assert_eq!(e.execute(decoded(Opcode::AND, 0b1100, 0b1010), 0).alu_out, 0b1000);
    assert_eq!(e.execute(decoded(Opcode::OR, 0b1100, 0b1010), 0).alu_out, 0b1110);
    assert_eq!(e.execute(decoded(Opcode::XOR, 0b1100, 0b1010), 0).alu_out, 0b0110);
    assert_eq!(e.execute(decoded(Opcode::SLT, 0xFFFF_FFFF, 1), 0).alu_out, 1);
    assert_eq!(e.execute(decoded(Opcode::SLTU, 0xFFFF_FFFF, 1), 0).alu_out, 0);
}

#[test]
fn shifts_use_low_five_bits() {
    let e = Execute();
    assert_eq!(e.execute(decoded(Opcode::SLL, 1, 33), 0).alu_out, 2);
    assert_eq!(e.execute(decoded(Opcode::SRL, 0x8000_0000, 31), 0).alu_out, 1);
    assert_eq!(e.execute(decoded(Opcode::SRA, 0x8000_0000, 4), 0).alu_out, 0xF800_0000);
    assert_eq!(e.execute(decoded(Opcode::SRA, 0x4000_0000, 4), 0).alu_out, 0x0400_0000);
    let mut d = decoded(Opcode::SRAI, 0xFFFF_FF00, 0);
    d.imm_i = 0x404;
    d.imm_i_sext = 0x404;
    assert_eq!(e.execute(d, 0).alu_out, 0xFFFF_FFF0);
}

#[test]
fn immediate_comparisons_and_logic() {
    let e = Execute();
    let mut d = decoded(Opcode::SLTIU, 5, 0);
    d.imm_i = 0xfff;
    d.imm_i_sext = -1;
    assert_eq!(e.execute(d, 0).alu_out, 1);
    d.opcode = Opcode::SLTI;
    assert_eq!(e.execute(d, 0).alu_out, 0);
    d.opcode = Opcode::ANDI;
    assert_eq!(e.execute(d, 0).alu_out, 5);
    d.opcode = Opcode::XORI;
    assert_eq!(e.execute(d, 0).alu_out, !5u32);
}

#[test]
fn beq_taken_and_not_taken() {
    let mut d = decoded(Opcode::BEQ, 7, 7);
    d.imm_b = 0x1ff8;
    d.imm_b_sext = -8;
    let r = Execute().execute(d, 0x8000_1000);
    assert_eq!(r.br_target, Some(0x8000_0FF8));
    assert_eq!(r.jmp_target, None);
    d.rs2_data = 8;
    let r = Execute().execute(d, 0x8000_1000);
    assert_eq!(r.br_target, None);
}

#[test]
fn other_branch_conditions() {
    let e = Execute();
    let mut d = decoded(Opcode::BLT, 0xFFFF_FFFF, 0);
    d.imm_b_sext = 16;
    assert_eq!(e.execute(d, 100).br_target, Some(116));
    d.opcode = Opcode::BLTU;
    assert_eq!(e.execute(d, 100).br_target, None);
    d.opcode = Opcode::BGEU;
    assert_eq!(e.execute(d, 100).br_target, Some(116));
    d.opcode = Opcode::BGE;
    assert_eq!(e.execute(d, 100).br_target, None);
    d.opcode = Opcode::BNE;
    assert_eq!(e.execute(d, 100).br_target, Some(116));
}

#[test]
fn jalr_clears_low_bit() {
    let mut d = decoded(Opcode::JALR, 0x8000_0000, 0);
    d.imm_i = 5;
    d.imm_i_sext = 5;
    let r = Execute().execute(d, 0x8000_1000);
    assert_eq!(r.jmp_target, Some(0x8000_0004));
    assert_eq!(r.alu_out, 0x8000_1004);
    assert_eq!(r.br_target, None);
}

#[test]
fn jal_lui_auipc_and_addresses() {
    let e = Execute();
    let mut d = decoded(Opcode::JAL, 0, 0);
    d.imm_j_sext = -16;
    let r = e.execute(d, 0x8000_1000);
    assert_eq!(r.jmp_target, Some(0x8000_0FF0));
    assert_eq!(r.alu_out, 0x8000_1004);
    let mut d = decoded(Opcode::LUI, 0, 0);
    d.imm_u = 0x12345;
    d.imm_u_sext_shifted = 0x1234_5000;
    assert_eq!(e.execute(d, 0).alu_out, 0x1234_5000);
    d.opcode = Opcode::AUIPC;
    assert_eq!(e.execute(d, 0x10).alu_out, 0x1234_5010);
    let mut d = decoded(Opcode::SW, 0x8000_0010, 0);
    d.imm_s_sext = -16;
    assert_eq!(e.execute(d, 0).alu_out, 0x8000_0000);
}

#[test]
fn decode_then_execute_addi() {
    let mut regs = XRegisters::new();
    regs.write(1, 10);
    // addi x2, x1, -3
    let word = (0xffd << 20) | (1 << 15) | (2 << 7) | 0x13;
    let d = Decode().decode(word, &regs).unwrap();
    assert_eq!(Execute().execute(d, 0).alu_out, 7);
}
