use riscv_emu::bus::{AccessError, Bus, BusError, BusErrorType, DRAM_BASE};
use riscv_emu::computer::Computer;
use riscv_emu::dram::{DramError, DramErrorType, DRAM_SIZE};
use riscv_emu::emulator::Emulator;
use riscv_emu::processor::decode::{DecodeError, DecodeErrorType};
use riscv_emu::processor::fetch::{FetchError, FetchErrorType};
use riscv_emu::processor::riscv::rv32ui::RiscVUIProcessor;
use riscv_emu::processor::writeback::{WritebackError, WritebackErrorType};
use riscv_emu::processor::{
    Processor, ProcessorError, ProcessorErrorTrait, ProcessorResult, RiscVProcessor, RESET_PC,
};
use riscv_emu::riscv;

const ECALL: u32 = 0x0000_0073;

fn image(words: &[u32]) -> Vec<u8> {
    words.iter().flat_map(|w| w.to_be_bytes()).collect()
}

fn computer_with(words: &[u32]) -> Computer<RiscVProcessor> {
    let mut c = Computer::new(RiscVProcessor::new(), Bus::new());
    assert_eq!(c.load(RESET_PC, image(words)), Ok(()));
    c
}

fn sw(rs2: u32, rs1: u32, imm: u32) -> u32 {
    ((imm >> 5) << 25) | (rs2 << 20) | (rs1 << 15) | (2 << 12) | ((imm & 0x1f) << 7) | 0x23
}

fn lw(rd: u32, rs1: u32, imm: u32) -> u32 {
    (imm << 20) | (rs1 << 15) | (2 << 12) | (rd << 7) | 0x03
}

fn addi(rd: u32, rs1: u32, imm: u32) -> u32 {
    ((imm & 0xfff) << 20) | (rs1 << 15) | (rd << 7) | 0x13
}

fn beq(rs1: u32, rs2: u32, imm: u32) -> u32 {
    (((imm >> 12) & 1) << 31)
        | (((imm >> 5) & 0x3f) << 25)
        | (rs2 << 20)
        | (rs1 << 15)
        | (((imm >> 1) & 0xf) << 8)
        | (((imm >> 11) & 1) << 7)
        | 0x63
}

fn csrrw(rd: u32, csr: u32, rs1: u32) -> u32 {
    (csr << 20) | (rs1 << 15) | (1 << 12) | (rd << 7) | 0x73
}

fn csrrsi(rd: u32, csr: u32, zimm: u32) -> u32 {
    (csr << 20) | (zimm << 15) | (6 << 12) | (rd << 7) | 0x73
}

fn csrrc(rd: u32, csr: u32, rs1: u32) -> u32 {
    (csr << 20) | (rs1 << 15) | (3 << 12) | (rd << 7) | 0x73
}

#[test]
fn ecall_jumps_to_trap_vector_and_halts() {
    let mut c = computer_with(&[ECALL]);
    c.processor.csr.write(0x305, 0xDEAD_BEEF);
    assert_eq!(c.step(), Ok(ProcessorResult::ECALL));
    assert_eq!(c.processor.pc, 0xDEAD_BEEF);
    assert_eq!(c.processor.csr.read(0x342), 11);
}

#[test]
fn store_then_load_round_trip() {
    let mut c = computer_with(&[sw(1, 3, 0), lw(4, 3, 0)]);
    c.processor.xregs.write(1, 0xCAFE_BABE);
    c.processor.xregs.write(3, DRAM_BASE + 0x2000);
    assert_eq!(c.step(), Ok(ProcessorResult::OK));
    assert_eq!(c.step(), Ok(ProcessorResult::OK));
    assert_eq!(c.processor.xregs.read(4), 0xCAFE_BABE);
    assert_eq!(c.bus.read32(DRAM_BASE + 0x2000), Ok(0xCAFE_BABE));
    assert_eq!(c.processor.pc, RESET_PC + 8);
}

#[test]
fn addi_advances_pc_and_writes_register() {
    let mut c = computer_with(&[addi(5, 0, 0x7ff), addi(5, 5, 0xfff), addi(0, 5, 1)]);
    assert_eq!(c.step(), Ok(ProcessorResult::OK));
    assert_eq!(c.processor.xregs.read(5), 2047);
    assert_eq!(c.step(), Ok(ProcessorResult::OK));
    assert_eq!(c.processor.xregs.read(5), 2046);
    assert_eq!(c.step(), Ok(ProcessorResult::OK));
    assert_eq!(c.processor.xregs.read(0), 0);
    assert_eq!(c.processor.pc, RESET_PC + 12);
}

#[test]
fn beq_moves_pc_by_offset_or_by_four() {
    let mut c = computer_with(&[beq(0, 0, 16)]);
    assert_eq!(c.step(), Ok(ProcessorResult::OK));
    assert_eq!(c.processor.pc, RESET_PC + 16);

    let mut c = computer_with(&[beq(0, 1, 16)]);
    c.processor.xregs.write(1, 1);
    assert_eq!(c.step(), Ok(ProcessorResult::OK));
    assert_eq!(c.processor.pc, RESET_PC + 4);
}

#[test]
fn csr_instructions_return_previous_value() {
    let mut c = computer_with(&[csrrw(5, 0x300, 1), csrrsi(6, 0x300, 0x10), csrrc(7, 0x300, 2)]);
    c.processor.csr.write(0x300, 0x0F);
    c.processor.xregs.write(1, 0x101);
    c.processor.xregs.write(2, 0x001);
    assert_eq!(c.step(), Ok(ProcessorResult::OK));
    assert_eq!(c.processor.xregs.read(5), 0x0F);
    assert_eq!(c.processor.csr.read(0x300), 0x101);
    assert_eq!(c.step(), Ok(ProcessorResult::OK));
    assert_eq!(c.processor.xregs.read(6), 0x101);
    assert_eq!(c.processor.csr.read(0x300), 0x111);
    assert_eq!(c.step(), Ok(ProcessorResult::OK));
    assert_eq!(c.processor.xregs.read(7), 0x111);
    assert_eq!(c.processor.csr.read(0x300), 0x110);
}

#[test]
fn fetch_outside_memory_faults() {
    let mut c = Computer::new(RiscVProcessor::new(), Bus::new());
    c.processor.pc = 0x10;
    let e = c.step();
    assert_eq!(
        e,
        Err(ProcessorError::Fetch(FetchError {
            error_type: FetchErrorType::Access(AccessError::Bus(BusError {
                error_type: BusErrorType::AddressOutOfBounds
            }))
        }))
    );
    assert_eq!(c.processor.pc, 0x10);
    assert_eq!(e.unwrap_err().message(), "AddressOutOfBounds");
}

#[test]
fn undecodable_word_faults() {
    let mut c = computer_with(&[0xFFFF_FFFF]);
    let e = c.step();
    assert_eq!(
        e,
        Err(ProcessorError::Decode(DecodeError { error_type: DecodeErrorType::UnmatchedOpcode }))
    );
    assert_eq!(c.processor.pc, RESET_PC);
}

#[test]
fn load_past_memory_faults_in_writeback() {
    let mut c = computer_with(&[lw(4, 3, 0)]);
    c.processor.xregs.write(3, DRAM_BASE + DRAM_SIZE - 2);
    let e = c.step();
    assert_eq!(
        e,
        Err(ProcessorError::Writeback(WritebackError {
            error_type: WritebackErrorType::Access(AccessError::Dram(DramError {
                error_type: DramErrorType::AddressOutOfBounds
            }))
        }))
    );
    assert_eq!(c.processor.xregs.read(4), 0);
    assert_eq!(c.processor.pc, RESET_PC);
    assert_eq!(e.unwrap_err().message(), "Address is Out Of Range.");
}

#[test]
fn computer_load_out_of_bounds() {
    let mut c = Computer::new(RiscVProcessor::new(), Bus::new());
    let r = c.load(DRAM_BASE + DRAM_SIZE - 2, vec![0, 0, 0, 0]);
    assert_eq!(
        r,
        Err(ProcessorError::Access(AccessError::Dram(DramError {
            error_type: DramErrorType::AddressOutOfBounds
        })))
    );
}

#[test]
fn run_until_ecall() {
    // x5 counts down from 3; beq x5, x0 leaves the loop to ECALL.
    let program = [
        addi(5, 0, 3),
        beq(5, 0, 12),
        addi(5, 5, 0xfff),
        beq(0, 0, 0x1ff8),
        ECALL,
    ];
    let mut c = computer_with(&program);
    c.processor.csr.write(0x305, DRAM_BASE);
    assert_eq!(c.run(100), Ok(true));
    assert_eq!(c.processor.xregs.read(5), 0);
    assert_eq!(c.processor.pc, DRAM_BASE);
}

#[test]
fn run_stops_after_step_limit() {
    let mut c = computer_with(&[beq(0, 0, 0)]);
    assert_eq!(c.run(10), Ok(false));
    assert_eq!(c.processor.pc, RESET_PC);
}

#[test]
fn run_reports_first_error() {
    let mut c = computer_with(&[addi(1, 0, 1), 0]);
    let r = c.run(10);
    assert_eq!(
        r,
        Err(ProcessorError::Decode(DecodeError { error_type: DecodeErrorType::UnmatchedOpcode }))
    );
    assert_eq!(c.processor.xregs.read(1), 1);
}

#[test]
fn rv32ui_processor_steps_the_same_way() {
    let mut bus = Bus::new();
    assert!(bus.load8(RESET_PC, image(&[addi(1, 0, 42), ECALL])).is_ok());
    let mut p = RiscVUIProcessor::new();
    assert_eq!(p.increment(&mut bus), Ok(ProcessorResult::OK));
    assert_eq!(p.xregs.read(1), 42);
    assert_eq!(p.increment(&mut bus), Ok(ProcessorResult::ECALL));
    assert_eq!(p.pc, 0);
}

#[test]
fn emulators_keep_their_path() {
    let e = Emulator::new(String::from("prog.bin"));
    assert_eq!(e.path, "prog.bin");
    assert_eq!(e.computer.processor.pc, RESET_PC);
    let r = riscv::Emulator::init(String::from("other.bin"));
    assert_eq!(r.path, "other.bin");
}
