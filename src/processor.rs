pub mod bitfield;
pub mod cs_register;
pub mod decode;
pub mod execute;
pub mod fetch;
pub mod register;
pub mod riscv;
pub mod writeback;

use vstd::arithmetic::power2::lemma2_to64;
use vstd::prelude::*;

use crate::bus::{AccessError, Bus, DRAM_BASE};

use self::bitfield::wrap32;
use self::cs_register::{ControlAndStatusRegister, CSR_MTVEC};
use self::decode::{decode_spec, Decode, DecodeError, DecodeResult, Opcode};
use self::execute::{execute_spec, Execute, ExecuteResult};
use self::fetch::{fetch_spec, Fetch, FetchError};
use self::register::XRegisters;
use self::writeback::{csrs_after, mem_after, writeback_fault, xregs_after, Writeback, WritebackError};

verus! {

/// Program counter after reset.
pub const RESET_PC: u32 = DRAM_BASE + 0x1000;

/// How a step ended: an ordinary instruction, or ECALL, which halts the run.
#[allow(non_camel_case_types)]
#[derive(Debug, Clone, Copy, PartialEq, Eq, Structural)]
pub enum ProcessorResult {
    OK,
    ECALL,
}

/// A failed step, tagged with the stage that failed.
#[derive(Debug, Clone, Copy, PartialEq, Eq, Structural)]
pub enum ProcessorError {
    Access(AccessError),
    Fetch(FetchError),
    Decode(DecodeError),
    Writeback(WritebackError),
}

/// An error that describes itself in one line.
pub trait ProcessorErrorTrait {
    fn message(&self) -> &'static str;
}

impl ProcessorErrorTrait for ProcessorError {
    fn message(&self) -> &'static str {
        match self {
            ProcessorError::Access(e) => e.message(),
            ProcessorError::Fetch(e) => e.message(),
            ProcessorError::Decode(e) => e.message(),
            ProcessorError::Writeback(e) => e.message(),
        }
    }
}

/// The architectural state of the hart: general registers, CSR bank and program counter.
pub struct HartState {
    pub xregs: Seq<u32>,
    pub csrs: Seq<u32>,
    pub pc: u32,
}

/// The program-counter update after an instruction, in priority order: a taken
/// branch, then a jump, then ECALL (to the trap vector, halting), else the next word.
pub open spec fn next_pc(d: DecodeResult, e: ExecuteResult, csrs: Seq<u32>, pc: u32) -> (
    ProcessorResult,
    u32,
) {
    if e.br_target is Some {
        (ProcessorResult::OK, e.br_target->0)
    } else if e.jmp_target is Some {
        (ProcessorResult::OK, e.jmp_target->0)
    } else if d.opcode == Opcode::ECALL {
        (ProcessorResult::ECALL, csrs[CSR_MTVEC as int])
    } else {
        (ProcessorResult::OK, wrap32(pc + 4))
    }
}

/// BEQ with equal operands branches to `pc` plus its B-immediate; with unequal
/// operands it has no branch target and the program counter moves on by four.
pub proof fn lemma_beq_target(d: DecodeResult, csrs: Seq<u32>, pc: u32)
    requires
        d.opcode == Opcode::BEQ,
    ensures
        d.rs1_data == d.rs2_data ==> execute_spec(d, pc).br_target == Some(
            wrap32(pc + d.imm_b_sext),
        ) && next_pc(d, execute_spec(d, pc), csrs, pc) == (
            ProcessorResult::OK,
            wrap32(pc + d.imm_b_sext),
        ),
        d.rs1_data != d.rs2_data ==> execute_spec(d, pc).br_target is None && next_pc(
            d,
            execute_spec(d, pc),
            csrs,
            pc,
        ) == (ProcessorResult::OK, wrap32(pc + 4)),
{
}

/// One step of the pipeline from state `s` and memory `mem`: the outcome, the new
/// state and the new memory, or the error of the first stage that failed.
pub open spec fn step_spec(s: HartState, mem: Seq<u8>) -> Result<
    (ProcessorResult, HartState, Seq<u8>),
    ProcessorError,
> {
    match fetch_spec(s.pc, mem) {
        Err(e) => Err(ProcessorError::Fetch(e)),
        Ok(inst) => match decode_spec(inst, s.xregs) {
            Err(e) => Err(ProcessorError::Decode(e)),
            Ok(d) => {
                let e = execute_spec(d, s.pc);
                match writeback_fault(d, e) {
                    Some(err) => Err(ProcessorError::Writeback(err)),
                    None => {
                        let csrs = csrs_after(d, s.csrs);
                        let (outcome, pc) = next_pc(d, e, csrs, s.pc);
                        Ok(
                            (
                                outcome,
                                HartState {
                                    xregs: xregs_after(d, e, s.xregs, s.csrs, mem),
                                    csrs,
                                    pc,
                                },
                                mem_after(d, e, mem),
                            ),
                        )
                    },
                }
            },
        },
    }
}

/// Whether a step that returned `r` and went from (`before`, `mem_before`) to
/// (`after`, `mem_after`) did what `step_spec` says; a failed step changes nothing.
pub open spec fn step_agrees(
    r: Result<ProcessorResult, ProcessorError>,
    before: HartState,
    mem_before: Seq<u8>,
    after: HartState,
    mem_after: Seq<u8>,
) -> bool {
    match step_spec(before, mem_before) {
        Ok((outcome, s, m)) => r == Ok::<ProcessorResult, ProcessorError>(outcome) && after == s
            && mem_after == m,
        Err(e) => r == Err::<ProcessorResult, ProcessorError>(e) && after == before && mem_after
            == mem_before,
    }
}

/// A processor that advances by one instruction per `increment`.
pub trait Processor {
    spec fn wf(&self) -> bool;

    spec fn state(&self) -> HartState;

    fn increment(&mut self, bus: &mut Bus) -> (r: Result<ProcessorResult, ProcessorError>)
        requires
            old(self).wf(),
            old(bus).wf(),
        ensures
            final(self).wf(),
            final(bus).wf(),
            step_agrees(r, old(self).state(), old(bus)@, final(self).state(), final(bus)@),
    ;
}

/// Runs fetch, decode, execute and writeback once, then updates the program counter.
pub fn pipeline_step(
    fetch: &mut Fetch,
    decode: &Decode,
    execute: &Execute,
    writeback: &Writeback,
    xregs: &mut XRegisters,
    csr: &mut ControlAndStatusRegister,
    pc: &mut u32,
    bus: &mut Bus,
) -> (r: Result<ProcessorResult, ProcessorError>)
    requires
        old(xregs).wf(),
        old(csr).wf(),
        old(bus).wf(),
    ensures
        final(xregs).wf(),
        final(csr).wf(),
        final(bus).wf(),
        *final(fetch) == *old(fetch),
        step_agrees(
            r,
            HartState { xregs: old(xregs)@, csrs: old(csr)@, pc: *old(pc) },
            old(bus)@,
            HartState { xregs: final(xregs)@, csrs: final(csr)@, pc: *final(pc) },
            final(bus)@,
        ),
{
    proof {
        lemma2_to64();
    }
    let inst = match fetch.fetch(*pc, bus) {
        Ok(inst) => inst,
        Err(e) => {
            return Err(ProcessorError::Fetch(e));
        },
    };
    let decode_res = match decode.decode(inst, xregs) {
        Ok(d) => d,
        Err(e) => {
            return Err(ProcessorError::Decode(e));
        },
    };
    let execute_res = execute.execute(decode_res, *pc);
    match writeback.writeback(decode_res, execute_res, xregs, csr, bus) {
        Ok(()) => {},
        Err(e) => {
            return Err(ProcessorError::Writeback(e));
        },
    }

    if let Some(br_target) = execute_res.br_target {
        *pc = br_target;
    } else if let Some(jmp_target) = execute_res.jmp_target {
        *pc = jmp_target;
    } else if decode_res.opcode == Opcode::ECALL {
        *pc = csr.read(CSR_MTVEC);
        return Ok(ProcessorResult::ECALL);
    } else {
        *pc = pc.wrapping_add(4);
    }
    Ok(ProcessorResult::OK)
}

/// An RV32I hart with the CSR and ECALL instructions.
pub struct RiscVProcessor {
    pub xregs: XRegisters,
    pub csr: ControlAndStatusRegister,
    pub pc: u32,
    pub fetch: Fetch,
    pub decode: Decode,
    pub execute: Execute,
    pub writeback: Writeback,
}

impl RiscVProcessor {
    /// Registers as after reset: all zero but the stack pointer; the program counter at `RESET_PC`.
    pub fn new() -> (r: Self)
        ensures
            r.wf(),
            r.pc == RESET_PC,
            r.xregs@ == XRegisters::new_spec(),
            forall|i: int| 0 <= i < cs_register::REGISTERS_COUNT ==> #[trigger] r.csr@[i] == 0,
    {
        RiscVProcessor {
            xregs: XRegisters::new(),
            csr: ControlAndStatusRegister::new(),
            pc: RESET_PC,
            fetch: Fetch(),
            decode: Decode(),
            execute: Execute(),
            writeback: Writeback(),
        }
    }
}

impl Processor for RiscVProcessor {
    open spec fn wf(&self) -> bool {
        self.xregs.wf() && self.csr.wf()
    }

    open spec fn state(&self) -> HartState {
        HartState { xregs: self.xregs@, csrs: self.csr@, pc: self.pc }
    }

    fn increment(&mut self, bus: &mut Bus) -> (r: Result<ProcessorResult, ProcessorError>) {
        pipeline_step(
            &mut self.fetch,
            &self.decode,
            &self.execute,
            &self.writeback,
            &mut self.xregs,
            &mut self.csr,
            &mut self.pc,
            bus,
        )
    }
}

} // verus!
