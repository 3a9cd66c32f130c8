use vstd::prelude::*;

use crate::bus::{access_fault, local, AccessError, Bus};
use crate::dram::{be32, be32_bytes, stored};

use super::cs_register::{ControlAndStatusRegister, CSR_MCAUSE};
use super::decode::{DecodeResult, Opcode};
use super::execute::ExecuteResult;
use super::register::{reg_written, XRegisters};
use super::ProcessorErrorTrait;

verus! {

/// Trap cause recorded by ECALL: environment call from machine mode.
pub const CAUSE_MACHINE_ECALL: u32 = 11;

#[derive(Debug, Clone, Copy, PartialEq, Eq, Structural)]
pub enum WritebackErrorType {
    Access(AccessError),
}

/// A load or store of the instruction could not be carried out.
#[derive(Debug, Clone, Copy, PartialEq, Eq, Structural)]
pub struct WritebackError {
    pub error_type: WritebackErrorType,
}

impl WritebackError {
    pub fn new(error_type: WritebackErrorType) -> (r: Self)
        ensures
            r.error_type == error_type,
    {
        WritebackError { error_type }
    }
}

impl ProcessorErrorTrait for WritebackError {
    fn message(&self) -> &'static str {
        match &self.error_type {
            WritebackErrorType::Access(e) => e.message(),
        }
    }
}

/// Register indices that decoding guarantees: `rd` is 5 bits, `csr` 12 bits.
pub open spec fn indices_in_range(d: DecodeResult) -> bool {
    d.rd < 32 && d.csr < 4096
}

pub open spec fn is_csr_op(op: Opcode) -> bool {
    match op {
        Opcode::CSRRW | Opcode::CSRRWI | Opcode::CSRRS | Opcode::CSRRSI | Opcode::CSRRC
        | Opcode::CSRRCI => true,
        _ => false,
    }
}

/// The new value a CSR instruction writes, given the register's current value `old_value`.
pub open spec fn csr_new_value(d: DecodeResult, old_value: u32) -> u32 {
    match d.opcode {
        Opcode::CSRRW => d.rs1_data,
        Opcode::CSRRWI => d.imm_z,
        Opcode::CSRRS => old_value | d.rs1_data,
        Opcode::CSRRSI => old_value | d.imm_z,
        Opcode::CSRRC => old_value & !d.rs1_data,
        Opcode::CSRRCI => old_value & !d.imm_z,
        _ => old_value,
    }
}

/// The CSR bank after writeback of `d`.
pub open spec fn csrs_after(d: DecodeResult, csrs: Seq<u32>) -> Seq<u32> {
    if is_csr_op(d.opcode) {
        csrs.update(d.csr as int, csr_new_value(d, csrs[d.csr as int]))
    } else if d.opcode == Opcode::ECALL {
        csrs.update(CSR_MCAUSE as int, CAUSE_MACHINE_ECALL)
    } else {
        csrs
    }
}

/// The general registers after writeback of `d`; CSR instructions write the value
/// the CSR held before the instruction.
pub open spec fn xregs_after(
    d: DecodeResult,
    e: ExecuteResult,
    xregs: Seq<u32>,
    csrs: Seq<u32>,
    mem: Seq<u8>,
) -> Seq<u32> {
    match d.opcode {
        Opcode::LW => reg_written(xregs, d.rd, be32(mem, local(e.alu_out))),
        Opcode::SW | Opcode::BEQ | Opcode::BNE | Opcode::BLT | Opcode::BGE | Opcode::BLTU
        | Opcode::BGEU | Opcode::ECALL | Opcode::MRET | Opcode::FENCE => xregs,
        _ => if is_csr_op(d.opcode) {
            reg_written(xregs, d.rd, csrs[d.csr as int])
        } else {
            reg_written(xregs, d.rd, e.alu_out)
        },
    }
}

/// Memory after writeback of `d`.
pub open spec fn mem_after(d: DecodeResult, e: ExecuteResult, mem: Seq<u8>) -> Seq<u8> {
    if d.opcode == Opcode::SW {
        stored(mem, local(e.alu_out), be32_bytes(d.rs2_data))
    } else {
        mem
    }
}

/// The error writeback of `d` reports, if any: only loads and stores can fail.
pub open spec fn writeback_fault(d: DecodeResult, e: ExecuteResult) -> Option<WritebackError> {
    if d.opcode == Opcode::LW || d.opcode == Opcode::SW {
        match access_fault(e.alu_out, 4) {
            Some(a) => Some(WritebackError { error_type: WritebackErrorType::Access(a) }),
            None => None,
        }
    } else {
        None
    }
}

pub struct Writeback();

impl Writeback {
    /// Commits the instruction's effects: first the CSR update, then the register
    /// write, load or store. A failing load or store changes nothing.
    pub fn writeback(
        &self,
        decode: DecodeResult,
        execute: ExecuteResult,
        xregs: &mut XRegisters,
        csr: &mut ControlAndStatusRegister,
        bus: &mut Bus,
    ) -> (r: Result<(), WritebackError>)
        requires
            old(xregs).wf(),
            old(csr).wf(),
            old(bus).wf(),
            indices_in_range(decode),
        ensures
            final(xregs).wf(),
            final(csr).wf(),
            final(bus).wf(),
            writeback_fault(decode, execute) matches Some(err) ==> r == Err::<(), WritebackError>(
                err,
            ) && final(xregs)@ == old(xregs)@ && final(csr)@ == old(csr)@ && final(bus)@ == old(
                bus,
            )@,
            writeback_fault(decode, execute) is None ==> r is Ok && final(xregs)@ == xregs_after(
                decode,
                execute,
                old(xregs)@,
                old(csr)@,
                old(bus)@,
            ) && final(csr)@ == csrs_after(decode, old(csr)@) && final(bus)@ == mem_after(
                decode,
                execute,
                old(bus)@,
            ),
    {
        let crs_data = csr.read(decode.csr);

        match decode.opcode {
            Opcode::CSRRW => csr.write(decode.csr, decode.rs1_data),
            Opcode::CSRRWI => csr.write(decode.csr, decode.imm_z),
            Opcode::CSRRS => csr.write(decode.csr, crs_data | decode.rs1_data),
            Opcode::CSRRSI => csr.write(decode.csr, crs_data | decode.imm_z),
            Opcode::CSRRC => csr.write(decode.csr, crs_data & !decode.rs1_data),
            Opcode::CSRRCI => csr.write(decode.csr, crs_data & !decode.imm_z),
            _ => {},
        }

        match decode.opcode {
            Opcode::LW => match bus.read32(execute.alu_out) {
                Ok(value) => xregs.write(decode.rd, value),
                Err(e) => {
                    return Err(WritebackError::new(WritebackErrorType::Access(e)));
                },
            },
            Opcode::SW => match bus.write32(execute.alu_out, decode.rs2_data) {
                Ok(()) => {},
                Err(e) => {
                    return Err(WritebackError::new(WritebackErrorType::Access(e)));
                },
            },
            Opcode::BEQ | Opcode::BNE | Opcode::BLT | Opcode::BGE | Opcode::BLTU | Opcode::BGEU => {
            },
            Opcode::CSRRW | Opcode::CSRRWI | Opcode::CSRRS | Opcode::CSRRSI | Opcode::CSRRC
            | Opcode::CSRRCI => xregs.write(decode.rd, crs_data),
            Opcode::ECALL => csr.write(CSR_MCAUSE, CAUSE_MACHINE_ECALL),
            Opcode::MRET | Opcode::FENCE => {},
            _ => xregs.write(decode.rd, execute.alu_out),
        }
        Ok(())
    }
}

} // verus!
