use vstd::prelude::*;

use crate::bus::Bus;
use crate::processor::cs_register::{self, ControlAndStatusRegister};
use crate::processor::decode::Decode;
use crate::processor::execute::Execute;
use crate::processor::fetch::Fetch;
use crate::processor::register::XRegisters;
use crate::processor::writeback::Writeback;
use crate::processor::{
    pipeline_step, HartState, Processor, ProcessorError, ProcessorResult, RESET_PC,
};

verus! {

/// A hart for the RV32UI instruction set, stepped by the shared pipeline.
pub struct RiscVUIProcessor {
    pub xregs: XRegisters,
    pub csr: ControlAndStatusRegister,
    pub pc: u32,
    pub fetch: Fetch,
    pub decode: Decode,
    pub execute: Execute,
    pub writeback: Writeback,
}

impl RiscVUIProcessor {
    /// Registers as after reset: all zero but the stack pointer; the program counter at `RESET_PC`.
    pub fn new() -> (r: Self)
        ensures
            r.wf(),
            r.pc == RESET_PC,
            r.xregs@ == XRegisters::new_spec(),
            forall|i: int| 0 <= i < cs_register::REGISTERS_COUNT ==> #[trigger] r.csr@[i] == 0,
    {
        RiscVUIProcessor {
            xregs: XRegisters::new(),
            csr: ControlAndStatusRegister::new(),
            pc: RESET_PC,
            fetch: Fetch(),
            decode: Decode(),
            execute: Execute(),
            writeback: Writeback(),
        }
    }
}

impl Processor for RiscVUIProcessor {
    open spec fn wf(&self) -> bool {
        self.xregs.wf() && self.csr.wf()
    }

    open spec fn state(&self) -> HartState {
        HartState { xregs: self.xregs@, csrs: self.csr@, pc: self.pc }
    }

    fn increment(&mut self, bus: &mut Bus) -> (r: Result<ProcessorResult, ProcessorError>) {
        pipeline_step(
            &mut self.fetch,
            &self.decode,
            &self.execute,
            &self.writeback,
            &mut self.xregs,
            &mut self.csr,
            &mut self.pc,
            bus,
        )
    }
}

} // verus!
