use vstd::prelude::*;

use crate::bus::{access_fault, local, Bus};
use crate::dram::stored;
use crate::processor::{
    step_agrees, step_spec, HartState, Processor, ProcessorError, ProcessorResult,
};

verus! {

/// Running from state `s` and memory `mem` for at most `fuel` steps: `Ok(true)` once
/// a step halts on ECALL, `Ok(false)` when the steps run out, or the first error;
/// with the state and memory at that point.
pub open spec fn run_spec(s: HartState, mem: Seq<u8>, fuel: nat) -> (
    Result<bool, ProcessorError>,
    HartState,
    Seq<u8>,
)
    decreases fuel,
{
    if fuel == 0 {
        (Ok(false), s, mem)
    } else {
        match step_spec(s, mem) {
            Err(e) => (Err(e), s, mem),
            Ok((ProcessorResult::ECALL, s2, m2)) => (Ok(true), s2, m2),
            Ok((ProcessorResult::OK, s2, m2)) => run_spec(s2, m2, (fuel - 1) as nat),
        }
    }
}

/// A processor together with the bus it runs against.
pub struct Computer<P: Processor> {
    pub processor: P,
    pub bus: Bus,
}

impl<P: Processor> Computer<P> {
    pub open spec fn wf(&self) -> bool {
        self.processor.wf() && self.bus.wf()
    }

    pub fn new(processor: P, bus: Bus) -> (r: Self)
        ensures
            r.processor == processor,
            r.bus == bus,
    {
        Computer { processor, bus }
    }

    /// Copies a program image into memory from global address `start_address` on.
    pub fn load(&mut self, start_address: u32, data: Vec<u8>) -> (r: Result<(), ProcessorError>)
        requires
            old(self).wf(),
        ensures
            final(self).wf(),
            final(self).processor == old(self).processor,
            access_fault(start_address, data@.len() as int) matches Some(e) ==> r == Err::<
                (),
                ProcessorError,
            >(ProcessorError::Access(e)) && final(self).bus@ == old(self).bus@,
            access_fault(start_address, data@.len() as int) is None ==> r is Ok && final(self).bus@
                == stored(old(self).bus@, local(start_address), data@),
    {
        match self.bus.load8(start_address, data) {
            Ok(()) => Ok(()),
            Err(e) => Err(ProcessorError::Access(e)),
        }
    }

    /// Executes one instruction.
    pub fn step(&mut self) -> (r: Result<ProcessorResult, ProcessorError>)
        requires
            old(self).wf(),
        ensures
            final(self).wf(),
            step_agrees(
                r,
                old(self).processor.state(),
                old(self).bus@,
                final(self).processor.state(),
                final(self).bus@,
            ),
    {
        self.processor.increment(&mut self.bus)
    }

    /// Steps until ECALL halts the processor (`Ok(true)`), a step fails, or
    /// `max_steps` steps have run (`Ok(false)`).
    pub fn run(&mut self, max_steps: u64) -> (r: Result<bool, ProcessorError>)
        requires
            old(self).wf(),
        ensures
            final(self).wf(),
            run_spec(old(self).processor.state(), old(self).bus@, max_steps as nat) == (
                r,
                final(self).processor.state(),
                final(self).bus@,
            ),
    {
        let ghost s0 = self.processor.state();
        let ghost m0 = self.bus@;
        let mut steps: u64 = 0;
        while steps < max_steps
            invariant
                self.wf(),
                s0 == old(self).processor.state(),
                m0 == old(self).bus@,
                steps <= max_steps,
                run_spec(s0, m0, max_steps as nat) == run_spec(
                    self.processor.state(),
                    self.bus@,
                    (max_steps - steps) as nat,
                ),
            decreases max_steps - steps,
        {
            match self.processor.increment(&mut self.bus) {
                Ok(ProcessorResult::OK) => {},
                Ok(ProcessorResult::ECALL) => {
                    return Ok(true);
                },
                Err(e) => {
                    return Err(e);
                },
            }
            steps = steps + 1;
        }
        Ok(false)
    }
}

} // verus!
