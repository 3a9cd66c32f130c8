use vstd::prelude::*;

verus! {

/// Number of control and status registers (their index is a 12-bit field).
pub const REGISTERS_COUNT: usize = 4096;

/// Index of the trap-vector base register (mtvec).
pub const CSR_MTVEC: u32 = 0x305;

/// Index of the trap-cause register (mcause).
pub const CSR_MCAUSE: u32 = 0x342;

/// A flat bank of 4096 32-bit control and status registers.
#[derive(Debug, Clone)]
pub struct ControlAndStatusRegister {
    csregs: Vec<u32>,
}

impl View for ControlAndStatusRegister {
    type V = Seq<u32>;

    closed spec fn view(&self) -> Seq<u32> {
        self.csregs@
    }
}

impl ControlAndStatusRegister {
    pub open spec fn wf(&self) -> bool {
        self@.len() == REGISTERS_COUNT
    }

    /// All registers zero.
    pub fn new() -> (r: Self)
        ensures
            r.wf(),
            forall|i: int| 0 <= i < REGISTERS_COUNT ==> #[trigger] r@[i] == 0,
    {
        ControlAndStatusRegister { csregs: vec![0u32; REGISTERS_COUNT] }
    }

    pub fn read(&self, index: u32) -> (r: u32)
        requires
            self.wf(),
            index < REGISTERS_COUNT,
        ensures
            r == self@[index as int],
    {
        self.csregs[index as usize]
    }

    pub fn write(&mut self, index: u32, value: u32)
        requires
            old(self).wf(),
            index < REGISTERS_COUNT,
        ensures
            final(self).wf(),
            final(self)@ == old(self)@.update(index as int, value),
    {
        self.csregs.set(index as usize, value);
    }
}

} // verus!
