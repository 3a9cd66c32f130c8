use vstd::prelude::*;

use crate::bus::DRAM_BASE;
use crate::dram::DRAM_SIZE;

verus! {

/// Number of general-purpose registers.
pub const REGISTERS_COUNT: usize = 32;

/// Initial stack pointer: one past the last mapped address.
pub const STACK_TOP: u32 = DRAM_BASE + DRAM_SIZE;

/// The 32 general-purpose registers of the hart; register 0 always reads as zero.
#[derive(Debug, Clone)]
pub struct XRegisters {
    xregs: Vec<u32>,
}

/// Register contents after `write(index, value)`: register 0 discards the write.
pub open spec fn reg_written(regs: Seq<u32>, index: u32, value: u32) -> Seq<u32> {
    if index == 0 {
        regs
    } else {
        regs.update(index as int, value)
    }
}

impl View for XRegisters {
    type V = Seq<u32>;

    closed spec fn view(&self) -> Seq<u32> {
        self.xregs@
    }
}

impl XRegisters {
    /// Exactly 32 registers, with register 0 at zero.
    pub open spec fn wf(&self) -> bool {
        &&& self@.len() == REGISTERS_COUNT
        &&& self@[0] == 0
    }

    /// Register contents after reset.
    pub open spec fn new_spec() -> Seq<u32> {
        Seq::new(REGISTERS_COUNT as nat, |i: int| if i == 2 { STACK_TOP } else { 0u32 })
    }

    /// All registers zero except the stack pointer (register 2), which holds the top of memory.
    pub fn new() -> (r: Self)
        ensures
            r.wf(),
            r@ == Self::new_spec(),
    {
        let stack_top: u32 = STACK_TOP;
        let mut xregs: Vec<u32> = Vec::new();
        let mut i: usize = 0;
        while i < REGISTERS_COUNT
            invariant
                i <= REGISTERS_COUNT,
                xregs@ == Seq::new(i as nat, |k: int| if k == 2 { stack_top } else { 0u32 }),
            decreases REGISTERS_COUNT - i,
        {
            if i == 2 {
                xregs.push(stack_top);
            } else {
                xregs.push(0);
            }
            i = i + 1;
            assert(xregs@ =~= Seq::new(i as nat, |k: int| if k == 2 { stack_top } else { 0u32 }));
        }
        XRegisters { xregs }
    }

    pub fn read(&self, index: u32) -> (r: u32)
        requires
            self.wf(),
            index < REGISTERS_COUNT,
        ensures
            r == self@[index as int],
    {
        self.xregs[index as usize]
    }

    pub fn write(&mut self, index: u32, value: u32)
        requires
            old(self).wf(),
            index < REGISTERS_COUNT,
        ensures
            final(self).wf(),
            final(self)@ == reg_written(old(self)@, index, value),
    {
        if index != 0 {
            self.xregs.set(index as usize, value);
        }
    }
}

/// Writing a nonzero register and reading it back yields the value written;
/// register 0 reads as zero whatever was written to it.
pub proof fn lemma_write_then_read(regs: XRegisters, index: u32, value: u32)
    requires
        regs.wf(),
        index < REGISTERS_COUNT,
    ensures
        index != 0 ==> reg_written(regs@, index, value)[index as int] == value,
        index == 0 ==> reg_written(regs@, index, value)[index as int] == 0,
        forall|j: int|
            0 <= j < REGISTERS_COUNT && j != index ==> #[trigger] reg_written(regs@, index, value)[j]
                == regs@[j],
{
}

} // verus!
