use vstd::prelude::*;

use crate::bus::Bus;
use crate::computer::Computer;
use crate::processor::{RiscVProcessor, RESET_PC};

verus! {

/// A freshly reset computer, together with the path of the program image it is to run.
pub struct Emulator {
    pub computer: Computer<RiscVProcessor>,
    pub path: String,
}

impl Emulator {
    pub fn new(path: String) -> (r: Self)
        ensures
            r.path == path,
            r.computer.wf(),
            r.computer.processor.pc == RESET_PC,
            forall|i: int| 0 <= i < r.computer.bus@.len() ==> #[trigger] r.computer.bus@[i] == 0,
    {
        Emulator { computer: Computer::new(RiscVProcessor::new(), Bus::new()), path }
    }
}

} // verus!
