use vstd::prelude::*;

use crate::bus::{access_fault, local, AccessError, Bus};
use crate::dram::be32;

use super::ProcessorErrorTrait;

verus! {

#[derive(Debug, Clone, Copy, PartialEq, Eq, Structural)]
pub enum FetchErrorType {
    Access(AccessError),
}

/// The instruction word at the program counter could not be read.
#[derive(Debug, Clone, Copy, PartialEq, Eq, Structural)]
pub struct FetchError {
    pub error_type: FetchErrorType,
}

impl FetchError {
    pub fn new(error_type: FetchErrorType) -> (r: Self)
        ensures
            r.error_type == error_type,
    {
        FetchError { error_type }
    }
}

impl ProcessorErrorTrait for FetchError {
    fn message(&self) -> &'static str {
        match &self.error_type {
            FetchErrorType::Access(e) => e.message(),
        }
    }
}

/// Reading the instruction word at `pc` from memory contents `mem`.
pub open spec fn fetch_spec(pc: u32, mem: Seq<u8>) -> Result<u32, FetchError> {
    match access_fault(pc, 4) {
        Some(e) => Err(FetchError { error_type: FetchErrorType::Access(e) }),
        None => Ok(be32(mem, local(pc))),
    }
}

#[derive(Debug, PartialEq, Eq, Structural)]
pub struct Fetch();

impl Fetch {
    /// Reads the 32-bit instruction word at `pc`.
    pub fn fetch(&mut self, pc: u32, bus: &Bus) -> (r: Result<u32, FetchError>)
        requires
            bus.wf(),
        ensures
            r == fetch_spec(pc, bus@),
            *final(self) == *old(self),
    {
        match bus.read32(pc) {
            Ok(inst) => Ok(inst),
            Err(e) => Err(FetchError::new(FetchErrorType::Access(e))),
        }
    }
}

} // verus!
