use vstd::prelude::*;

use crate::processor::ProcessorErrorTrait;

use crate::dram::{
    be16, be16_bytes, be32, be32_bytes, in_range, out_of_range, stored, Dram, DramError,
    DRAM_SIZE,
};

verus! {

/// First address of the memory window.
pub const DRAM_BASE: u32 = 0x8000_0000;

#[derive(Debug, Clone, Copy, PartialEq, Eq, Structural)]
pub enum BusErrorType {
    AddressOutOfBounds,
}

/// An access below the memory window.
#[derive(Debug, Clone, Copy, PartialEq, Eq, Structural)]
pub struct BusError {
    pub error_type: BusErrorType,
}

impl BusError {
    pub fn new(error_type: BusErrorType) -> (r: Self)
        ensures
            r.error_type == error_type,
    {
        BusError { error_type }
    }
}

impl ProcessorErrorTrait for BusError {
    fn message(&self) -> &'static str {
        match self.error_type {
            BusErrorType::AddressOutOfBounds => "AddressOutOfBounds",
        }
    }
}

/// Why a bus access failed: below the window (the bus), or past its end (the memory).
#[derive(Debug, Clone, Copy, PartialEq, Eq, Structural)]
pub enum AccessError {
    Bus(BusError),
    Dram(DramError),
}

impl ProcessorErrorTrait for AccessError {
    fn message(&self) -> &'static str {
        match self {
            AccessError::Bus(e) => e.message(),
            AccessError::Dram(e) => e.message(),
        }
    }
}

/// The fault, if any, of an access of `width` bytes at global address `address`.
pub open spec fn access_fault(address: u32, width: int) -> Option<AccessError> {
    if address < DRAM_BASE {
        Some(AccessError::Bus(BusError { error_type: BusErrorType::AddressOutOfBounds }))
    } else if !in_range(address - DRAM_BASE, width) {
        Some(AccessError::Dram(out_of_range()))
    } else {
        None
    }
}

/// Memory-local offset of a global address.
pub open spec fn local(address: u32) -> int {
    address - DRAM_BASE
}

/// Routes global addresses to the memory, which is mapped from `DRAM_BASE` on.
#[derive(Debug, Clone)]
pub struct Bus {
    pub dram: Dram,
}

impl View for Bus {
    type V = Seq<u8>;

    open spec fn view(&self) -> Seq<u8> {
        self.dram@
    }
}

impl Bus {
    pub open spec fn wf(&self) -> bool {
        self.dram.wf()
    }

    pub fn new() -> (r: Self)
        ensures
            r.wf(),
            forall|i: int| 0 <= i < DRAM_SIZE ==> #[trigger] r@[i] == 0,
    {
        Bus { dram: Dram::new() }
    }

    /// Copies `data` into memory starting at global address `start_address`.
    pub fn load8(&mut self, start_address: u32, data: Vec<u8>) -> (r: Result<(), AccessError>)
        requires
            old(self).wf(),
        ensures
            final(self).wf(),
            access_fault(start_address, data@.len() as int) matches Some(e) ==> r == Err::<
                (),
                AccessError,
            >(e) && final(self)@ == old(self)@,
            access_fault(start_address, data@.len() as int) is None ==> r is Ok && final(self)@
                == stored(old(self)@, local(start_address), data@),
    {
        if start_address >= DRAM_BASE {
            match self.dram.load8(start_address - DRAM_BASE, data) {
                Ok(()) => Ok(()),
                Err(e) => Err(AccessError::Dram(e)),
            }
        } else {
            Err(AccessError::Bus(BusError::new(BusErrorType::AddressOutOfBounds)))
        }
    }

    pub fn read8(&self, address: u32) -> (r: Result<u8, AccessError>)
        requires
            self.wf(),
        ensures
            access_fault(address, 1) matches Some(e) ==> r == Err::<u8, AccessError>(e),
            access_fault(address, 1) is None ==> r == Ok::<u8, AccessError>(
                self@[local(address)],
            ),
    {
        if address >= DRAM_BASE {
            match self.dram.read8(address - DRAM_BASE) {
                Ok(v) => Ok(v),
                Err(e) => Err(AccessError::Dram(e)),
            }
        } else {
            Err(AccessError::Bus(BusError::new(BusErrorType::AddressOutOfBounds)))
        }
    }

    pub fn read16(&self, address: u32) -> (r: Result<u16, AccessError>)
        requires
            self.wf(),
        ensures
            access_fault(address, 2) matches Some(e) ==> r == Err::<u16, AccessError>(e),
            access_fault(address, 2) is None ==> r == Ok::<u16, AccessError>(
                be16(self@, local(address)),
            ),
    {
        if address >= DRAM_BASE {
            match self.dram.read16(address - DRAM_BASE) {
                Ok(v) => Ok(v),
                Err(e) => Err(AccessError::Dram(e)),
            }
        } else {
            Err(AccessError::Bus(BusError::new(BusErrorType::AddressOutOfBounds)))
        }
    }

    pub fn read32(&self, address: u32) -> (r: Result<u32, AccessError>)
        requires
            self.wf(),
        ensures
            access_fault(address, 4) matches Some(e) ==> r == Err::<u32, AccessError>(e),
            access_fault(address, 4) is None ==> r == Ok::<u32, AccessError>(
                be32(self@, local(address)),
            ),
    {
        if address >= DRAM_BASE {
            match self.dram.read32(address - DRAM_BASE) {
                Ok(v) => Ok(v),
                Err(e) => Err(AccessError::Dram(e)),
            }
        } else {
            Err(AccessError::Bus(BusError::new(BusErrorType::AddressOutOfBounds)))
        }
    }

    pub fn write8(&mut self, address: u32, value: u8) -> (r: Result<(), AccessError>)
        requires
            old(self).wf(),
        ensures
            final(self).wf(),
            access_fault(address, 1) matches Some(e) ==> r == Err::<(), AccessError>(e)
                && final(self)@ == old(self)@,
            access_fault(address, 1) is None ==> r is Ok && final(self)@ == stored(
                old(self)@,
                local(address),
                seq![value],
            ),
    {
        if address >= DRAM_BASE {
            match self.dram.write8(address - DRAM_BASE, value) {
                Ok(()) => Ok(()),
                Err(e) => Err(AccessError::Dram(e)),
            }
        } else {
            Err(AccessError::Bus(BusError::new(BusErrorType::AddressOutOfBounds)))
        }
    }

    pub fn write16(&mut self, address: u32, value: u16) -> (r: Result<(), AccessError>)
        requires
            old(self).wf(),
        ensures
            final(self).wf(),
            access_fault(address, 2) matches Some(e) ==> r == Err::<(), AccessError>(e)
                && final(self)@ == old(self)@,
            access_fault(address, 2) is None ==> r is Ok && final(self)@ == stored(
                old(self)@,
                local(address),
                be16_bytes(value),
            ),
    {
        if address >= DRAM_BASE {
            match self.dram.write16(address - DRAM_BASE, value) {
                Ok(()) => Ok(()),
                Err(e) => Err(AccessError::Dram(e)),
            }
        } else {
            Err(AccessError::Bus(BusError::new(BusErrorType::AddressOutOfBounds)))
        }
    }

    pub fn write32(&mut self, address: u32, value: u32) -> (r: Result<(), AccessError>)
        requires
            old(self).wf(),
        ensures
            final(self).wf(),
            access_fault(address, 4) matches Some(e) ==> r == Err::<(), AccessError>(e)
                && final(self)@ == old(self)@,
            access_fault(address, 4) is None ==> r is Ok && final(self)@ == stored(
                old(self)@,
                local(address),
                be32_bytes(value),
            ),
    {
        if address >= DRAM_BASE {
            match self.dram.write32(address - DRAM_BASE, value) {
                Ok(()) => Ok(()),
                Err(e) => Err(AccessError::Dram(e)),
            }
        } else {
            Err(AccessError::Bus(BusError::new(BusErrorType::AddressOutOfBounds)))
        }
    }
}

} // verus!
