use vstd::prelude::*;

use crate::processor::ProcessorErrorTrait;

verus! {

/// Capacity of the backing store in bytes (1 MiB).
pub const DRAM_SIZE: u32 = 1024 * 1024;

#[derive(Debug, Clone, Copy, PartialEq, Eq, Structural)]
pub enum DramErrorType {
    AddressOutOfBounds,
}

/// An access whose byte range runs past the end of the backing store.
#[derive(Debug, Clone, Copy, PartialEq, Eq, Structural)]
pub struct DramError {
    pub error_type: DramErrorType,
}

impl DramError {
    pub fn new(error_type: DramErrorType) -> (r: Self)
        ensures
            r.error_type == error_type,
    {
        DramError { error_type }
    }
}

impl ProcessorErrorTrait for DramError {
    fn message(&self) -> &'static str {
        match self.error_type {
            DramErrorType::AddressOutOfBounds => "Address is Out Of Range.",
        }
    }
}

/// The error every out-of-range access reports.
pub open spec fn out_of_range() -> DramError {
    DramError { error_type: DramErrorType::AddressOutOfBounds }
}

/// Whether `width` bytes starting at `offset` lie inside the backing store.
pub open spec fn in_range(offset: int, width: int) -> bool {
    0 <= offset && offset + width <= DRAM_SIZE
}

/// Big-endian 16-bit value of the two bytes at `offset`.
pub open spec fn be16(m: Seq<u8>, offset: int) -> u16 {
    (m[offset] * 0x100 + m[offset + 1]) as u16
}

/// Big-endian 32-bit value of the four bytes at `offset`.
pub open spec fn be32(m: Seq<u8>, offset: int) -> u32 {
    (m[offset] * 0x100_0000 + m[offset + 1] * 0x1_0000 + m[offset + 2] * 0x100 + m[offset
        + 3]) as u32
}

/// The two bytes of `v`, most significant first.
pub open spec fn be16_bytes(v: u16) -> Seq<u8> {
    seq![(v / 0x100) as u8, (v % 0x100) as u8]
}

/// The four bytes of `v`, most significant first.
pub open spec fn be32_bytes(v: u32) -> Seq<u8> {
    seq![
        (v / 0x100_0000) as u8,
        ((v / 0x1_0000) % 0x100) as u8,
        ((v / 0x100) % 0x100) as u8,
        (v % 0x100) as u8,
    ]
}

/// `m` with `bytes` stored from `offset` on.
pub open spec fn stored(m: Seq<u8>, offset: int, bytes: Seq<u8>) -> Seq<u8> {
    Seq::new(
        m.len(),
        |i: int|
            if offset <= i < offset + bytes.len() {
                bytes[i - offset]
            } else {
                m[i]
            },
    )
}

/// Fixed-size, zero-initialised, byte-addressable memory. Multi-byte values are big-endian.
#[derive(Debug, Clone)]
pub struct Dram {
    dram: Vec<u8>,
}

impl View for Dram {
    type V = Seq<u8>;

    closed spec fn view(&self) -> Seq<u8> {
        self.dram@
    }
}

impl Dram {
    pub open spec fn wf(&self) -> bool {
        self@.len() == DRAM_SIZE
    }

    pub fn new() -> (r: Self)
        ensures
            r.wf(),
            forall|i: int| 0 <= i < DRAM_SIZE ==> #[trigger] r@[i] == 0,
    {
        Dram { dram: vec![0u8; DRAM_SIZE as usize] }
    }

    /// Copies `data` into memory starting at `start_address`.
    pub fn load8(&mut self, start_address: u32, data: Vec<u8>) -> (r: Result<(), DramError>)
        requires
            old(self).wf(),
        ensures
            final(self).wf(),
            in_range(start_address as int, data@.len() as int) ==> r is Ok && final(self)@
                == stored(old(self)@, start_address as int, data@),
            !in_range(start_address as int, data@.len() as int) ==> r == Err::<(), DramError>(
                out_of_range(),
            ) && final(self)@ == old(self)@,
    {
        if data.len() > DRAM_SIZE as usize || start_address > DRAM_SIZE - data.len() as u32 {
            return Err(DramError::new(DramErrorType::AddressOutOfBounds));
        }
        let ghost before = self@;
        let mut count: usize = 0;
        while count < data.len()
            invariant
                self.wf(),
                before.len() == DRAM_SIZE,
                count <= data@.len(),
                start_address + data@.len() <= DRAM_SIZE,
                self@ == stored(before, start_address as int, data@.subrange(0, count as int)),
            decreases data@.len() - count,
        {
            self.dram.set(start_address as usize + count, data[count]);
            count = count + 1;
            assert(self@ =~= stored(before, start_address as int, data@.subrange(0, count as int)));
        }
        assert(data@.subrange(0, data@.len() as int) =~= data@);
        Ok(())
    }

    pub fn read8(&self, address: u32) -> (r: Result<u8, DramError>)
        requires
            self.wf(),
        ensures
            in_range(address as int, 1) ==> r == Ok::<u8, DramError>(self@[address as int]),
            !in_range(address as int, 1) ==> r == Err::<u8, DramError>(out_of_range()),
    {
        if address < DRAM_SIZE {
            Ok(self.dram[address as usize])
        } else {
            Err(DramError::new(DramErrorType::AddressOutOfBounds))
        }
    }

    pub fn read16(&self, address: u32) -> (r: Result<u16, DramError>)
        requires
            self.wf(),
        ensures
            in_range(address as int, 2) ==> r == Ok::<u16, DramError>(be16(self@, address as int)),
            !in_range(address as int, 2) ==> r == Err::<u16, DramError>(out_of_range()),
    {
        if address < DRAM_SIZE - 1 {
            let a = address as usize;
            Ok((self.dram[a] as u16) * 0x100 + (self.dram[a + 1] as u16))
        } else {
            Err(DramError::new(DramErrorType::AddressOutOfBounds))
        }
    }

    pub fn read32(&self, address: u32) -> (r: Result<u32, DramError>)
        requires
            self.wf(),
        ensures
            in_range(address as int, 4) ==> r == Ok::<u32, DramError>(be32(self@, address as int)),
            !in_range(address as int, 4) ==> r == Err::<u32, DramError>(out_of_range()),
    {
        if address < DRAM_SIZE - 3 {
            let a = address as usize;
            Ok((self.dram[a] as u32) * 0x100_0000 + (self.dram[a + 1] as u32) * 0x1_0000 + (
            self.dram[a + 2] as u32) * 0x100 + (self.dram[a + 3] as u32))
        } else {
            Err(DramError::new(DramErrorType::AddressOutOfBounds))
        }
    }

    pub fn write8(&mut self, address: u32, value: u8) -> (r: Result<(), DramError>)
        requires
            old(self).wf(),
        ensures
            final(self).wf(),
            in_range(address as int, 1) ==> r is Ok && final(self)@ == stored(
                old(self)@,
                address as int,
                seq![value],
            ),
            !in_range(address as int, 1) ==> r == Err::<(), DramError>(out_of_range())
                && final(self)@ == old(self)@,
    {
        if address < DRAM_SIZE {
            self.dram.set(address as usize, value);
            assert(self@ =~= stored(old(self)@, address as int, seq![value]));
            Ok(())
        } else {
            Err(DramError::new(DramErrorType::AddressOutOfBounds))
        }
    }

    pub fn write16(&mut self, address: u32, value: u16) -> (r: Result<(), DramError>)
        requires
            old(self).wf(),
        ensures
            final(self).wf(),
            in_range(address as int, 2) ==> r is Ok && final(self)@ == stored(
                old(self)@,
                address as int,
                be16_bytes(value),
            ),
            !in_range(address as int, 2) ==> r == Err::<(), DramError>(out_of_range())
                && final(self)@ == old(self)@,
    {
        if address < DRAM_SIZE - 1 {
            let a = address as usize;
            self.dram.set(a, (value / 0x100) as u8);
            self.dram.set(a + 1, (value % 0x100) as u8);
            assert(self@ =~= stored(old(self)@, address as int, be16_bytes(value)));
            Ok(())
        } else {
            Err(DramError::new(DramErrorType::AddressOutOfBounds))
        }
    }

    pub fn write32(&mut self, address: u32, value: u32) -> (r: Result<(), DramError>)
        requires
            old(self).wf(),
        ensures
            final(self).wf(),
            in_range(address as int, 4) ==> r is Ok && final(self)@ == stored(
                old(self)@,
                address as int,
                be32_bytes(value),
            ),
            !in_range(address as int, 4) ==> r == Err::<(), DramError>(out_of_range())
                && final(self)@ == old(self)@,
    {
        if address < DRAM_SIZE - 3 {
            let a = address as usize;
            self.dram.set(a, (value / 0x100_0000) as u8);
            self.dram.set(a + 1, ((value / 0x1_0000) % 0x100) as u8);
            self.dram.set(a + 2, ((value / 0x100) % 0x100) as u8);
            self.dram.set(a + 3, (value % 0x100) as u8);
            assert(self@ =~= stored(old(self)@, address as int, be32_bytes(value)));
            Ok(())
        } else {
            Err(DramError::new(DramErrorType::AddressOutOfBounds))
        }
    }
}

/// Reading back a byte just written yields it; bytes elsewhere are untouched.
pub proof fn lemma_round_trip8(m: Seq<u8>, offset: int, value: u8)
    requires
        m.len() == DRAM_SIZE,
        in_range(offset, 1),
    ensures
        stored(m, offset, seq![value])[offset] == value,
        forall|i: int|
            0 <= i < m.len() && i != offset ==> #[trigger] stored(m, offset, seq![value])[i] == m[i],
{
}

/// Reading back a 16-bit value just written yields it; bytes elsewhere are untouched.
pub proof fn lemma_round_trip16(m: Seq<u8>, offset: int, value: u16)
    requires
        m.len() == DRAM_SIZE,
        in_range(offset, 2),
    ensures
        be16(stored(m, offset, be16_bytes(value)), offset) == value,
        forall|i: int|
            0 <= i < m.len() && !(offset <= i < offset + 2) ==> #[trigger] stored(
                m,
                offset,
                be16_bytes(value),
            )[i] == m[i],
{
    let s = stored(m, offset, be16_bytes(value));
    assert(s[offset] == (value / 0x100) as u8);
    assert(s[offset + 1] == (value % 0x100) as u8);
    assert(((value / 0x100) as u8) * 0x100 + ((value % 0x100) as u8) == value) by (bit_vector);
}

/// Reading back a 32-bit value just written yields it; bytes elsewhere are untouched.
pub proof fn lemma_round_trip32(m: Seq<u8>, offset: int, value: u32)
    requires
        m.len() == DRAM_SIZE,
        in_range(offset, 4),
    ensures
        be32(stored(m, offset, be32_bytes(value)), offset) == value,
        forall|i: int|
            0 <= i < m.len() && !(offset <= i < offset + 4) ==> #[trigger] stored(
                m,
                offset,
                be32_bytes(value),
            )[i] == m[i],
{
    let s = stored(m, offset, be32_bytes(value));
    assert(s[offset] == (value / 0x100_0000) as u8);
    assert(s[offset + 1] == ((value / 0x1_0000) % 0x100) as u8);
    assert(s[offset + 2] == ((value / 0x100) % 0x100) as u8);
    assert(s[offset + 3] == (value % 0x100) as u8);
    assert(((value / 0x100_0000) as u8) * 0x100_0000 + (((value / 0x1_0000) % 0x100) as u8)
        * 0x1_0000 + (((value / 0x100) % 0x100) as u8) * 0x100 + ((value % 0x100) as u8) == value)
        by (bit_vector);
}

} // verus!
