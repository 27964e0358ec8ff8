//! The sandbox's linear memory, as the host sees it: a flat byte array
//! addressed by 32-bit offsets, with bounds-checked reads and writes.
//!
//! Every crossing of the sandbox boundary goes through this type; an
//! out-of-bounds access is reported to the caller, never performed.

use vstd::prelude::*;
use vstd::bytes::{spec_u32_to_le_bytes, u32_to_le_bytes};

verus! {

/// Witness that a guest memory access fell outside the memory's bounds.
#[derive(Clone, Copy, PartialEq, Eq, Structural, Debug)]
pub struct OutOfBounds;

/// The contents of a memory after `data` is laid over it at `address`,
/// leaving every byte outside that region unchanged.
pub open spec fn write_region_spec(mem: Seq<u8>, address: u32, data: Seq<u8>) -> Seq<u8>
    recommends
        address + data.len() <= mem.len(),
{
    mem.take(address as int) + data + mem.skip(address + data.len())
}

/// A linear memory belonging to the sandboxed program.  The host owns it
/// exclusively and touches it only while dispatching host calls.
pub struct LinearMemory {
    bytes: Vec<u8>,
}

impl View for LinearMemory {
    type V = Seq<u8>;

    closed spec fn view(&self) -> Seq<u8> {
        self.bytes@
    }
}

impl LinearMemory {
    /// Builds a memory from its initial contents.
    pub fn from_contents(bytes: Vec<u8>) -> (mem: LinearMemory)
        ensures
            mem@ == bytes@,
    {
        LinearMemory { bytes }
    }

    /// The memory's size in bytes.
    pub fn size(&self) -> (n: usize)
        ensures
            n == self@.len(),
    {
        self.bytes.len()
    }

    /// Reads `length` bytes starting at `address`, or reports the access
    /// out of bounds without reading anything.
    pub fn read_region(&self, address: u32, length: u32) -> (r: Result<Vec<u8>, OutOfBounds>)
        ensures
            r is Ok <==> address + length <= self@.len(),
            r matches Ok(data) ==> data@ == self@.subrange(address as int, address + length),
    {
        let address_usize = address as usize;
        let length_usize = length as usize;
        if length_usize > self.bytes.len() || address_usize > self.bytes.len() - length_usize {
            return Err(OutOfBounds);
        }
        let mut data: Vec<u8> = Vec::new();
        let mut i: usize = 0;
        while i < length_usize
            invariant
                address_usize == address as usize,
                i <= length_usize,
                address_usize + length_usize <= self@.len(),
                address_usize + length_usize <= usize::MAX,
                data@ == self@.subrange(address as int, address + i),
            decreases length_usize - i,
        {
            data.push(self.bytes[address_usize + i]);
            i = i + 1;
            proof {
                assert(data@ =~= self@.subrange(address as int, address + i));
            }
        }
        Ok(data)
    }

    /// Writes `data` starting at `address`, or reports the access out of
    /// bounds without changing a byte.
    pub fn write_region(&mut self, address: u32, data: &Vec<u8>) -> (r: Result<(), OutOfBounds>)
        ensures
            r is Ok <==> address + data@.len() <= old(self)@.len(),
            r is Ok ==> final(self)@ == write_region_spec(old(self)@, address, data@),
            r is Err ==> final(self)@ == old(self)@,
            final(self)@.len() == old(self)@.len(),
    {
        let address_usize = address as usize;
        if data.len() > self.bytes.len() || address_usize > self.bytes.len() - data.len() {
            return Err(OutOfBounds);
        }
        let mut i: usize = 0;
        while i < data.len()
            invariant
                address_usize == address as usize,
                i <= data@.len(),
                address_usize + data@.len() <= old(self)@.len(),
                address_usize + data@.len() <= usize::MAX,
                self@.len() == old(self)@.len(),
                self@ == old(self)@.take(address as int) + data@.take(i as int) + old(
                    self,
                )@.skip(address + i),
            decreases data@.len() - i,
        {
            self.bytes[address_usize + i] = data[i];
            i = i + 1;
            proof {
                assert(self@ =~= old(self)@.take(address as int) + data@.take(i as int) + old(
                    self,
                )@.skip(address + i));
            }
        }
        proof {
            assert(data@.take(data@.len() as int) =~= data@);
        }
        Ok(())
    }

    /// Writes the little-endian encoding of `value` at `address`, or reports
    /// the access out of bounds without changing a byte.
    pub fn write_u32_le(&mut self, address: u32, value: u32) -> (r: Result<(), OutOfBounds>)
        ensures
            r is Ok <==> address + 4 <= old(self)@.len(),
            r is Ok ==> final(self)@ == write_region_spec(
                old(self)@,
                address,
                spec_u32_to_le_bytes(value),
            ),
            r is Err ==> final(self)@ == old(self)@,
            final(self)@.len() == old(self)@.len(),
    {
        let encoded = u32_to_le_bytes(value);
        self.write_region(address, &encoded)
    }
}

} // verus!
