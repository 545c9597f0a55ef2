use vstd::prelude::*;

use crate::legacy::error::MemoryError;

verus! {

pub const SIZE_1KB: usize = 1024;

pub const SIZE_64KB: usize = 64 * SIZE_1KB;

/// A byte-addressable device over a 16-bit address space whose tail,
/// from a fixed boundary upward, is read-only.
pub trait MemoryIO {
    /// Every byte the device holds, in address order.
    spec fn mem_spec(&self) -> Seq<u8>;

    /// The first read-only address: writes at or above it are refused.
    spec fn read_only_begin_spec(&self) -> u16;

    /// Read the byte at `address`.
    fn read(&self, address: u16) -> (r: Result<&u8, MemoryError>)
        ensures
            match r {
                Ok(byte) => address < self.mem_spec().len()
                    && *byte == self.mem_spec()[address as int],
                Err(e) => address >= self.mem_spec().len() && e == MemoryError::InvalidAddress(
                    address,
                ),
            },
    ;

    /// Write one byte at `address`; the read-only tail refuses it.  A
    /// refused write leaves the device unchanged.
    fn write(&mut self, address: u16, value: u8) -> (r: Result<(), MemoryError>)
        ensures
            final(self).read_only_begin_spec() == old(self).read_only_begin_spec(),
            match r {
                Ok(done) => address < old(self).mem_spec().len() && address < old(
                    self,
                ).read_only_begin_spec() && final(self).mem_spec() == old(self).mem_spec().update(
                    address as int,
                    value,
                ),
                Err(e) => final(self).mem_spec() == old(self).mem_spec() && (if address >= old(
                    self,
                ).mem_spec().len() {
                    e == MemoryError::InvalidAddress(address)
                } else {
                    address >= old(self).read_only_begin_spec() && e
                        == MemoryError::WriteToRomAddress(address)
                }),
            },
    ;

    /// Clear every writable byte to zero; the read-only tail is untouched.
    fn zero(&mut self)
        ensures
            final(self).read_only_begin_spec() == old(self).read_only_begin_spec(),
            final(self).mem_spec().len() == old(self).mem_spec().len(),
            forall|i: int|
                0 <= i < old(self).mem_spec().len() ==> #[trigger] final(self).mem_spec()[i] == (
                if i < old(self).read_only_begin_spec() {
                    0u8
                } else {
                    old(self).mem_spec()[i]
                }),
    ;
}

/// One flat memory array with a read-only tail: the writable prefix is
/// the RAM and everything from `read_only_begin` upward is the ROM.
#[derive(Debug)]
pub struct Memory<const MAX_MEMORY: usize> {
    pub bytes: [u8; MAX_MEMORY],
    pub read_only_begin: u16,
}

impl<const MAX_MEMORY: usize> Memory<MAX_MEMORY> {
    /// Fix the device's contents and its read-only boundary.
    pub fn new(bytes: [u8; MAX_MEMORY], read_only_begin: u16) -> (r: Memory<MAX_MEMORY>)
        ensures
            r.bytes@ == bytes@,
            r.read_only_begin == read_only_begin,
    {
        Memory { bytes, read_only_begin }
    }
}

impl<const MAX_MEMORY: usize> MemoryIO for Memory<MAX_MEMORY> {
    open spec fn mem_spec(&self) -> Seq<u8> {
        self.bytes@
    }

    open spec fn read_only_begin_spec(&self) -> u16 {
        self.read_only_begin
    }

    fn read(&self, address: u16) -> (r: Result<&u8, MemoryError>) {
        if (address as usize) < MAX_MEMORY {
            Ok(vstd::array::array_index_get(&self.bytes, address as usize))
        } else {
            Err(MemoryError::InvalidAddress(address))
        }
    }

    fn write(&mut self, address: u16, value: u8) -> (r: Result<(), MemoryError>) {
        if (address as usize) < MAX_MEMORY {
            if address < self.read_only_begin {
                self.bytes[address as usize] = value;
                Ok(())
            } else {
                Err(MemoryError::WriteToRomAddress(address))
            }
        } else {
            Err(MemoryError::InvalidAddress(address))
        }
    }

    fn zero(&mut self) {
        let end: usize = if (self.read_only_begin as usize) <= MAX_MEMORY {
            self.read_only_begin as usize
        } else {
            MAX_MEMORY
        };
        let mut index: usize = 0;
        while index < end
            invariant
                index <= end,
                end <= MAX_MEMORY,
                end <= self.read_only_begin,
                self.read_only_begin == old(self).read_only_begin,
                self.bytes@.len() == MAX_MEMORY,
                (end as int) == (if self.read_only_begin <= MAX_MEMORY {
                    self.read_only_begin as int
                } else {
                    MAX_MEMORY as int
                }),
                forall|i: int| 0 <= i < index ==> #[trigger] self.bytes@[i] == 0,
                forall|i: int|
                    index <= i < MAX_MEMORY ==> #[trigger] self.bytes@[i] == old(self).bytes@[i],
            decreases end - index,
        {
            self.bytes[index] = 0;
            index = index + 1;
        }
    }
}

impl<const MAX_MEMORY: usize> Default for Memory<MAX_MEMORY> {
    /// A device of zeroes whose read-only tail starts at the reset-vector
    /// location.
    fn default() -> (r: Memory<MAX_MEMORY>)
        ensures
            r.bytes@.len() == MAX_MEMORY,
            forall|i: int| 0 <= i < MAX_MEMORY ==> r.bytes@[i] == 0,
            r.read_only_begin == 0xFFFC,
    {
        Memory { bytes: [0u8; MAX_MEMORY], read_only_begin: 0xFFFC }
    }
}

} // verus!
