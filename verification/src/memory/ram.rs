use vstd::prelude::*;

use crate::error::MemoryError;
use crate::memory::{MemoryRead, MemoryWrite};

verus! {

/// Mutable storage: a byte sequence whose size is fixed at construction
/// and whose contents can be zero-filled on demand.
#[derive(Debug)]
pub struct RAM {
    pub bytes: Vec<u8>,
}

impl View for RAM {
    type V = Seq<u8>;

    open spec fn view(&self) -> Seq<u8> {
        self.bytes@
    }
}

impl RAM {
    /// Take ownership of the device's initial contents.
    pub fn new(bytes: Vec<u8>) -> (r: RAM)
        ensures
            r@ == bytes@,
    {
        RAM { bytes }
    }

    /// Clear every byte to zero; the size is unchanged.
    pub fn zero(&mut self)
        ensures
            final(self)@.len() == old(self)@.len(),
            forall|i: int| 0 <= i < final(self)@.len() ==> final(self)@[i] == 0,
    {
        let count = self.bytes.len();
        let mut index: usize = 0;
        while index < count
            invariant
                index <= count,
                self.bytes@.len() == count,
                forall|i: int| 0 <= i < index ==> self.bytes@[i] == 0,
            decreases count - index,
        {
            self.bytes[index] = 0;
            index = index + 1;
        }
    }
}

impl MemoryRead for RAM {
    open spec fn read_spec(&self, address: u64) -> Result<u8, MemoryError> {
        if address < self@.len() {
            Ok(self@[address as int])
        } else {
            Err(MemoryError::InvalidAddress(address))
        }
    }

    fn read_u8(&self, address: u64) -> (r: Result<u8, MemoryError>) {
        if address < self.bytes.len() as u64 {
            Ok(self.bytes[address as usize])
        } else {
            Err(MemoryError::InvalidAddress(address))
        }
    }
}

impl MemoryWrite for RAM {
    open spec fn write_result_spec(&self, address: u64) -> Result<(), MemoryError> {
        if address < self@.len() {
            Ok(())
        } else {
            Err(MemoryError::InvalidAddress(address))
        }
    }

    fn write_u8(&mut self, address: u64, value: u8) -> (r: Result<(), MemoryError>) {
        if address < self.bytes.len() as u64 {
            self.bytes[address as usize] = value;
            Ok(())
        } else {
            Err(MemoryError::InvalidAddress(address))
        }
    }
}

} // verus!
