use vstd::prelude::*;

use crate::error::MemoryError;
use crate::memory::MemoryRead;

verus! {

/// Read-only storage: an immutable byte sequence fixed at construction,
/// holding the assembled program image.
#[derive(Debug)]
pub struct ROM {
    pub bytes: Vec<u8>,
}

impl View for ROM {
    type V = Seq<u8>;

    open spec fn view(&self) -> Seq<u8> {
        self.bytes@
    }
}

impl ROM {
    /// Fix the device's contents once and for all.
    pub fn new(bytes: Vec<u8>) -> (r: ROM)
        ensures
            r@ == bytes@,
    {
        ROM { bytes }
    }

    /// The whole image, for inspection.
    pub fn bytes(&self) -> (r: &[u8])
        ensures
            r@ == self@,
    {
        self.bytes.as_slice()
    }
}

impl MemoryRead for ROM {
    open spec fn read_spec(&self, address: u64) -> Result<u8, MemoryError> {
        if address < self@.len() {
            Ok(self@[address as int])
        } else {
            Err(MemoryError::InvalidAddress(address))
        }
    }

    fn read_u8(&self, address: u64) -> (r: Result<u8, MemoryError>) {
        if address < self.bytes.len() as u64 {
            Ok(self.bytes[address as usize])
        } else {
            Err(MemoryError::InvalidAddress(address))
        }
    }
}

} // verus!
