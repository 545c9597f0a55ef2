use vstd::prelude::*;

use crate::error::MemoryError;
use crate::memory::ram::RAM;
use crate::memory::rom::ROM;
use crate::memory::{MemoryRead, MemoryWrite};

verus! {

/// A byte-addressable device that can serve both reads and writes.
pub trait Device: MemoryWrite + MemoryRead {

}

// Memory map: the 64-bit address space is partitioned into five disjoint,
// ascending, exhaustive segments.  A segment's own range is authoritative
// over the physical size of the device behind it.

pub const NULL_BEGIN: u64 = 0x0000_0000_0000_0000;

pub const NULL_END: u64 = 0x0000_0000_0000_000F;

pub const SYSTEM_BEGIN: u64 = 0x0000_0000_0000_0010;

pub const SYSTEM_END: u64 = 0x0000_0000_000F_FFFF;

pub const ROM_BEGIN: u64 = 0x0000_0000_0010_0000;

pub const ROM_END: u64 = 0x0000_0001_FFFF_FFFF;

pub const HARDWARE_BEGIN: u64 = 0x0000_0002_0000_0000;

pub const HARDWARE_END: u64 = 0x0000_0002_FFFF_FFFF;

pub const RAM_BEGIN: u64 = 0x0000_0003_0000_0000;

pub const RAM_END: u64 = 0xFFFF_FFFF_FFFF_FFFF;

/// A device-level bounds failure is remapped to carry the original global
/// address before it surfaces, so callers never observe device-local
/// offsets.  Every other failure passes through unchanged.
pub open spec fn remap_device_error<T>(r: Result<T, MemoryError>, address: u64) -> Result<
    T,
    MemoryError,
> {
    match r {
        Err(MemoryError::InvalidAddress(_)) => Err(MemoryError::InvalidAddress(address)),
        _ => r,
    }
}

/// The two units serve the same contents: equal read-only images and
/// equal mutable bytes.
pub open spec fn same_contents(a: MMU, b: MMU) -> bool {
    b.rom_bytes() == a.rom_bytes() && b.ram_bytes() == a.ram_bytes()
}

/// The memory management unit: routes each access of the 64-bit address
/// space to the ROM device, the RAM device, or a fault, by segment.
pub struct MMU {
    pub rom: ROM,
    pub ram: RAM,
}

impl MMU {
    /// The bytes of the read-only image, as mapped from `ROM_BEGIN` upward.
    pub open spec fn rom_bytes(&self) -> Seq<u8> {
        self.rom@
    }

    /// The bytes of the mutable device, as mapped from `RAM_BEGIN` upward.
    pub open spec fn ram_bytes(&self) -> Seq<u8> {
        self.ram@
    }

    /// Build a unit that serves `rom` read-only and a zero-filled mutable
    /// device of `ram_size` bytes.
    pub fn new(rom: ROM, ram_size: u64) -> (r: MMU)
        requires
            ram_size <= usize::MAX,
        ensures
            r.rom_bytes() == rom@,
            r.ram_bytes().len() == ram_size,
            forall|i: int| 0 <= i < ram_size ==> r.ram_bytes()[i] == 0,
    {
        let mut bytes: Vec<u8> = Vec::new();
        let mut index: u64 = 0;
        while index < ram_size
            invariant
                index <= ram_size <= usize::MAX,
                bytes@.len() == index,
                forall|i: int| 0 <= i < index ==> bytes@[i] == 0,
            decreases ram_size - index,
        {
            bytes.push(0);
            index = index + 1;
        }
        MMU { rom, ram: RAM::new(bytes) }
    }

    /// Clear every byte of the mutable device to zero; the read-only image
    /// is untouched.
    pub fn zero(&mut self)
        ensures
            final(self).rom_bytes() == old(self).rom_bytes(),
            final(self).ram_bytes().len() == old(self).ram_bytes().len(),
            forall|i: int| 0 <= i < final(self).ram_bytes().len() ==> final(self).ram_bytes()[i]
                == 0,
    {
        self.ram.zero();
    }
}

impl MemoryRead for MMU {
    open spec fn read_spec(&self, address: u64) -> Result<u8, MemoryError> {
        if address <= NULL_END {
            Err(MemoryError::NullAddress(address))
        } else if address <= SYSTEM_END {
            Err(MemoryError::ReservedAddress(address))
        } else if address <= ROM_END {
            remap_device_error(self.rom.read_spec((address - ROM_BEGIN) as u64), address)
        } else if address <= HARDWARE_END {
            Err(MemoryError::ReservedAddress(address))
        } else {
            remap_device_error(self.ram.read_spec((address - RAM_BEGIN) as u64), address)
        }
    }

    fn read_u8(&self, address: u64) -> (r: Result<u8, MemoryError>) {
        if address <= NULL_END {
            Err(MemoryError::NullAddress(address))
        } else if address <= SYSTEM_END {
            Err(MemoryError::ReservedAddress(address))
        } else if address <= ROM_END {
            match self.rom.read_u8(address - ROM_BEGIN) {
                Ok(byte) => Ok(byte),
                Err(e) => match e {
                    MemoryError::InvalidAddress(_) => Err(MemoryError::InvalidAddress(address)),
                    _ => Err(e),
                },
            }
        } else if address <= HARDWARE_END {
            Err(MemoryError::ReservedAddress(address))
        } else {
            match self.ram.read_u8(address - RAM_BEGIN) {
                Ok(byte) => Ok(byte),
                Err(e) => match e {
                    MemoryError::InvalidAddress(_) => Err(MemoryError::InvalidAddress(address)),
                    _ => Err(e),
                },
            }
        }
    }
}

impl MemoryWrite for MMU {
    open spec fn write_result_spec(&self, address: u64) -> Result<(), MemoryError> {
        if address <= NULL_END {
            Err(MemoryError::NullAddress(address))
        } else if address <= SYSTEM_END {
            Err(MemoryError::ReservedAddress(address))
        } else if address <= ROM_END {
            Err(MemoryError::WriteToReadOnlyAddress(address))
        } else if address <= HARDWARE_END {
            Err(MemoryError::ReservedAddress(address))
        } else {
            remap_device_error(self.ram.write_result_spec((address - RAM_BEGIN) as u64), address)
        }
    }

    fn write_u8(&mut self, address: u64, value: u8) -> (r: Result<(), MemoryError>) {
        if address <= NULL_END {
            Err(MemoryError::NullAddress(address))
        } else if address <= SYSTEM_END {
            Err(MemoryError::ReservedAddress(address))
        } else if address <= ROM_END {
            Err(MemoryError::WriteToReadOnlyAddress(address))
        } else if address <= HARDWARE_END {
            Err(MemoryError::ReservedAddress(address))
        } else {
            match self.ram.write_u8(address - RAM_BEGIN, value) {
                Ok(done) => Ok(done),
                Err(e) => match e {
                    MemoryError::InvalidAddress(_) => Err(MemoryError::InvalidAddress(address)),
                    _ => Err(e),
                },
            }
        }
    }
}

/// Segmentation, read side: reads in the null segment fail `NullAddress`,
/// reads in the two reserved segments fail `ReservedAddress`, and reads in
/// the storage-backed segments return the device byte at the address minus
/// the segment base, or `InvalidAddress` with the global address when the
/// offset lies past the device's end.
pub proof fn lemma_read_segmentation(memory: MMU, address: u64)
    ensures
        address <= NULL_END ==> memory.read_spec(address) == Err::<u8, MemoryError>(
            MemoryError::NullAddress(address),
        ),
        SYSTEM_BEGIN <= address <= SYSTEM_END ==> memory.read_spec(address) == Err::<
            u8,
            MemoryError,
        >(MemoryError::ReservedAddress(address)),
        ROM_BEGIN <= address <= ROM_END && address - ROM_BEGIN < memory.rom_bytes().len()
            ==> memory.read_spec(address) == Ok::<u8, MemoryError>(
            memory.rom_bytes()[address - ROM_BEGIN],
        ),
        ROM_BEGIN <= address <= ROM_END && address - ROM_BEGIN >= memory.rom_bytes().len()
            ==> memory.read_spec(address) == Err::<u8, MemoryError>(
            MemoryError::InvalidAddress(address),
        ),
        HARDWARE_BEGIN <= address <= HARDWARE_END ==> memory.read_spec(address) == Err::<
            u8,
            MemoryError,
        >(MemoryError::ReservedAddress(address)),
        RAM_BEGIN <= address && address - RAM_BEGIN < memory.ram_bytes().len()
            ==> memory.read_spec(address) == Ok::<u8, MemoryError>(
            memory.ram_bytes()[address - RAM_BEGIN],
        ),
        RAM_BEGIN <= address && address - RAM_BEGIN >= memory.ram_bytes().len()
            ==> memory.read_spec(address) == Err::<u8, MemoryError>(
            MemoryError::InvalidAddress(address),
        ),
{
}

/// Write protection: a write anywhere below the mutable segment is refused
/// with the failure of its segment, and refused writes leave the unit
/// unchanged, as `MemoryWrite` promises.
pub proof fn lemma_write_protection(memory: MMU, address: u64)
    ensures
        address <= NULL_END ==> memory.write_result_spec(address) == Err::<(), MemoryError>(
            MemoryError::NullAddress(address),
        ),
        SYSTEM_BEGIN <= address <= SYSTEM_END ==> memory.write_result_spec(address) == Err::<
            (),
            MemoryError,
        >(MemoryError::ReservedAddress(address)),
        ROM_BEGIN <= address <= ROM_END ==> memory.write_result_spec(address) == Err::<
            (),
            MemoryError,
        >(MemoryError::WriteToReadOnlyAddress(address)),
        HARDWARE_BEGIN <= address <= HARDWARE_END ==> memory.write_result_spec(address) == Err::<
            (),
            MemoryError,
        >(MemoryError::ReservedAddress(address)),
        RAM_BEGIN <= address && address - RAM_BEGIN < memory.ram_bytes().len()
            ==> memory.write_result_spec(address) == Ok::<(), MemoryError>(()),
        RAM_BEGIN <= address && address - RAM_BEGIN >= memory.ram_bytes().len()
            ==> memory.write_result_spec(address) == Err::<(), MemoryError>(
            MemoryError::InvalidAddress(address),
        ),
{
}

} // verus!
