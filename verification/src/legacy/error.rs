use vstd::prelude::*;

verus! {

/// Failure kinds of the flat memory device.
#[derive(Debug, Clone, Copy, PartialEq, Eq, Structural)]
pub enum MemoryError {
    /// The address does not map to any byte of the device.
    InvalidAddress(u16),
    /// The address lies in the read-only tail and the access was a write.
    WriteToRomAddress(u16),
    Unspecified,
}

/// Failure kinds surfaced by the CPU; wraps memory failures.
#[derive(Debug, Clone, Copy, PartialEq, Eq, Structural)]
pub enum CpuError {
    MemoryError(MemoryError),
    /// The byte selects no known instruction.
    InvalidOpCode(u8),
    ProgramCounterOverflow,
    Unspecified,
    Unimplemented,
}

} // verus!
