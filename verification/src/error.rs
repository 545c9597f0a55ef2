use vstd::prelude::*;

verus! {

/// Failure kinds produced while decoding an instruction word.
#[derive(Debug, Clone, PartialEq, Eq)]
pub enum InstructionError {
    /// The 16-bit opcode field does not select any known instruction.
    InvalidOpCode(u16),
    Unimplemented,
    Other(String),
    Unspecified,
}

/// Failure kinds produced by the assembler front end.
#[derive(Debug, Clone, PartialEq, Eq)]
pub enum AssemblerError {
    /// The source file could not be read; carries the I/O failure rendered as text.
    IOError(String),
    UnknownToken { location: String, line: u32, token: String },
    SyntaxError { location: String, line: u32, message: String },
    Unimplemented,
    Other(String),
    Unspecified,
}

/// Failure kinds produced by a storage device or by the memory management unit.
#[derive(Debug, Clone, Copy, PartialEq, Eq, Structural)]
pub enum MemoryError {
    /// The address lies in the null segment, which no access may touch.
    NullAddress(u64),
    /// The address does not map to any byte of the backing device.
    InvalidAddress(u64),
    /// The address lies in a reserved segment.
    ReservedAddress(u64),
    /// The address lies in a read-only segment and the access was a write.
    WriteToReadOnlyAddress(u64),
    /// Address arithmetic of a multi-byte access ran past the top of the
    /// 64-bit address space.
    MemoryOverflow,
    Unspecified,
}

/// Failure kinds surfaced by the CPU; wraps decode and memory failures.
#[derive(Debug, Clone, PartialEq, Eq)]
pub enum CpuError {
    InstructionError(InstructionError),
    MemoryError(MemoryError),
    InvalidOpCode(u16),
    /// A register field selects neither a general-purpose index nor one of
    /// the three special constant registers.
    InvalidRegister(u8),
    /// A write named one of the three read-only constant registers.
    WriteToSpecialRegister(u8),
    ProgramCounterOverflow,
    StackOverflow,
    StackUnderflow,
    Unimplemented,
    Other(String),
    Unspecified,
}

/// Top-level failure kind: any error the emulation session can surface.
#[derive(Debug, Clone, PartialEq, Eq)]
pub enum Error {
    AssemblerError(AssemblerError),
    CpuError(CpuError),
    MemoryError(MemoryError),
}

} // verus!
