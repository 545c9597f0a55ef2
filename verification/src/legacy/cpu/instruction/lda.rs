use vstd::prelude::*;

use crate::legacy::cpu::instruction::Instruction;
use crate::legacy::cpu::{fetch_next, fetch_result, CPU};
use crate::legacy::error::CpuError;
use crate::legacy::memory::MemoryIO;

verus! {

pub const OPCODE_IMMEDIATE: u8 = 0xA9;

pub const OPCODE_ZERO_PAGE: u8 = 0xA5;

pub const OPCODE_ZERO_PAGE_X: u8 = 0xB5;

pub const OPCODE_ABSOLUTE: u8 = 0xAD;

pub const OPCODE_ABSOLUTE_X: u8 = 0xBD;

pub const OPCODE_ABSOLUTE_Y: u8 = 0xB9;

pub const OPCODE_INDIRECT_X: u8 = 0xA1;

pub const OPCODE_INDIRECT_Y: u8 = 0xB1;

/// Load the accumulator.  Only the immediate addressing mode is decoded
/// and runnable so far; the other modes are declared with their cycle
/// costs and opcodes, and running one reports `Unspecified`.
#[derive(Debug, Clone, Copy, PartialEq, Eq, Structural)]
pub enum LDA {
    Immediate(u8),
    ZeroPage(u8),
    ZeroPageX(u8),
    Absolute(u16),
    AbsoluteX(u16),
    AbsoluteY(u16),
    IndirectX(u8),
    IndirectY(u8),
}

impl Instruction for LDA {
    open spec fn cycles_spec(&self) -> u32 {
        match self {
            LDA::Immediate(value) => 2,
            LDA::ZeroPage(address) => 3,
            LDA::ZeroPageX(address) => 4,
            LDA::Absolute(address) => 4,
            LDA::AbsoluteX(address) => 4,
            LDA::AbsoluteY(address) => 4,
            LDA::IndirectX(address) => 6,
            LDA::IndirectY(address) => 5,
        }
    }

    open spec fn opcode_spec(&self) -> u8 {
        match self {
            LDA::Immediate(value) => OPCODE_IMMEDIATE,
            LDA::ZeroPage(address) => OPCODE_ZERO_PAGE,
            LDA::ZeroPageX(address) => OPCODE_ZERO_PAGE_X,
            LDA::Absolute(address) => OPCODE_ABSOLUTE,
            LDA::AbsoluteX(address) => OPCODE_ABSOLUTE_X,
            LDA::AbsoluteY(address) => OPCODE_ABSOLUTE_Y,
            LDA::IndirectX(address) => OPCODE_INDIRECT_X,
            LDA::IndirectY(address) => OPCODE_INDIRECT_Y,
        }
    }

    fn cycles(&self) -> (r: u32) {
        match self {
            LDA::Immediate(value) => 2,
            LDA::ZeroPage(address) => 3,
            LDA::ZeroPageX(address) => 4,
            LDA::Absolute(address) => 4,
            LDA::AbsoluteX(address) => 4,
            LDA::AbsoluteY(address) => 4,
            LDA::IndirectX(address) => 6,
            LDA::IndirectY(address) => 5,
        }
    }

    fn opcode(&self) -> (r: u8) {
        match self {
            LDA::Immediate(value) => OPCODE_IMMEDIATE,
            LDA::ZeroPage(address) => OPCODE_ZERO_PAGE,
            LDA::ZeroPageX(address) => OPCODE_ZERO_PAGE_X,
            LDA::Absolute(address) => OPCODE_ABSOLUTE,
            LDA::AbsoluteX(address) => OPCODE_ABSOLUTE_X,
            LDA::AbsoluteY(address) => OPCODE_ABSOLUTE_Y,
            LDA::IndirectX(address) => OPCODE_INDIRECT_X,
            LDA::IndirectY(address) => OPCODE_INDIRECT_Y,
        }
    }
}

impl LDA {
    /// Decode a load: only the immediate mode is recognised, and it
    /// fetches its operand byte.
    pub fn decode<M: MemoryIO>(cpu: &mut CPU, memory: &M, opcode: u8) -> (r: Result<LDA, CpuError>)
        ensures
            ({
                if opcode != OPCODE_IMMEDIATE {
                    r == Err::<LDA, CpuError>(CpuError::InvalidOpCode(opcode)) && *final(cpu)
                        == *old(cpu)
                } else {
                    match fetch_result(*old(cpu), *memory) {
                        Err(e) => r == Err::<LDA, CpuError>(e) && *final(cpu) == *old(cpu),
                        Ok(operand) => r == Ok::<LDA, CpuError>(LDA::Immediate(operand))
                            && *final(cpu) == fetch_next(*old(cpu), *memory),
                    }
                }
            }),
    {
        if opcode == OPCODE_IMMEDIATE {
            match cpu.fetch(memory) {
                Err(e) => Err(e),
                Ok(operand) => Ok(LDA::Immediate(operand)),
            }
        } else {
            Err(CpuError::InvalidOpCode(opcode))
        }
    }

    /// Run the load: the immediate value moves into the accumulator; the
    /// other addressing modes are not specified yet and change nothing.
    pub fn execute<M: MemoryIO>(&self, cpu: &mut CPU, memory: &mut M) -> (r: Result<(), CpuError>)
        ensures
            *final(memory) == *old(memory),
            ({
                match *self {
                    LDA::Immediate(value) => r is Ok && *final(cpu) == (CPU {
                        accumulator: value,
                        ..*old(cpu)
                    }),
                    _ => r == Err::<(), CpuError>(CpuError::Unspecified) && *final(cpu) == *old(
                        cpu,
                    ),
                }
            }),
    {
        match self {
            LDA::Immediate(value) => {
                cpu.accumulator = *value;
                Ok(())
            },
            LDA::ZeroPage(address) => Err(CpuError::Unspecified),
            LDA::ZeroPageX(address) => Err(CpuError::Unspecified),
            LDA::Absolute(address) => Err(CpuError::Unspecified),
            LDA::AbsoluteX(address) => Err(CpuError::Unspecified),
            LDA::AbsoluteY(address) => Err(CpuError::Unspecified),
            LDA::IndirectX(address) => Err(CpuError::Unspecified),
            LDA::IndirectY(address) => Err(CpuError::Unspecified),
        }
    }
}

} // verus!
