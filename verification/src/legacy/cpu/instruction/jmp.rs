use vstd::prelude::*;

use crate::legacy::cpu::instruction::Instruction;
use crate::legacy::cpu::{fetch_next, fetch_result, CPU};
use crate::legacy::error::CpuError;
use crate::legacy::memory::MemoryIO;

verus! {

pub const OPCODE_ABSOLUTE: u8 = 0x4C;

pub const OPCODE_INDIRECT: u8 = 0x6C;

/// A jump: point the program counter at the 16-bit target that follows
/// the opcode byte.
#[derive(Debug, Clone, Copy, PartialEq, Eq, Structural)]
pub enum JMP {
    Absolute(u16),
    Indirect(u16),
}

impl JMP {
    /// The jump's target address.
    pub open spec fn target_spec(&self) -> u16 {
        match self {
            JMP::Absolute(address) => *address,
            JMP::Indirect(address) => *address,
        }
    }
}

impl Instruction for JMP {
    open spec fn cycles_spec(&self) -> u32 {
        match self {
            JMP::Absolute(address) => 3,
            JMP::Indirect(address) => 5,
        }
    }

    open spec fn opcode_spec(&self) -> u8 {
        match self {
            JMP::Absolute(address) => OPCODE_ABSOLUTE,
            JMP::Indirect(address) => OPCODE_INDIRECT,
        }
    }

    fn cycles(&self) -> (r: u32) {
        match self {
            JMP::Absolute(address) => 3,
            JMP::Indirect(address) => 5,
        }
    }

    fn opcode(&self) -> (r: u8) {
        match self {
            JMP::Absolute(address) => OPCODE_ABSOLUTE,
            JMP::Indirect(address) => OPCODE_INDIRECT,
        }
    }
}

impl JMP {
    /// Decode a jump: fetch the little-endian target, low byte first.
    pub fn decode<M: MemoryIO>(cpu: &mut CPU, memory: &M, opcode: u8) -> (r: Result<JMP, CpuError>)
        ensures
            ({
                if opcode != OPCODE_ABSOLUTE && opcode != OPCODE_INDIRECT {
                    r == Err::<JMP, CpuError>(CpuError::InvalidOpCode(opcode)) && *final(cpu)
                        == *old(cpu)
                } else {
                    match fetch_result(*old(cpu), *memory) {
                        Err(e) => r == Err::<JMP, CpuError>(e) && *final(cpu) == *old(cpu),
                        Ok(lo) => {
                            let mid = fetch_next(*old(cpu), *memory);
                            match fetch_result(mid, *memory) {
                                Err(e) => r == Err::<JMP, CpuError>(e) && *final(cpu) == mid,
                                Ok(hi) => *final(cpu) == fetch_next(mid, *memory) && (if opcode
                                    == OPCODE_ABSOLUTE {
                                    r == Ok::<JMP, CpuError>(JMP::Absolute((lo + 256 * hi) as u16))
                                } else {
                                    r == Ok::<JMP, CpuError>(JMP::Indirect((lo + 256 * hi) as u16))
                                }),
                            }
                        },
                    }
                }
            }),
    {
        if opcode == OPCODE_ABSOLUTE || opcode == OPCODE_INDIRECT {
            let lo = match cpu.fetch(memory) {
                Err(e) => {
                    return Err(e);
                },
                Ok(byte) => byte,
            };
            let hi = match cpu.fetch(memory) {
                Err(e) => {
                    return Err(e);
                },
                Ok(byte) => byte,
            };
            let target = (lo as u16) + 256 * (hi as u16);
            if opcode == OPCODE_ABSOLUTE {
                Ok(JMP::Absolute(target))
            } else {
                Ok(JMP::Indirect(target))
            }
        } else {
            Err(CpuError::InvalidOpCode(opcode))
        }
    }

    /// Run the jump: the program counter moves to the target.
    pub fn execute<M: MemoryIO>(&self, cpu: &mut CPU, memory: &mut M) -> (r: Result<(), CpuError>)
        ensures
            r is Ok,
            *final(memory) == *old(memory),
            *final(cpu) == (CPU { program_counter: self.target_spec(), ..*old(cpu) }),
    {
        match self {
            JMP::Absolute(address) => {
                cpu.program_counter = *address;
            },
            JMP::Indirect(address) => {
                cpu.program_counter = *address;
            },
        }
        Ok(())
    }
}

} // verus!
