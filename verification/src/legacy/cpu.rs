use vstd::prelude::*;

use crate::cpu::status::{cleared_status, Status};
use crate::legacy::cpu::instruction::jmp::{self, JMP};
use crate::legacy::cpu::instruction::lda::{self, LDA};
use crate::legacy::cpu::instruction::nop::{self, NOP};
use crate::legacy::cpu::instruction::Instruction;
use crate::legacy::error::{CpuError, MemoryError};
use crate::legacy::memory::MemoryIO;

pub mod instruction;

verus! {

/// The CPU of the earlier generation: an 8-bit accumulator machine with
/// a 16-bit program counter.
#[derive(Debug)]
pub struct CPU {
    /// Where the program counter is pointed on reset.
    pub reset_vector: u16,
    pub program_counter: u16,
    pub stack_pointer: u8,
    pub accumulator: u8,
    pub x: u8,
    pub y: u8,
    pub status: Status,
}

/// The CPU after fetching one byte: the counter one past the byte it
/// consumed, or unchanged when the fetch fails.
pub open spec fn fetch_next<M: MemoryIO>(pre: CPU, memory: M) -> CPU {
    if pre.program_counter < memory.mem_spec().len() && pre.program_counter < u16::MAX {
        CPU { program_counter: (pre.program_counter + 1) as u16, ..pre }
    } else {
        pre
    }
}

/// What fetching one byte returns: the byte at the counter; a counter
/// past the device is `InvalidAddress`, and a counter that cannot advance
/// is `ProgramCounterOverflow`, never a silent wraparound.
pub open spec fn fetch_result<M: MemoryIO>(pre: CPU, memory: M) -> Result<u8, CpuError> {
    if pre.program_counter >= memory.mem_spec().len() {
        Err(CpuError::MemoryError(MemoryError::InvalidAddress(pre.program_counter)))
    } else if pre.program_counter == u16::MAX {
        Err(CpuError::ProgramCounterOverflow)
    } else {
        Ok(memory.mem_spec()[pre.program_counter as int])
    }
}

/// What one step reports: the cycle cost of the instruction at the
/// counter, or the first failure of fetching, decoding or executing it.
pub open spec fn step_result<M: MemoryIO>(pre: CPU, memory: M) -> Result<u32, CpuError> {
    let after_opcode = fetch_next(pre, memory);
    match fetch_result(pre, memory) {
        Err(e) => Err(e),
        Ok(opcode) => if opcode == lda::OPCODE_IMMEDIATE {
            match fetch_result(after_opcode, memory) {
                Err(e) => Err(e),
                Ok(operand) => Ok(2),
            }
        } else if opcode == nop::OPCODE {
            Ok(2)
        } else if opcode == jmp::OPCODE_ABSOLUTE || opcode == jmp::OPCODE_INDIRECT {
            match fetch_result(after_opcode, memory) {
                Err(e) => Err(e),
                Ok(lo) => match fetch_result(fetch_next(after_opcode, memory), memory) {
                    Err(e) => Err(e),
                    Ok(hi) => if opcode == jmp::OPCODE_ABSOLUTE {
                        Ok(3)
                    } else {
                        Ok(5)
                    },
                },
            }
        } else {
            Err(CpuError::InvalidOpCode(opcode))
        },
    }
}

/// The CPU after one step: exactly as far as the step progressed, with
/// the counter past every byte consumed and the instruction's effect
/// applied when it ran.
pub open spec fn step_next<M: MemoryIO>(pre: CPU, memory: M) -> CPU {
    let after_opcode = fetch_next(pre, memory);
    match fetch_result(pre, memory) {
        Err(e) => pre,
        Ok(opcode) => if opcode == lda::OPCODE_IMMEDIATE {
            match fetch_result(after_opcode, memory) {
                Err(e) => after_opcode,
                Ok(operand) => CPU { accumulator: operand, ..fetch_next(after_opcode, memory) },
            }
        } else if opcode == nop::OPCODE {
            after_opcode
        } else if opcode == jmp::OPCODE_ABSOLUTE || opcode == jmp::OPCODE_INDIRECT {
            let after_lo = fetch_next(after_opcode, memory);
            match fetch_result(after_opcode, memory) {
                Err(e) => after_opcode,
                Ok(lo) => match fetch_result(after_lo, memory) {
                    Err(e) => after_lo,
                    Ok(hi) => CPU {
                        program_counter: (lo + 256 * hi) as u16,
                        ..fetch_next(after_lo, memory)
                    },
                },
            }
        } else {
            after_opcode
        },
    }
}

impl CPU {
    /// Build a CPU that will start at `reset_vector` once reset; until
    /// then the counter sits at the reset-vector location.
    pub fn new(reset_vector: u16) -> (r: CPU)
        ensures
            r.reset_vector == reset_vector,
            r.program_counter == 0xFFFC,
            r.stack_pointer == 0,
            r.accumulator == 0,
            r.x == 0,
            r.y == 0,
            r.status == cleared_status(),
    {
        CPU {
            reset_vector,
            program_counter: 0xFFFC,
            stack_pointer: 0,
            accumulator: 0,
            x: 0,
            y: 0,
            status: Status {
                carry: false,
                zero: false,
                interrupt_disable: false,
                decimal: false,
                break_command: false,
                overflow: false,
                negative: false,
            },
        }
    }

    /// Return to a clean state: the counter at the reset vector, the
    /// working registers and flags zeroed, and the writable memory
    /// cleared; the read-only tail is untouched.
    pub fn reset<M: MemoryIO>(&mut self, memory: &mut M)
        ensures
            final(self).reset_vector == old(self).reset_vector,
            final(self).program_counter == old(self).reset_vector,
            final(self).stack_pointer == 0,
            final(self).accumulator == 0,
            final(self).x == 0,
            final(self).y == 0,
            final(self).status == cleared_status(),
            final(memory).read_only_begin_spec() == old(memory).read_only_begin_spec(),
            final(memory).mem_spec().len() == old(memory).mem_spec().len(),
            forall|i: int|
                0 <= i < old(memory).mem_spec().len() ==> #[trigger] final(memory).mem_spec()[i]
                    == (if i < old(memory).read_only_begin_spec() {
                    0u8
                } else {
                    old(memory).mem_spec()[i]
                }),
    {
        self.program_counter = self.reset_vector;
        self.stack_pointer = 0x00;
        self.accumulator = 0x00;
        self.x = 0x00;
        self.y = 0x00;
        self.status.reset();
        memory.zero();
    }

    /// Fetch the byte at the program counter and advance the counter by
    /// one with a checked addition.
    pub fn fetch<M: MemoryIO>(&mut self, memory: &M) -> (r: Result<u8, CpuError>)
        ensures
            r == fetch_result(*old(self), *memory),
            *final(self) == fetch_next(*old(self), *memory),
    {
        let byte = match memory.read(self.program_counter) {
            Err(e) => {
                return Err(CpuError::MemoryError(e));
            },
            Ok(byte) => *byte,
        };
        match self.program_counter.checked_add(1) {
            None => Err(CpuError::ProgramCounterOverflow),
            Some(next) => {
                self.program_counter = next;
                Ok(byte)
            },
        }
    }

    /// Execute exactly one instruction: fetch the opcode byte, decode it
    /// with a single exhaustive dispatch, run it, and report its cycle
    /// cost.  Memory is never written by the current instruction set.
    pub fn step<M: MemoryIO>(&mut self, memory: &mut M) -> (r: Result<u32, CpuError>)
        ensures
            r == step_result(*old(self), *old(memory)),
            *final(self) == step_next(*old(self), *old(memory)),
            *final(memory) == *old(memory),
    {
        let opcode = match self.fetch(memory) {
            Err(e) => {
                return Err(e);
            },
            Ok(byte) => byte,
        };
        if opcode == lda::OPCODE_IMMEDIATE {
            let instruction = match LDA::decode(self, memory, opcode) {
                Err(e) => {
                    return Err(e);
                },
                Ok(instruction) => instruction,
            };
            match instruction.execute(self, memory) {
                Err(e) => Err(e),
                Ok(done) => Ok(instruction.cycles()),
            }
        } else if opcode == nop::OPCODE {
            let instruction = match NOP::decode(self, memory, opcode) {
                Err(e) => {
                    return Err(e);
                },
                Ok(instruction) => instruction,
            };
            match instruction.execute(self, memory) {
                Err(e) => Err(e),
                Ok(done) => Ok(instruction.cycles()),
            }
        } else if opcode == jmp::OPCODE_ABSOLUTE || opcode == jmp::OPCODE_INDIRECT {
            let instruction = match JMP::decode(self, memory, opcode) {
                Err(e) => {
                    return Err(e);
                },
                Ok(instruction) => instruction,
            };
            match instruction.execute(self, memory) {
                Err(e) => Err(e),
                Ok(done) => Ok(instruction.cycles()),
            }
        } else {
            Err(CpuError::InvalidOpCode(opcode))
        }
    }
}

impl Default for CPU {
    /// A CPU wired like the stock board: reset vector at 0x8000, counter
    /// at the reset-vector location.
    fn default() -> (r: CPU)
        ensures
            r.reset_vector == 0x8000,
            r.program_counter == 0xFFFC,
            r.stack_pointer == 0,
            r.accumulator == 0,
            r.x == 0,
            r.y == 0,
            r.status == cleared_status(),
    {
        CPU::new(0x8000)
    }
}

} // verus!
