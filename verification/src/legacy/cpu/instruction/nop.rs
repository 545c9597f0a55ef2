use vstd::prelude::*;

use crate::legacy::cpu::instruction::Instruction;
use crate::legacy::cpu::CPU;
use crate::legacy::error::CpuError;
use crate::legacy::memory::MemoryIO;

verus! {

pub const OPCODE: u8 = 0xEA;

/// No operation: two cycles of nothing.
#[derive(Debug, Clone, Copy, PartialEq, Eq, Structural)]
pub struct NOP;

impl Instruction for NOP {
    open spec fn cycles_spec(&self) -> u32 {
        2
    }

    open spec fn opcode_spec(&self) -> u8 {
        OPCODE
    }

    fn cycles(&self) -> (r: u32) {
        2
    }

    fn opcode(&self) -> (r: u8) {
        OPCODE
    }
}

impl NOP {
    /// Decode a no-operation: nothing follows the opcode byte.
    pub fn decode<M: MemoryIO>(cpu: &mut CPU, memory: &M, opcode: u8) -> (r: Result<NOP, CpuError>)
        ensures
            *final(cpu) == *old(cpu),
            opcode == OPCODE ==> r == Ok::<NOP, CpuError>(NOP),
            opcode != OPCODE ==> r == Err::<NOP, CpuError>(CpuError::InvalidOpCode(opcode)),
    {
        if opcode == OPCODE {
            Ok(NOP)
        } else {
            Err(CpuError::InvalidOpCode(opcode))
        }
    }

    /// Run it: no state changes at all.
    pub fn execute<M: MemoryIO>(&self, cpu: &mut CPU, memory: &mut M) -> (r: Result<(), CpuError>)
        ensures
            r is Ok,
            *final(cpu) == *old(cpu),
            *final(memory) == *old(memory),
    {
        Ok(())
    }
}

} // verus!
